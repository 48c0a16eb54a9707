//! The Anime platform for update checking.

use crate::sources::{
    entries_of, failed_request, is_new, missing_field, plan_items, published_after,
    record_items, request_failure, result_view, CheckError, CheckForUpdates, CheckResult,
    Checked, ErrorKind, FetchError, Named,
};
use crate::text::{decimal, decimal_text};
use crate::time::{rfc3339_instant, Timestamp};
use crate::update::{
    ascending, sort_by_date, sorted_by_date, update_views, SourceUpdate, UpdateView,
};
use vstd::prelude::*;
use vstd::string::StringExecFns;

verus! {

/// An anime source struct.
#[derive(Debug, PartialEq, Eq)]
pub struct Anime {
    pub name: String,
    pub id: String,
}

/// The anime that are followed, each with its checkpoint.
#[derive(Debug, PartialEq, Eq)]
pub struct AnimeList(pub Vec<(Anime, Option<Timestamp>)>);

/// An episode of an anime's listing, as far as a check reads it.
#[derive(Debug, PartialEq, Eq)]
pub struct Episode {
    pub aired: Option<String>,
    pub episode_id: Option<u64>,
    pub title: Option<String>,
    pub video_url: Option<String>,
}

impl Named for Anime {
    open spec fn label(&self) -> Seq<char> {
        self.name@
    }

    open spec fn handle(&self) -> Seq<char> {
        self.id@
    }

    fn name(&self) -> (name: String) {
        self.name.clone()
    }

    fn detail(&self) -> (detail: String) {
        self.id.clone()
    }
}

impl CheckForUpdates for AnimeList {
    open spec fn entries(&self) -> Seq<(Seq<char>, Option<Timestamp>)> {
        entries_of(self.0@)
    }

    open spec fn ready(&self) -> bool {
        true
    }

    open spec fn platform(&self) -> Seq<char> {
        "Anime"@
    }

    fn platform_name(&self) -> (name: &'static str) {
        "Anime"
    }

    fn plan(&self, last_checked: &Option<Timestamp>) -> (since: Vec<Option<Timestamp>>) {
        plan_items(&self.0, last_checked)
    }

    fn check_for_all_updates(&mut self, last_checked: &Option<Timestamp>, outcomes: Vec<Checked>) -> (results: Vec<CheckResult>)
        ensures
            final(self).0@.len() == old(self).0@.len(),
            forall|i: int| 0 <= i < old(self).0@.len() ==> final(self).0@[i].0 == old(self).0@[i].0,
    {
        record_items(&mut self.0, "Anime", last_checked, outcomes)
    }
}

/// The address at which the episodes of the anime with the given id are listed.
pub open spec fn episodes_address(id: Seq<char>) -> Seq<char> {
    "https://api.jikan.moe/v3/anime/"@ + id + "/episodes/1"@
}

/// The title under which an episode is reported.
pub open spec fn episode_title(number: u64, title: Seq<char>) -> Seq<char> {
    "Episode "@ + decimal(number as nat) + " - "@ + title
}

/// The update that an episode stands for, given the instant at which it was
/// aired: none where it has no such instant, where it is not new to a check
/// from `since`, or where its number, its title or its link is missing.
pub open spec fn episode_update(
    episode: Episode,
    aired: Option<Timestamp>,
    since: Option<Timestamp>,
) -> Option<UpdateView> {
    if aired is Some && is_new(since, aired->0) && episode.episode_id is Some
        && episode.title is Some && episode.video_url is Some {
        Some(
            UpdateView {
                title: episode_title(episode.episode_id->0, episode.title->0@),
                link: episode.video_url->0@,
                published_date: aired->0,
            },
        )
    } else {
        None
    }
}

/// The instant at which an episode was aired.
pub open spec fn episode_date(episode: Episode) -> Option<Timestamp> {
    match episode.aired {
        Some(text) => Timestamp::of_parts(rfc3339_instant(text@)),
        None => None,
    }
}

/// The updates that the episodes of a listing stand for, in the order of the listing.
pub open spec fn episode_updates(episodes: Seq<Episode>, since: Option<Timestamp>) -> Seq<
    UpdateView,
>
    decreases episodes.len(),
{
    if episodes.len() == 0 {
        Seq::empty()
    } else {
        let earlier = episode_updates(episodes.drop_last(), since);
        match episode_update(episodes.last(), episode_date(episodes.last()), since) {
            Some(update) => earlier.push(update),
            None => earlier,
        }
    }
}

/// The update that an episode stands for, given the instant at which it was aired.
pub fn update_from_episode(
    episode: &Episode,
    aired: Option<Timestamp>,
    last_checked: &Option<Timestamp>,
) -> (update: Option<SourceUpdate>)
    ensures
        match update {
            Some(made) => Some(made@),
            None => None,
        } == episode_update(*episode, aired, *last_checked),
{
    let date = match aired {
        Some(date) => date,
        None => {
            return None;
        },
    };
    if !published_after(last_checked, &date) {
        return None;
    }
    match (&episode.episode_id, &episode.title, &episode.video_url) {
        (Some(number), Some(name), Some(link)) => {
            let mut title = "Episode ".to_owned();
            title.append(decimal_text(*number).as_str());
            title.append(" - ");
            title.append(name.as_str());
            Some(SourceUpdate { title, link: link.clone(), published_date: date })
        },
        _ => None,
    }
}

impl Anime {
    /// The address at which the episodes of this anime are listed.
    pub fn episodes_url(&self) -> (url: String)
        ensures
            url@ == episodes_address(self.id@),
    {
        let mut url = "https://api.jikan.moe/v3/anime/".to_owned();
        url.append(self.id.as_str());
        url.append("/episodes/1");
        url
    }

    /// Checks the anime for updates since `last_checked`, given what asking
    /// for its episodes gave: the episodes that were aired after the
    /// checkpoint, in order of airing, or the failure to get them.
    pub fn check_for_updates(
        &self,
        last_checked: &Option<Timestamp>,
        response: Result<Option<Vec<Episode>>, FetchError>,
    ) -> (result: Result<Vec<SourceUpdate>, CheckError>)
        ensures
            result_view(result) == match response {
                Ok(Some(episodes)) => Ok(
                    sorted_by_date(episode_updates(episodes@, *last_checked)),
                ),
                Ok(None) => Err(
                    (ErrorKind::MissingField, "Could not find episodes in received JSON"@),
                ),
                Err(failure) => Err(request_failure(episodes_address(self.id@), failure)),
            },
            result matches Ok(updates) ==> ascending(update_views(updates@)),
    {
        match response {
            Ok(Some(episodes)) => {
                let mut updates: Vec<SourceUpdate> = Vec::new();
                let mut i: usize = 0;
                while i < episodes.len()
                    invariant
                        i <= episodes.len(),
                        update_views(updates@) == episode_updates(
                            episodes@.take(i as int),
                            *last_checked,
                        ),
                    decreases episodes.len() - i,
                {
                    let episode = &episodes[i];
                    let aired = match &episode.aired {
                        Some(text) => Timestamp::parse_rfc3339(text.as_str()),
                        None => None,
                    };
                    proof {
                        assert(episodes@.take(i + 1).drop_last() =~= episodes@.take(i as int));
                    }
                    match update_from_episode(episode, aired, last_checked) {
                        Some(update) => {
                            updates.push(update);
                        },
                        None => {},
                    }
                    i += 1;
                }
                proof {
                    assert(episodes@.take(i as int) =~= episodes@);
                }
                Ok(sort_by_date(updates))
            },
            Ok(None) => Err(missing_field("Could not find episodes in received JSON")),
            Err(failure) => {
                let url = self.episodes_url();
                Err(failed_request(url.as_str(), &failure))
            },
        }
    }
}

} // verus!
