//! The YouTube platform for update checking.

use crate::sources::{
    entries_of, failed_request, missing_field, owned_or, plan_items, record_items,
    request_failure, result_view, text_or, CheckError, CheckForUpdates, CheckResult, Checked,
    ErrorKind, FetchError, Named,
};
use crate::time::{rfc3339_instant, written_rfc3339, zone_offset, Timestamp};
use crate::text::{line_view, Span};
use crate::update::{
    ascending, message_line, release_text, sort_by_date, sorted_by_date, update_views,
    SourceUpdate, UpdateView,
};
use vstd::prelude::*;
use vstd::string::StringExecFns;

verus! {

/// A YouTube channel.
#[derive(Debug, PartialEq, Eq)]
pub struct YouTubeChannel {
    pub name: String,
    pub channel_id: String,
}

/// The YouTube channels that are followed, each with its checkpoint, and the
/// key without which none of them is checked.
#[derive(Debug, PartialEq, Eq)]
pub struct YouTubeChannels {
    pub api_key: Option<String>,
    pub channels: Vec<(YouTubeChannel, Option<Timestamp>)>,
}

/// A video of a channel's listing, as far as a check reads it.
#[derive(Debug, PartialEq, Eq)]
pub struct Video {
    pub published_at: Option<String>,
    pub title: Option<String>,
    pub video_id: Option<String>,
}

impl Named for YouTubeChannel {
    open spec fn label(&self) -> Seq<char> {
        self.name@
    }

    open spec fn handle(&self) -> Seq<char> {
        self.channel_id@
    }

    fn name(&self) -> (name: String) {
        self.name.clone()
    }

    fn detail(&self) -> (detail: String) {
        self.channel_id.clone()
    }
}

impl CheckForUpdates for YouTubeChannels {
    open spec fn entries(&self) -> Seq<(Seq<char>, Option<Timestamp>)> {
        entries_of(self.channels@)
    }

    open spec fn ready(&self) -> bool {
        self.api_key is Some
    }

    open spec fn platform(&self) -> Seq<char> {
        "YouTube"@
    }

    fn platform_name(&self) -> (name: &'static str) {
        "YouTube"
    }

    fn plan(&self, last_checked: &Option<Timestamp>) -> (since: Vec<Option<Timestamp>>) {
        if self.api_key.is_some() {
            plan_items(&self.channels, last_checked)
        } else {
            Vec::new()
        }
    }

    fn check_for_all_updates(&mut self, last_checked: &Option<Timestamp>, outcomes: Vec<Checked>) -> (results: Vec<CheckResult>)
        ensures
            final(self).api_key == old(self).api_key,
            final(self).channels@.len() == old(self).channels@.len(),
            forall|i: int|
                0 <= i < old(self).channels@.len() ==> final(self).channels@[i].0 == old(
                    self,
                ).channels@[i].0,
            old(self).api_key is None ==> final(self).channels@ == old(self).channels@,
    {
        if self.api_key.is_some() {
            record_items(&mut self.channels, "YouTube", last_checked, outcomes)
        } else {
            let results: Vec<CheckResult> = Vec::new();
            results
        }
    }
}

/// The address at which the videos of a channel are listed that were
/// published after the instant that `published_after` names.
pub open spec fn listing_query(
    channel_id: Seq<char>,
    api_key: Seq<char>,
    published_after: Seq<char>,
) -> Seq<char> {
    "https://www.googleapis.com/youtube/v3/search"@ + "?"@ + "part=snippet"@ + "&channelId="@
        + channel_id + "&maxResults=25"@ + "&order=date"@ + "&type=video"@ + "&key="@ + api_key
        + "&publishedAfter="@ + published_after
}

/// The update that a video of a listing stands for, given the instant that
/// its date of publication denotes: none where it has no such instant.
pub open spec fn video_update(video: Video, published: Option<Timestamp>) -> Option<UpdateView> {
    match published {
        Some(date) => Some(
            UpdateView {
                title: text_or(video.title, "<unnamed>"@),
                link: match video.video_id {
                    Some(id) => "https://www.youtube.com/watch?v="@ + id@,
                    None => "<no link>"@,
                },
                published_date: date,
            },
        ),
        None => None,
    }
}

/// The instant that the date of publication of a video denotes.
pub open spec fn video_date(video: Video) -> Option<Timestamp> {
    match video.published_at {
        Some(text) => Timestamp::of_parts(rfc3339_instant(text@)),
        None => None,
    }
}

/// The updates that the videos of a listing stand for, in the order of the listing.
pub open spec fn video_updates(videos: Seq<Video>) -> Seq<UpdateView>
    decreases videos.len(),
{
    if videos.len() == 0 {
        Seq::empty()
    } else {
        let earlier = video_updates(videos.drop_last());
        match video_update(videos.last(), video_date(videos.last())) {
            Some(update) => earlier.push(update),
            None => earlier,
        }
    }
}

/// The address at which the videos of a channel are listed that were
/// published after the instant that `published_after` names.
pub fn compose_query(channel_id: &str, api_key: &str, published_after: &str) -> (url: String)
    ensures
        url@ == listing_query(channel_id@, api_key@, published_after@),
{
    let mut url = "https://www.googleapis.com/youtube/v3/search".to_owned();
    url.append("?");
    url.append("part=snippet");
    url.append("&channelId=");
    url.append(channel_id);
    url.append("&maxResults=25");
    url.append("&order=date");
    url.append("&type=video");
    url.append("&key=");
    url.append(api_key);
    url.append("&publishedAfter=");
    url.append(published_after);
    url
}

/// The update that a video of a listing stands for, given the instant that
/// its date of publication denotes.
pub fn update_from_video(video: &Video, published: Option<Timestamp>) -> (update: Option<
    SourceUpdate,
>)
    ensures
        match update {
            Some(made) => Some(made@),
            None => None,
        } == video_update(*video, published),
{
    match published {
        Some(date) => {
            let link = match &video.video_id {
                Some(id) => {
                    let mut link = "https://www.youtube.com/watch?v=".to_owned();
                    link.append(id.as_str());
                    link
                },
                None => "<no link>".to_owned(),
            };
            Some(
                SourceUpdate {
                    title: owned_or(&video.title, "<unnamed>"),
                    link,
                    published_date: date,
                },
            )
        },
        None => None,
    }
}

impl YouTubeChannel {
    /// The address to ask for the videos of this channel that were published
    /// after `last_checked`, or ever where there is no checkpoint. The
    /// checkpoint is written in the machine's local time; how far that lies
    /// ahead of Greenwich depends on the machine, so the contract leaves that
    /// open.
    pub fn query_url(&self, api_key: &str, last_checked: &Option<Timestamp>) -> (url: String)
        ensures
            last_checked is None ==> url@ == listing_query(
                self.channel_id@,
                api_key@,
                "1970-01-01T00:00:00Z"@,
            ),
            last_checked matches Some(checkpoint) ==> exists|offset: int|
                zone_offset(offset) && url@ == #[trigger] listing_query(
                    self.channel_id@,
                    api_key@,
                    written_rfc3339(checkpoint@.0, checkpoint@.1, offset),
                ),
    {
        match last_checked {
            Some(checkpoint) => {
                let stamp = checkpoint.local_rfc3339();
                let url = compose_query(self.channel_id.as_str(), api_key, stamp.as_str());
                proof {
                    let offset = choose|offset: int|
                        zone_offset(offset) && stamp@ == #[trigger] written_rfc3339(
                            checkpoint@.0,
                            checkpoint@.1,
                            offset,
                        );
                    assert(url@ == listing_query(
                        self.channel_id@,
                        api_key@,
                        written_rfc3339(checkpoint@.0, checkpoint@.1, offset),
                    ));
                }
                url
            },
            None => compose_query(self.channel_id.as_str(), api_key, "1970-01-01T00:00:00Z"),
        }
    }

    /// Checks the channel for updates, given the address that was asked and
    /// what asking it gave: the videos of the listing, in order of
    /// publication, or the failure to get a listing. The listing holds what
    /// was published after the checkpoint that the address names.
    pub fn check_for_updates(&self, query: &str, response: Result<Option<Vec<Video>>, FetchError>) -> (result: Result<Vec<SourceUpdate>, CheckError>)
        ensures
            result_view(result) == match response {
                Ok(Some(videos)) => Ok(sorted_by_date(video_updates(videos@))),
                Ok(None) => Err(
                    (ErrorKind::MissingField, "YouTube API JSON data wasn't an object"@),
                ),
                Err(failure) => Err(request_failure(query@, failure)),
            },
            result matches Ok(updates) ==> ascending(update_views(updates@)),
    {
        match response {
            Ok(Some(videos)) => {
                let mut updates: Vec<SourceUpdate> = Vec::new();
                let mut i: usize = 0;
                while i < videos.len()
                    invariant
                        i <= videos.len(),
                        update_views(updates@) == video_updates(videos@.take(i as int)),
                    decreases videos.len() - i,
                {
                    let video = &videos[i];
                    let published = match &video.published_at {
                        Some(text) => Timestamp::parse_rfc3339(text.as_str()),
                        None => None,
                    };
                    proof {
                        assert(videos@.take(i + 1).drop_last() =~= videos@.take(i as int));
                    }
                    match update_from_video(video, published) {
                        Some(update) => {
                            updates.push(update);
                        },
                        None => {},
                    }
                    i += 1;
                }
                proof {
                    assert(videos@.take(i as int) =~= videos@);
                }
                Ok(sort_by_date(updates))
            },
            Ok(None) => Err(missing_field("YouTube API JSON data wasn't an object")),
            Err(failure) => Err(failed_request(query, &failure)),
        }
    }

    /// Checks the channel for updates, given the address that was asked and
    /// what asking it gave, and sums up what the check found: nothing where
    /// the listing holds no video, and else the sentence that tells how many
    /// it holds and which was the earliest.
    pub fn check_for_update(
        &self,
        query: &str,
        response: Result<Option<Vec<Video>>, FetchError>,
        tty: bool,
    ) -> (result: Result<Option<Vec<Span>>, CheckError>)
        ensures
            match response {
                Err(failure) => result matches Err(error) && error@ == request_failure(
                    query@,
                    failure,
                ),
                Ok(None) => result matches Err(error) && error@ == (
                    ErrorKind::MissingField,
                    "YouTube API JSON data wasn't an object"@,
                ),
                Ok(Some(videos)) => {
                    let updates = sorted_by_date(video_updates(videos@));
                    if updates.len() == 0 {
                        result == Ok::<Option<Vec<Span>>, CheckError>(None)
                    } else {
                        result matches Ok(Some(line)) && exists|offset: int|
                            zone_offset(offset) && line_view(line@) == #[trigger] message_line(
                                updates.len(),
                                updates[0].title,
                                release_text(updates[0].published_date, offset),
                                updates[0].link,
                                tty,
                            )
                    }
                },
            },
    {
        match self.check_for_updates(query, response) {
            Ok(updates) => {
                let line = SourceUpdate::summary(&updates, tty);
                proof {
                    if updates.len() > 0 {
                        let first = update_views(updates@)[0];
                        let offset = choose|offset: int|
                            zone_offset(offset) && line_view(line->0@) == #[trigger] message_line(
                                updates.len() as nat,
                                updates[0].title@,
                                release_text(updates[0].published_date, offset),
                                updates[0].link@,
                                tty,
                            );
                        assert(line_view(line->0@) == message_line(
                            update_views(updates@).len(),
                            first.title,
                            release_text(first.published_date, offset),
                            first.link,
                            tty,
                        ));
                    }
                }
                Ok(line)
            },
            Err(error) => Err(error),
        }
    }
}

} // verus!
