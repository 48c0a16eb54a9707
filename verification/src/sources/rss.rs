//! The RSS feed platform for update checking.

use crate::sources::{
    entries_of, is_new, owned_or, plan_items, published_after, record_items, result_view, text_or,
    CheckError, CheckForUpdates, CheckResult, Checked, ErrorKind, FetchError, Named,
};
use crate::time::{rfc2822_instant, zone_offset, Timestamp};
use crate::text::{line_view, Span};
use crate::update::{
    ascending, message_line, release_text, sort_by_date, sorted_by_date, update_views,
    SourceUpdate, UpdateView,
};
use vstd::prelude::*;
use vstd::string::StringExecFns;

verus! {

/// An RSS feed.
#[derive(Debug, PartialEq, Eq)]
pub struct RssSource {
    pub name: String,
    pub feed: String,
}

/// The RSS feeds that are followed, each with its checkpoint.
#[derive(Debug, PartialEq, Eq)]
pub struct RssSources(pub Vec<(RssSource, Option<Timestamp>)>);

impl Named for RssSource {
    open spec fn label(&self) -> Seq<char> {
        self.name@
    }

    open spec fn handle(&self) -> Seq<char> {
        self.feed@
    }

    fn name(&self) -> (name: String) {
        self.name.clone()
    }

    fn detail(&self) -> (detail: String) {
        self.feed.clone()
    }
}

impl CheckForUpdates for RssSources {
    open spec fn entries(&self) -> Seq<(Seq<char>, Option<Timestamp>)> {
        entries_of(self.0@)
    }

    open spec fn ready(&self) -> bool {
        true
    }

    open spec fn platform(&self) -> Seq<char> {
        "RSS"@
    }

    fn platform_name(&self) -> (name: &'static str) {
        "RSS"
    }

    fn plan(&self, last_checked: &Option<Timestamp>) -> (since: Vec<Option<Timestamp>>) {
        plan_items(&self.0, last_checked)
    }

    fn check_for_all_updates(&mut self, last_checked: &Option<Timestamp>, outcomes: Vec<Checked>) -> (results: Vec<CheckResult>)
        ensures
            final(self).0@.len() == old(self).0@.len(),
            forall|i: int| 0 <= i < old(self).0@.len() ==> final(self).0@[i].0 == old(self).0@[i].0,
    {
        record_items(&mut self.0, "RSS", last_checked, outcomes)
    }
}

/// An entry of a feed, as far as a check reads it.
#[derive(Debug, PartialEq, Eq)]
pub struct FeedItem {
    pub title: Option<String>,
    pub link: Option<String>,
    pub pub_date: Option<String>,
}

/// The update that an entry of a feed stands for, given the instant that its
/// date of publication denotes: none where it has no such instant, or where
/// it is not new to a check from `since`.
pub open spec fn feed_update(
    item: FeedItem,
    published: Option<Timestamp>,
    since: Option<Timestamp>,
) -> Option<UpdateView> {
    match published {
        Some(date) => if is_new(since, date) {
            Some(
                UpdateView {
                    title: text_or(item.title, "<unnamed>"@),
                    link: text_or(item.link, "<no link>"@),
                    published_date: date,
                },
            )
        } else {
            None
        },
        None => None,
    }
}

/// The instant that the date of publication of an entry denotes.
pub open spec fn feed_date(item: FeedItem) -> Option<Timestamp> {
    Timestamp::of_parts(rfc2822_instant(text_or(item.pub_date, ""@)))
}

/// The updates that the entries of a feed stand for, in the order of the entries.
pub open spec fn feed_updates(items: Seq<FeedItem>, since: Option<Timestamp>) -> Seq<UpdateView>
    decreases items.len(),
{
    if items.len() == 0 {
        Seq::empty()
    } else {
        let earlier = feed_updates(items.drop_last(), since);
        match feed_update(items.last(), feed_date(items.last()), since) {
            Some(update) => earlier.push(update),
            None => earlier,
        }
    }
}

/// The update that an entry of a feed stands for, given the instant that its
/// date of publication denotes.
pub fn update_from_item(
    item: &FeedItem,
    published: Option<Timestamp>,
    last_checked: &Option<Timestamp>,
) -> (update: Option<SourceUpdate>)
    ensures
        match update {
            Some(made) => Some(made@),
            None => None,
        } == feed_update(*item, published, *last_checked),
{
    match published {
        Some(date) => {
            if published_after(last_checked, &date) {
                Some(
                    SourceUpdate {
                        title: owned_or(&item.title, "<unnamed>"),
                        link: owned_or(&item.link, "<no link>"),
                        published_date: date,
                    },
                )
            } else {
                None
            }
        },
        None => None,
    }
}

impl RssSource {
    /// The failure of a check of this feed that could not load it.
    pub open spec fn load_failure(self, failure: FetchError) -> (ErrorKind, Seq<char>) {
        (
            failure.spec_kind(),
            "Couldn't load RSS feed from "@ + self.feed@ + ": "@ + failure.spec_detail(),
        )
    }

    /// Checks the feed for updates since `last_checked`, given what loading
    /// the feed gave: the entries that were published after the checkpoint,
    /// in order of publication, or the failure to load it.
    pub fn check_for_updates(
        &self,
        last_checked: &Option<Timestamp>,
        response: Result<Vec<FeedItem>, FetchError>,
    ) -> (result: Result<Vec<SourceUpdate>, CheckError>)
        ensures
            result_view(result) == match response {
                Ok(items) => Ok(sorted_by_date(feed_updates(items@, *last_checked))),
                Err(failure) => Err(self.load_failure(failure)),
            },
            result matches Ok(updates) ==> ascending(update_views(updates@)),
    {
        match response {
            Ok(items) => {
                let mut updates: Vec<SourceUpdate> = Vec::new();
                let mut i: usize = 0;
                while i < items.len()
                    invariant
                        i <= items.len(),
                        update_views(updates@) == feed_updates(items@.take(i as int), *last_checked),
                    decreases items.len() - i,
                {
                    let item = &items[i];
                    let date_text = owned_or(&item.pub_date, "");
                    let published = Timestamp::parse_rfc2822(date_text.as_str());
                    proof {
                        assert(items@.take(i + 1).drop_last() =~= items@.take(i as int));
                    }
                    match update_from_item(item, published, last_checked) {
                        Some(update) => {
                            updates.push(update);
                        },
                        None => {},
                    }
                    i += 1;
                }
                proof {
                    assert(items@.take(i as int) =~= items@);
                }
                Ok(sort_by_date(updates))
            },
            Err(failure) => {
                let mut message = "Couldn't load RSS feed from ".to_owned();
                message.append(self.feed.as_str());
                message.append(": ");
                message.append(failure.detail());
                Err(CheckError { kind: failure.kind(), message })
            },
        }
    }

    /// Checks the feed for updates since `last_checked`, given what loading
    /// the feed gave, and sums up what the check found: nothing where no
    /// entry was published after the checkpoint, and else the sentence that
    /// tells how many were and which was the earliest.
    pub fn check_for_update(
        &self,
        last_checked: &Option<Timestamp>,
        response: Result<Vec<FeedItem>, FetchError>,
        tty: bool,
    ) -> (result: Result<Option<Vec<Span>>, CheckError>)
        ensures
            match response {
                Err(failure) => result matches Err(error) && error@ == self.load_failure(failure),
                Ok(items) => {
                    let updates = sorted_by_date(feed_updates(items@, *last_checked));
                    if updates.len() == 0 {
                        result == Ok::<Option<Vec<Span>>, CheckError>(None)
                    } else {
                        result matches Ok(Some(line)) && exists|offset: int|
                            zone_offset(offset) && line_view(line@) == #[trigger] message_line(
                                updates.len(),
                                updates[0].title,
                                release_text(updates[0].published_date, offset),
                                updates[0].link,
                                tty,
                            )
                    }
                },
            },
    {
        match self.check_for_updates(last_checked, response) {
            Ok(updates) => {
                let line = SourceUpdate::summary(&updates, tty);
                proof {
                    if updates.len() > 0 {
                        let first = update_views(updates@)[0];
                        let offset = choose|offset: int|
                            zone_offset(offset) && line_view(line->0@) == #[trigger] message_line(
                                updates.len() as nat,
                                updates[0].title@,
                                release_text(updates[0].published_date, offset),
                                updates[0].link@,
                                tty,
                            );
                        assert(line_view(line->0@) == message_line(
                            update_views(updates@).len(),
                            first.title,
                            release_text(first.published_date, offset),
                            first.link,
                            tty,
                        ));
                    }
                }
                Ok(line)
            },
            Err(error) => Err(error),
        }
    }
}

} // verus!
