//! The platforms that are checked for updates, and what they have in common:
//! the items of a platform with their checkpoints, the errors of a check,
//! and how the outcome of a check is recorded.

pub mod anime;
pub mod bandcamp;
pub mod manga;
pub mod rss;
pub mod youtube;

use crate::reconcile::{effective, effective_checkpoint, next_checkpoint, recorded};
use crate::report::{aggregate, any_update, event_views, mode, mode_of, run_events, Report};
use crate::sources::anime::{Anime, AnimeList};
use crate::sources::bandcamp::{BandcampArtist, BandcampArtists};
use crate::sources::manga::{Manga, MangaList};
use crate::sources::rss::{RssSource, RssSources};
use crate::sources::youtube::{YouTubeChannel, YouTubeChannels};
use crate::present::{tint_for, tinted};
use crate::text::{is_terminal, line_view, span, Output, Span, Tint};
use crate::time::Timestamp;
use crate::update::{update_views, SourceUpdate, UpdateView};
use vstd::prelude::*;
use vstd::string::StringExecFns;

verus! {

/// The ways in which the check of one item fails.
#[derive(Clone, Copy, Debug, PartialEq, Eq, Structural)]
pub enum ErrorKind {
    /// The source could not be reached.
    NetworkUnavailable,
    /// What the source sent is not in the format that was expected.
    MalformedResponse,
    /// What the source sent is in that format, but lacks something needed.
    MissingField,
}

/// The failure of the check of one item.
#[derive(Debug, PartialEq, Eq)]
pub struct CheckError {
    pub kind: ErrorKind,
    pub message: String,
}

impl View for CheckError {
    type V = (ErrorKind, Seq<char>);

    open spec fn view(&self) -> (ErrorKind, Seq<char>) {
        (self.kind, self.message@)
    }
}

impl Clone for CheckError {
    fn clone(&self) -> (copy: Self)
        ensures
            copy == *self,
    {
        CheckError { kind: self.kind, message: self.message.clone() }
    }
}

/// What the check of one item gave: the updates it found, in order of
/// publication, or its failure; when it finished; and the seconds that the
/// run had taken by then.
#[derive(Debug, PartialEq, Eq)]
pub struct Checked {
    pub result: Result<Vec<SourceUpdate>, CheckError>,
    pub checked_at: Timestamp,
    pub seconds: u64,
}

/// The outcome of a check as the contracts speak of it.
pub struct CheckedView {
    pub result: Result<Seq<UpdateView>, (ErrorKind, Seq<char>)>,
    pub checked_at: Timestamp,
    pub seconds: u64,
}

/// The result of the check of one item, with the names of its platform and
/// of the item.
#[derive(Debug, PartialEq, Eq)]
pub struct CheckResult {
    pub platform: String,
    pub source: String,
    pub result: Result<Vec<SourceUpdate>, CheckError>,
    pub seconds: u64,
}

/// The result of a check as the contracts speak of it.
pub struct CheckResultView {
    pub platform: Seq<char>,
    pub source: Seq<char>,
    pub result: Result<Seq<UpdateView>, (ErrorKind, Seq<char>)>,
    pub seconds: u64,
}

/// Why nothing could be read from a source: what fetching it ended in,
/// with the words of whoever reported that.
#[derive(Debug, PartialEq, Eq)]
pub enum FetchError {
    /// The source could not be reached.
    Unreachable(String),
    /// The source answered, but not in the format that was expected.
    Unreadable(String),
}

impl FetchError {
    /// The kind of failure that this is for the check.
    pub open spec fn spec_kind(self) -> ErrorKind {
        match self {
            FetchError::Unreachable(_) => ErrorKind::NetworkUnavailable,
            FetchError::Unreadable(_) => ErrorKind::MalformedResponse,
        }
    }

    /// The words with which the failure was reported.
    pub open spec fn spec_detail(self) -> Seq<char> {
        match self {
            FetchError::Unreachable(detail) => detail@,
            FetchError::Unreadable(detail) => detail@,
        }
    }

    /// The kind of failure that this is for the check.
    pub fn kind(&self) -> (kind: ErrorKind)
        ensures
            kind == self.spec_kind(),
    {
        match self {
            FetchError::Unreachable(_) => ErrorKind::NetworkUnavailable,
            FetchError::Unreadable(_) => ErrorKind::MalformedResponse,
        }
    }

    /// The words with which the failure was reported.
    pub fn detail(&self) -> (detail: &str)
        ensures
            detail@ == self.spec_detail(),
    {
        match self {
            FetchError::Unreachable(detail) => detail.as_str(),
            FetchError::Unreadable(detail) => detail.as_str(),
        }
    }
}

/// The failure of a check whose request to `url` gave no data to read.
pub open spec fn request_failure(url: Seq<char>, failure: FetchError) -> (ErrorKind, Seq<char>) {
    match failure {
        FetchError::Unreachable(_) => (ErrorKind::NetworkUnavailable, "Couldn't access "@ + url),
        FetchError::Unreadable(_) => (
            ErrorKind::MalformedResponse,
            "Couldn't parse request data as JSON"@,
        ),
    }
}

/// The failure of a check whose request to `url` gave no data to read.
pub fn failed_request(url: &str, failure: &FetchError) -> (error: CheckError)
    ensures
        error@ == request_failure(url@, *failure),
{
    match failure {
        FetchError::Unreachable(_) => {
            let mut message = "Couldn't access ".to_owned();
            message.append(url);
            CheckError { kind: ErrorKind::NetworkUnavailable, message }
        },
        FetchError::Unreadable(_) => CheckError {
            kind: ErrorKind::MalformedResponse,
            message: "Couldn't parse request data as JSON".to_owned(),
        },
    }
}

/// The failure of a check that lacks what it looked for in the data.
pub fn missing_field(message: &str) -> (error: CheckError)
    ensures
        error@ == (ErrorKind::MissingField, message@),
{
    CheckError { kind: ErrorKind::MissingField, message: message.to_owned() }
}

/// Whether something published at `date` is new to a check that starts from
/// the checkpoint `since`: it is unless it was published at or before it.
pub open spec fn is_new(since: Option<Timestamp>, date: Timestamp) -> bool {
    since matches Some(checkpoint) ==> checkpoint.before(date)
}

/// The text `value`, or `fallback` where there is none.
pub open spec fn text_or(value: Option<String>, fallback: Seq<char>) -> Seq<char> {
    match value {
        Some(text) => text@,
        None => fallback,
    }
}

/// Whether something published at `date` is new to a check that starts from
/// the checkpoint `since`.
pub fn published_after(since: &Option<Timestamp>, date: &Timestamp) -> (new: bool)
    ensures
        new == is_new(*since, *date),
{
    match since {
        Some(checkpoint) => checkpoint.is_before(date),
        None => true,
    }
}

/// The text `value`, or `fallback` where there is none.
pub fn owned_or(value: &Option<String>, fallback: &str) -> (text: String)
    ensures
        text@ == text_or(*value, fallback@),
{
    match value {
        Some(text) => text.clone(),
        None => fallback.to_owned(),
    }
}

/// What a check gave, as the contracts speak of it.
pub open spec fn result_view(result: Result<Vec<SourceUpdate>, CheckError>) -> Result<
    Seq<UpdateView>,
    (ErrorKind, Seq<char>),
> {
    match result {
        Ok(updates) => Ok(update_views(updates@)),
        Err(error) => Err(error@),
    }
}

impl View for Checked {
    type V = CheckedView;

    open spec fn view(&self) -> CheckedView {
        CheckedView {
            result: result_view(self.result),
            checked_at: self.checked_at,
            seconds: self.seconds,
        }
    }
}

impl View for CheckResult {
    type V = CheckResultView;

    open spec fn view(&self) -> CheckResultView {
        CheckResultView {
            platform: self.platform@,
            source: self.source@,
            result: result_view(self.result),
            seconds: self.seconds,
        }
    }
}

/// The outcomes of a list, each as the contracts speak of it.
pub open spec fn checked_views(outcomes: Seq<Checked>) -> Seq<CheckedView> {
    Seq::new(outcomes.len(), |i: int| outcomes[i]@)
}

/// The results of a list, each as the contracts speak of it.
pub open spec fn result_views(results: Seq<CheckResult>) -> Seq<CheckResultView> {
    Seq::new(results.len(), |i: int| results[i]@)
}

/// Whether a check found at least one update.
pub open spec fn found(result: Result<Seq<UpdateView>, (ErrorKind, Seq<char>)>) -> bool {
    result matches Ok(updates) && updates.len() > 0
}

/// The checkpoints from which the items of a platform are to be checked, one
/// for each item and in their order. A platform that lacks what it needs to
/// be checked has no check to make.
pub open spec fn planned(
    ready: bool,
    entries: Seq<(Seq<char>, Option<Timestamp>)>,
    global: Option<Timestamp>,
) -> Seq<Option<Timestamp>> {
    if ready {
        Seq::new(entries.len(), |i: int| effective(global, entries[i].1))
    } else {
        Seq::empty()
    }
}

/// How many items of a platform have their outcome among `outcomes`: the
/// outcomes stand in the order of the items, and a platform that is not
/// ready has none.
pub open spec fn covered(ready: bool, items: nat, outcomes: nat) -> nat {
    if !ready {
        0
    } else if outcomes < items {
        outcomes
    } else {
        items
    }
}

/// The names and checkpoints of a platform's items once the outcomes of
/// their checks are recorded. An item without an outcome keeps its checkpoint.
pub open spec fn entries_after(
    ready: bool,
    entries: Seq<(Seq<char>, Option<Timestamp>)>,
    global: Option<Timestamp>,
    outcomes: Seq<CheckedView>,
) -> Seq<(Seq<char>, Option<Timestamp>)> {
    Seq::new(
        entries.len(),
        |i: int|
            if i < covered(ready, entries.len(), outcomes.len()) {
                (
                    entries[i].0,
                    recorded(
                        entries[i].1,
                        global,
                        found(outcomes[i].result),
                        outcomes[i].checked_at,
                    ),
                )
            } else {
                entries[i]
            },
    )
}

/// The results that a platform reports: for each item with an outcome, in
/// the order of the items, what its check gave under the names of the
/// platform and of the item.
pub open spec fn tagged(
    platform: Seq<char>,
    ready: bool,
    entries: Seq<(Seq<char>, Option<Timestamp>)>,
    outcomes: Seq<CheckedView>,
) -> Seq<CheckResultView> {
    Seq::new(
        covered(ready, entries.len(), outcomes.len()),
        |i: int|
            CheckResultView {
                platform,
                source: entries[i].0,
                result: outcomes[i].result,
                seconds: outcomes[i].seconds,
            },
    )
}

/// A platform that lacks what it needs to be checked makes no check, reports
/// no result, which is to say no failure either, and keeps the checkpoints of
/// its items, whatever outcomes it is handed.
pub proof fn lemma_platform_that_is_not_ready_reports_nothing(
    platform: Seq<char>,
    entries: Seq<(Seq<char>, Option<Timestamp>)>,
    global: Option<Timestamp>,
    outcomes: Seq<CheckedView>,
)
    ensures
        planned(false, entries, global).len() == 0,
        tagged(platform, false, entries, outcomes).len() == 0,
        entries_after(false, entries, global, outcomes) == entries,
{
}

/// What the check of one item gave, a failure or anything else, changes
/// neither the result nor the checkpoint of any other item of the platform.
pub proof fn lemma_outcome_stays_with_its_item(
    platform: Seq<char>,
    ready: bool,
    entries: Seq<(Seq<char>, Option<Timestamp>)>,
    global: Option<Timestamp>,
    outcomes: Seq<CheckedView>,
    k: int,
    other: CheckedView,
)
    requires
        0 <= k < outcomes.len(),
    ensures
        tagged(platform, ready, entries, outcomes.update(k, other)).len() == tagged(
            platform,
            ready,
            entries,
            outcomes,
        ).len(),
        forall|i: int|
            0 <= i < tagged(platform, ready, entries, outcomes).len() && i != k ==> tagged(
                platform,
                ready,
                entries,
                outcomes.update(k, other),
            )[i] == tagged(platform, ready, entries, outcomes)[i],
        forall|i: int|
            0 <= i < entries.len() && i != k ==> entries_after(
                ready,
                entries,
                global,
                outcomes.update(k, other),
            )[i] == entries_after(ready, entries, global, outcomes)[i],
{
}

/// Recording the outcomes of a platform's checks moves no checkpoint back,
/// provided that no check which found an update finished before the
/// checkpoint that its item already had.
pub proof fn lemma_recording_never_regresses(
    ready: bool,
    entries: Seq<(Seq<char>, Option<Timestamp>)>,
    global: Option<Timestamp>,
    outcomes: Seq<CheckedView>,
)
    requires
        forall|i: int|
            0 <= i < entries.len() && i < outcomes.len() && found(outcomes[i].result)
                ==> crate::reconcile::not_after(entries[i].1, Some(outcomes[i].checked_at)),
    ensures
        entries_after(ready, entries, global, outcomes).len() == entries.len(),
        forall|i: int|
            0 <= i < entries.len() ==> crate::reconcile::not_after(
                entries[i].1,
                #[trigger] entries_after(ready, entries, global, outcomes)[i].1,
            ),
{
}

/// What every platform that can be checked for updates offers.
pub trait CheckForUpdates {
    /// The name and the checkpoint of each item, in the order of the items.
    spec fn entries(&self) -> Seq<(Seq<char>, Option<Timestamp>)>;

    /// Whether the platform has what it needs to be checked.
    spec fn ready(&self) -> bool;

    /// The name of the platform.
    spec fn platform(&self) -> Seq<char>;

    /// The name of the platform (aka "YouTube").
    fn platform_name(&self) -> (name: &'static str)
        ensures
            name@ == self.platform(),
    ;

    /// The checkpoints from which the items are to be checked, given the
    /// checkpoint of the run.
    fn plan(&self, last_checked: &Option<Timestamp>) -> (since: Vec<Option<Timestamp>>)
        ensures
            since@ == planned(self.ready(), self.entries(), *last_checked),
    ;

    /// Records the outcomes of the checks of the items, which stand in the
    /// order of the items: moves each item's checkpoint as the outcome of
    /// its check asks, and reports each outcome under the item's name.
    fn check_for_all_updates(&mut self, last_checked: &Option<Timestamp>, outcomes: Vec<Checked>) -> (results: Vec<CheckResult>)
        ensures
            final(self).ready() == old(self).ready(),
            final(self).platform() == old(self).platform(),
            final(self).entries() == entries_after(
                old(self).ready(),
                old(self).entries(),
                *last_checked,
                checked_views(outcomes@),
            ),
            result_views(results@) == tagged(
                old(self).platform(),
                old(self).ready(),
                old(self).entries(),
                checked_views(outcomes@),
            ),
    ;
}

/// What an item of any platform has: the name the user gave it, and what
/// the platform knows it by.
pub trait Named {
    /// The name of the item.
    spec fn label(&self) -> Seq<char>;

    /// What the platform knows the item by.
    spec fn handle(&self) -> Seq<char>;

    /// The name of the item.
    fn name(&self) -> (name: String)
        ensures
            name@ == self.label(),
    ;

    /// What the platform knows the item by.
    fn detail(&self) -> (detail: String)
        ensures
            detail@ == self.handle(),
    ;
}

/// The line that shows an item in the list of its platform. A feed and an
/// artist are shown with their addresses, a channel with its id, an anime
/// and a manga by name alone, and without colour.
pub open spec fn item_line(platform: Platform, name: Seq<char>, detail: Seq<char>, tty: bool) -> Seq<
    (Seq<char>, Tint),
> {
    match platform {
        Platform::Rss | Platform::Bandcamp => seq![
            (name, tinted(Tint::Green, tty)),
            (": "@, Tint::Plain),
            (detail, tinted(Tint::BrightBlue, tty)),
        ],
        Platform::YouTube => seq![
            (name, tinted(Tint::Green, tty)),
            (": "@, Tint::Plain),
            (detail, Tint::Plain),
        ],
        Platform::Manga | Platform::Anime => seq![(name, Tint::Plain)],
    }
}

/// The lines of a list, each as the contracts speak of it.
pub open spec fn line_views(lines: Seq<Vec<Span>>) -> Seq<Seq<(Seq<char>, Tint)>> {
    Seq::new(lines.len(), |i: int| line_view(lines[i]@))
}

/// The lines that show the items of a platform, one for each item.
pub open spec fn item_lines<T: Named>(
    platform: Platform,
    items: Seq<(T, Option<Timestamp>)>,
    tty: bool,
) -> Seq<Seq<(Seq<char>, Tint)>> {
    Seq::new(
        items.len(),
        |i: int| item_line(platform, items[i].0.label(), items[i].0.handle(), tty),
    )
}

/// The line that shows an item in the list of its platform.
pub fn compose_item(platform: Platform, name: &str, detail: &str, tty: bool) -> (line: Vec<Span>)
    ensures
        line_view(line@) == item_line(platform, name@, detail@, tty),
{
    let mut line: Vec<Span> = Vec::new();
    match platform {
        Platform::Rss | Platform::Bandcamp => {
            line.push(span(name, tint_for(Tint::Green, tty)));
            line.push(span(": ", Tint::Plain));
            line.push(span(detail, tint_for(Tint::BrightBlue, tty)));
        },
        Platform::YouTube => {
            line.push(span(name, tint_for(Tint::Green, tty)));
            line.push(span(": ", Tint::Plain));
            line.push(span(detail, Tint::Plain));
        },
        Platform::Manga | Platform::Anime => {
            line.push(span(name, Tint::Plain));
        },
    }
    line
}

/// The lines that show the items of a platform, one for each item.
pub fn list_items<T: Named>(platform: Platform, items: &Vec<(T, Option<Timestamp>)>, tty: bool) -> (lines: Vec<Vec<Span>>)
    ensures
        line_views(lines@) == item_lines(platform, items@, tty),
{
    let mut lines: Vec<Vec<Span>> = Vec::new();
    let mut i: usize = 0;
    while i < items.len()
        invariant
            i <= items.len(),
            lines@.len() == i,
            forall|j: int|
                0 <= j < i ==> line_view((#[trigger] lines@[j])@) == item_line(
                    platform,
                    items@[j].0.label(),
                    items@[j].0.handle(),
                    tty,
                ),
        decreases items.len() - i,
    {
        let name = items[i].0.name();
        let detail = items[i].0.detail();
        lines.push(compose_item(platform, name.as_str(), detail.as_str(), tty));
        i += 1;
    }
    lines
}

/// The name and the checkpoint of each item of a list.
pub open spec fn entries_of<T: Named>(items: Seq<(T, Option<Timestamp>)>) -> Seq<
    (Seq<char>, Option<Timestamp>),
> {
    Seq::new(items.len(), |i: int| (items[i].0.label(), items[i].1))
}

/// The checkpoints from which the items of a list are to be checked.
pub fn plan_items<T: Named>(items: &Vec<(T, Option<Timestamp>)>, last_checked: &Option<Timestamp>) -> (since: Vec<Option<Timestamp>>)
    ensures
        since@ == planned(true, entries_of(items@), *last_checked),
{
    let mut since: Vec<Option<Timestamp>> = Vec::new();
    let mut i: usize = 0;
    while i < items.len()
        invariant
            i <= items.len(),
            since@.len() == i,
            forall|j: int|
                0 <= j < i ==> since@[j] == effective(*last_checked, entries_of(items@)[j].1),
        decreases items.len() - i,
    {
        since.push(effective_checkpoint(last_checked, &items[i].1));
        i += 1;
    }
    since
}

/// Records the outcomes of the checks of the items of a list. The items
/// themselves stay as they are; only their checkpoints move.
pub fn record_items<T: Named>(
    items: &mut Vec<(T, Option<Timestamp>)>,
    platform: &str,
    last_checked: &Option<Timestamp>,
    outcomes: Vec<Checked>,
) -> (results: Vec<CheckResult>)
    ensures
        final(items)@.len() == old(items)@.len(),
        forall|i: int| 0 <= i < old(items)@.len() ==> final(items)@[i].0 == old(items)@[i].0,
        entries_of(final(items)@) == entries_after(
            true,
            entries_of(old(items)@),
            *last_checked,
            checked_views(outcomes@),
        ),
        result_views(results@) == tagged(
            platform@,
            true,
            entries_of(old(items)@),
            checked_views(outcomes@),
        ),
{
    let mut results: Vec<CheckResult> = Vec::new();
    let ghost before = items@;
    let ghost all = outcomes@;
    let count = items.len();
    for outcome in it: outcomes
        invariant
            it.seq() == all,
            items@.len() == before.len(),
            count == before.len(),
            results@.len() == covered(true, before.len(), it.index() as nat),
            forall|i: int| 0 <= i < before.len() ==> (#[trigger] items@[i]).0 == before[i].0,
            forall|i: int|
                0 <= i < results@.len() ==> (#[trigger] items@[i]).1 == recorded(
                    before[i].1,
                    *last_checked,
                    found(all[i]@.result),
                    all[i].checked_at,
                ),
            forall|i: int|
                results@.len() <= i < before.len() ==> (#[trigger] items@[i]).1 == before[i].1,
            forall|i: int|
                0 <= i < results@.len() ==> (#[trigger] results@[i])@ == (CheckResultView {
                    platform: platform@,
                    source: before[i].0.label(),
                    result: all[i]@.result,
                    seconds: all[i].seconds,
                }),
    {
        let i = results.len();
        if i < count {
            let is_found = match &outcome.result {
                Ok(updates) => updates.len() > 0,
                Err(_) => false,
            };
            let next = next_checkpoint(&items[i].1, last_checked, is_found, outcome.checked_at);
            items[i].1 = next;
            let source = items[i].0.name();
            results.push(
                CheckResult {
                    platform: platform.to_owned(),
                    source,
                    result: outcome.result,
                    seconds: outcome.seconds,
                },
            );
        }
    }
    results
}

/// The platforms whose items the user manages.
#[derive(Clone, Copy, Debug, PartialEq, Eq, Structural)]
pub enum Platform {
    Rss,
    Bandcamp,
    YouTube,
    Manga,
    Anime,
}

/// All that is followed: the checkpoint of the last run that found an
/// update, and the items of each platform.
#[derive(Debug, PartialEq, Eq)]
pub struct Sources {
    pub last_checked: Option<Timestamp>,
    pub rss: RssSources,
    pub youtube: YouTubeChannels,
    pub anime: AnimeList,
    pub manga: MangaList,
    pub bandcamp: BandcampArtists,
}

/// The outcomes of the checks of a run: for each platform those of its
/// items, in the order of the items.
#[derive(Debug, PartialEq, Eq)]
pub struct Outcomes {
    pub rss: Vec<Checked>,
    pub youtube: Vec<Checked>,
    pub anime: Vec<Checked>,
    pub manga: Vec<Checked>,
    pub bandcamp: Vec<Checked>,
}

/// The checkpoints from which a run checks the items: for each platform
/// those of its items, in the order of the items.
#[derive(Debug, PartialEq, Eq)]
pub struct Plan {
    pub rss: Vec<Option<Timestamp>>,
    pub youtube: Vec<Option<Timestamp>>,
    pub anime: Vec<Option<Timestamp>>,
    pub manga: Vec<Option<Timestamp>>,
    pub bandcamp: Vec<Option<Timestamp>>,
}

impl Sources {
    /// The results that the platforms report of a run with the given
    /// outcomes, platform by platform.
    pub open spec fn results_of(self, outcomes: Outcomes) -> Seq<CheckResultView> {
        tagged(self.rss.platform(), self.rss.ready(), self.rss.entries(), checked_views(outcomes.rss@))
            + tagged(
            self.youtube.platform(),
            self.youtube.ready(),
            self.youtube.entries(),
            checked_views(outcomes.youtube@),
        ) + tagged(
            self.anime.platform(),
            self.anime.ready(),
            self.anime.entries(),
            checked_views(outcomes.anime@),
        ) + tagged(
            self.manga.platform(),
            self.manga.ready(),
            self.manga.entries(),
            checked_views(outcomes.manga@),
        ) + tagged(
            self.bandcamp.platform(),
            self.bandcamp.ready(),
            self.bandcamp.entries(),
            checked_views(outcomes.bandcamp@),
        )
    }

    /// Whether `other` follows the same items as this, whatever their
    /// checkpoints are, and has the same key.
    pub open spec fn same_items(self, other: Sources) -> bool {
        &&& other.rss.0@.len() == self.rss.0@.len()
        &&& forall|i: int| 0 <= i < self.rss.0@.len() ==> other.rss.0@[i].0 == self.rss.0@[i].0
        &&& other.youtube.api_key == self.youtube.api_key
        &&& other.youtube.channels@.len() == self.youtube.channels@.len()
        &&& forall|i: int|
            0 <= i < self.youtube.channels@.len() ==> other.youtube.channels@[i].0
                == self.youtube.channels@[i].0
        &&& other.anime.0@.len() == self.anime.0@.len()
        &&& forall|i: int| 0 <= i < self.anime.0@.len() ==> other.anime.0@[i].0 == self.anime.0@[i].0
        &&& other.manga.0@.len() == self.manga.0@.len()
        &&& forall|i: int| 0 <= i < self.manga.0@.len() ==> other.manga.0@[i].0 == self.manga.0@[i].0
        &&& other.bandcamp.0@.len() == self.bandcamp.0@.len()
        &&& forall|i: int|
            0 <= i < self.bandcamp.0@.len() ==> other.bandcamp.0@[i].0 == self.bandcamp.0@[i].0
    }

    /// This with the checkpoint `since_time` where that names one, and as it
    /// is where not.
    pub open spec fn since(self, since_time: Option<Timestamp>) -> Sources {
        match since_time {
            Some(time) => Sources { last_checked: Some(time), ..self },
            None => self,
        }
    }

    /// This with the key `key` for the YouTube platform.
    pub open spec fn with_key(self, key: Option<String>) -> Sources {
        Sources { youtube: YouTubeChannels { api_key: key, ..self.youtube }, ..self }
    }

    /// Whether `after` is this with one more item at the end of the items
    /// of `platform`: the item with the given name and what else describes
    /// it, which has no checkpoint yet.
    pub open spec fn with_item(self, platform: Platform, name: String, detail: String, after: Sources) -> bool {
        &&& after.last_checked == self.last_checked
        &&& after.youtube.api_key == self.youtube.api_key
        &&& if platform == Platform::Rss {
            after.rss.0@ == self.rss.0@.push((RssSource { name, feed: detail }, None))
        } else {
            after.rss == self.rss
        }
        &&& if platform == Platform::Bandcamp {
            after.bandcamp.0@ == self.bandcamp.0@.push((BandcampArtist { name, url: detail }, None))
        } else {
            after.bandcamp == self.bandcamp
        }
        &&& if platform == Platform::YouTube {
            after.youtube.channels@ == self.youtube.channels@.push(
                (YouTubeChannel { name, channel_id: detail }, None),
            )
        } else {
            after.youtube == self.youtube
        }
        &&& if platform == Platform::Manga {
            after.manga.0@ == self.manga.0@.push((Manga { name, id: detail }, None))
        } else {
            after.manga == self.manga
        }
        &&& if platform == Platform::Anime {
            after.anime.0@ == self.anime.0@.push((Anime { name, id: detail }, None))
        } else {
            after.anime == self.anime
        }
    }

    /// Follows one more item of `platform`: the one with the given name and
    /// what else describes it. It has no checkpoint yet.
    pub fn add(&mut self, platform: Platform, name: String, detail: String)
        ensures
            old(self).with_item(platform, name, detail, *final(self)),
    {
        match platform {
            Platform::Rss => self.rss.0.push((RssSource { name, feed: detail }, None)),
            Platform::Bandcamp => self.bandcamp.0.push(
                (BandcampArtist { name, url: detail }, None),
            ),
            Platform::YouTube => self.youtube.channels.push(
                (YouTubeChannel { name, channel_id: detail }, None),
            ),
            Platform::Manga => self.manga.0.push((Manga { name, id: detail }, None)),
            Platform::Anime => self.anime.0.push((Anime { name, id: detail }, None)),
        }
    }

    /// The lines that show the items of `platform`, one for each item.
    pub open spec fn listed(self, platform: Platform, tty: bool) -> Seq<Seq<(Seq<char>, Tint)>> {
        match platform {
            Platform::Rss => item_lines(platform, self.rss.0@, tty),
            Platform::Bandcamp => item_lines(platform, self.bandcamp.0@, tty),
            Platform::YouTube => item_lines(platform, self.youtube.channels@, tty),
            Platform::Manga => item_lines(platform, self.manga.0@, tty),
            Platform::Anime => item_lines(platform, self.anime.0@, tty),
        }
    }

    /// The lines that show the items of `platform`, with colours where the
    /// standard output is a terminal. Whether it is one depends on how the
    /// program was started, so the contract leaves that open.
    pub fn show_listing(&self, platform: Platform) -> (lines: Vec<Vec<Span>>)
        ensures
            exists|tty: bool| line_views(lines@) == #[trigger] self.listed(platform, tty),
    {
        self.listing(platform, is_terminal(Output::Stdout))
    }

    /// The lines that show the items of `platform`, one for each item.
    pub fn listing(&self, platform: Platform, tty: bool) -> (lines: Vec<Vec<Span>>)
        ensures
            line_views(lines@) == self.listed(platform, tty),
    {
        match platform {
            Platform::Rss => list_items(platform, &self.rss.0, tty),
            Platform::Bandcamp => list_items(platform, &self.bandcamp.0, tty),
            Platform::YouTube => list_items(platform, &self.youtube.channels, tty),
            Platform::Manga => list_items(platform, &self.manga.0, tty),
            Platform::Anime => list_items(platform, &self.anime.0, tty),
        }
    }

    /// Starts the next run from `since_time` where the caller names one, and
    /// from the checkpoint that is on record where not.
    pub fn override_checkpoint(&mut self, since_time: Option<Timestamp>)
        ensures
            *final(self) == old(self).since(since_time),
    {
        if since_time.is_some() {
            self.last_checked = since_time;
        }
    }

    /// The checkpoints from which the items are to be checked in a run.
    pub fn plan(&self) -> (plan: Plan)
        ensures
            plan.rss@ == planned(self.rss.ready(), self.rss.entries(), self.last_checked),
            plan.youtube@ == planned(
                self.youtube.ready(),
                self.youtube.entries(),
                self.last_checked,
            ),
            plan.anime@ == planned(self.anime.ready(), self.anime.entries(), self.last_checked),
            plan.manga@ == planned(self.manga.ready(), self.manga.entries(), self.last_checked),
            plan.bandcamp@ == planned(
                self.bandcamp.ready(),
                self.bandcamp.entries(),
                self.last_checked,
            ),
    {
        Plan {
            rss: self.rss.plan(&self.last_checked),
            youtube: self.youtube.plan(&self.last_checked),
            anime: self.anime.plan(&self.last_checked),
            manga: self.manga.plan(&self.last_checked),
            bandcamp: self.bandcamp.plan(&self.last_checked),
        }
    }

    /// Ends a run whose checks gave `outcomes` and which finished at `now`.
    ///
    /// * `quiet` - whether to simplify the output and suppress errors.
    /// * `notify` - whether to output updates and errors as notifications.
    ///              This overrides `quiet`.
    ///
    /// Every platform records the outcomes of its items. The report holds
    /// what the run tells of the results, platform by platform. The
    /// checkpoint of the run moves to `now` where any check found an update,
    /// and stays where none did.
    pub fn check_for_updates(&mut self, quiet: bool, notify: bool, outcomes: Outcomes, now: Timestamp) -> (report: Report)
        ensures
            old(self).same_items(*final(self)),
            final(self).rss.entries() == entries_after(
                old(self).rss.ready(),
                old(self).rss.entries(),
                old(self).last_checked,
                checked_views(outcomes.rss@),
            ),
            final(self).youtube.entries() == entries_after(
                old(self).youtube.ready(),
                old(self).youtube.entries(),
                old(self).last_checked,
                checked_views(outcomes.youtube@),
            ),
            final(self).anime.entries() == entries_after(
                old(self).anime.ready(),
                old(self).anime.entries(),
                old(self).last_checked,
                checked_views(outcomes.anime@),
            ),
            final(self).manga.entries() == entries_after(
                old(self).manga.ready(),
                old(self).manga.entries(),
                old(self).last_checked,
                checked_views(outcomes.manga@),
            ),
            final(self).bandcamp.entries() == entries_after(
                old(self).bandcamp.ready(),
                old(self).bandcamp.entries(),
                old(self).last_checked,
                checked_views(outcomes.bandcamp@),
            ),
            report.mode == mode_of(quiet, notify),
            event_views(report.events@) == run_events(
                old(self).results_of(outcomes),
                old(self).last_checked,
                mode_of(quiet, notify),
            ),
            report.update_occurred == any_update(old(self).results_of(outcomes)),
            final(self).last_checked == if any_update(old(self).results_of(outcomes)) {
                Some(now)
            } else {
                old(self).last_checked
            },
    {
        let since = self.last_checked;
        let Outcomes { rss, youtube, anime, manga, bandcamp } = outcomes;
        let mut results = self.rss.check_for_all_updates(&since, rss);
        let ghost first = result_views(results@);
        let mut more = self.youtube.check_for_all_updates(&since, youtube);
        let ghost second = result_views(more@);
        results.append(&mut more);
        let mut more = self.anime.check_for_all_updates(&since, anime);
        let ghost third = result_views(more@);
        results.append(&mut more);
        let mut more = self.manga.check_for_all_updates(&since, manga);
        let ghost fourth = result_views(more@);
        results.append(&mut more);
        let mut more = self.bandcamp.check_for_all_updates(&since, bandcamp);
        let ghost fifth = result_views(more@);
        results.append(&mut more);
        proof {
            assert(result_views(results@) =~= first + second + third + fourth + fifth);
        }
        let report = aggregate(&results, &since, mode(quiet, notify));
        if report.update_occurred {
            self.last_checked = Some(now);
        }
        report
    }
}

} // verus!
