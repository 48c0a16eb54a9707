//! What a run has to tell: the events that the results of the checks give
//! rise to, in the order in which they are shown.

use crate::sources::{
    covered, found, result_views, tagged, CheckError, CheckResult, CheckResultView, CheckedView,
    ErrorKind,
};
use crate::time::Timestamp;
use crate::update::{ascending, SourceUpdate, UpdateView};
use vstd::prelude::*;

verus! {

/// How a run tells what it found.
#[derive(Clone, Copy, Debug, PartialEq, Eq, Structural)]
pub enum Mode {
    /// A line for each source with updates, and the errors at the end.
    Verbose,
    /// A short line for each source with updates, and no errors.
    Quiet,
    /// A notification for each source with updates and for each error.
    Notify,
}

/// Something that a run has to tell.
#[derive(Debug, PartialEq, Eq)]
pub enum Event {
    /// Updates follow, found since the given checkpoint of the run.
    Heading(Option<Timestamp>),
    /// A source has updates: how many, and the first of them.
    Found { platform: String, source: String, count: usize, earliest: SourceUpdate, seconds: u64 },
    /// The check of a source failed.
    Failed { platform: String, source: String, error: CheckError, seconds: u64 },
    /// No source has an update.
    NoUpdates,
    /// The failures of the run follow.
    ErrorsHeading,
}

/// An event as the contracts speak of it.
pub enum EventView {
    Heading(Option<Timestamp>),
    Found { platform: Seq<char>, source: Seq<char>, count: nat, earliest: UpdateView, seconds: u64 },
    Failed { platform: Seq<char>, source: Seq<char>, error: (ErrorKind, Seq<char>), seconds: u64 },
    NoUpdates,
    ErrorsHeading,
}

impl View for Event {
    type V = EventView;

    open spec fn view(&self) -> EventView {
        match *self {
            Event::Heading(since) => EventView::Heading(since),
            Event::Found { platform, source, count, earliest, seconds } => EventView::Found {
                platform: platform@,
                source: source@,
                count: count as nat,
                earliest: earliest@,
                seconds,
            },
            Event::Failed { platform, source, error, seconds } => EventView::Failed {
                platform: platform@,
                source: source@,
                error: error@,
                seconds,
            },
            Event::NoUpdates => EventView::NoUpdates,
            Event::ErrorsHeading => EventView::ErrorsHeading,
        }
    }
}

/// What a run has to tell, in the order in which it is told, and whether any
/// check found an update.
#[derive(Debug, PartialEq, Eq)]
pub struct Report {
    pub mode: Mode,
    pub events: Vec<Event>,
    pub update_occurred: bool,
}

impl Report {
    /// How many notifications the run has to wait for: in a run that
    /// notifies, one for each source with updates, and none in any other.
    pub open spec fn spec_notifications(self) -> nat {
        if self.mode == Mode::Notify {
            count_found_events(event_views(self.events@))
        } else {
            0
        }
    }

    /// How many notifications the run has to wait for.
    pub fn notifications(&self) -> (count: usize)
        ensures
            count == self.spec_notifications(),
    {
        let mut count: usize = 0;
        let mut i: usize = 0;
        let ghost views = event_views(self.events@);
        while i < self.events.len()
            invariant
                i <= self.events.len(),
                views == event_views(self.events@),
                count == count_found_events(views.take(i as int)),
                count <= i,
            decreases self.events.len() - i,
        {
            proof {
                assert(views.take(i + 1).drop_last() =~= views.take(i as int));
            }
            match &self.events[i] {
                Event::Found { .. } => {
                    count += 1;
                },
                _ => {},
            }
            i += 1;
        }
        proof {
            assert(views.take(i as int) =~= views);
        }
        match self.mode {
            Mode::Notify => count,
            _ => 0,
        }
    }
}

/// The events of a list, each as the contracts speak of it.
pub open spec fn event_views(events: Seq<Event>) -> Seq<EventView> {
    Seq::new(events.len(), |i: int| events[i]@)
}

/// The mode of a run that was asked to be quiet, to notify, or both or
/// neither: to notify overrides to be quiet.
pub open spec fn mode_of(quiet: bool, notify: bool) -> Mode {
    if notify {
        Mode::Notify
    } else if quiet {
        Mode::Quiet
    } else {
        Mode::Verbose
    }
}

/// Whether any of the results holds an update.
pub open spec fn any_update(results: Seq<CheckResultView>) -> bool {
    exists|i: int| 0 <= i < results.len() && found(#[trigger] results[i].result)
}

/// The event that tells of the updates of a result that has some.
pub open spec fn found_event(result: CheckResultView) -> EventView {
    EventView::Found {
        platform: result.platform,
        source: result.source,
        count: result.result->Ok_0.len(),
        earliest: result.result->Ok_0[0],
        seconds: result.seconds,
    }
}

/// The event that tells of the failure of a result that is one.
pub open spec fn failed_event(result: CheckResultView) -> EventView {
    EventView::Failed {
        platform: result.platform,
        source: result.source,
        error: result.result->Err_0,
        seconds: result.seconds,
    }
}

/// What one result gives rise to as soon as it is there. A result with
/// updates is told of, in verbose mode behind a heading if it is the first
/// such result; a result without updates is passed over; a failure is told
/// of at once only where the run notifies.
pub open spec fn events_for(
    result: CheckResultView,
    first: bool,
    since: Option<Timestamp>,
    mode: Mode,
) -> Seq<EventView> {
    match result.result {
        Ok(updates) => if updates.len() > 0 {
            if first && mode == Mode::Verbose {
                seq![EventView::Heading(since), found_event(result)]
            } else {
                seq![found_event(result)]
            }
        } else {
            Seq::empty()
        },
        Err(_) => if mode == Mode::Notify {
            seq![failed_event(result)]
        } else {
            Seq::empty()
        },
    }
}

/// What the results give rise to one by one, in their order.
pub open spec fn live_events(results: Seq<CheckResultView>, since: Option<Timestamp>, mode: Mode) -> Seq<
    EventView,
>
    decreases results.len(),
{
    if results.len() == 0 {
        Seq::empty()
    } else {
        live_events(results.drop_last(), since, mode) + events_for(
            results.last(),
            !any_update(results.drop_last()),
            since,
            mode,
        )
    }
}

/// The failures among the results, in their order.
pub open spec fn failures(results: Seq<CheckResultView>) -> Seq<EventView>
    decreases results.len(),
{
    if results.len() == 0 {
        Seq::empty()
    } else if results.last().result is Err {
        failures(results.drop_last()).push(failed_event(results.last()))
    } else {
        failures(results.drop_last())
    }
}

/// What is told once all results are in, which is something in verbose mode
/// only: that there are no updates, where there are none, and the failures
/// behind a heading, where there are any.
pub open spec fn closing_events(results: Seq<CheckResultView>, mode: Mode) -> Seq<EventView> {
    if mode == Mode::Verbose {
        (if any_update(results) {
            Seq::empty()
        } else {
            seq![EventView::NoUpdates]
        }) + (if failures(results).len() > 0 {
            seq![EventView::ErrorsHeading] + failures(results)
        } else {
            Seq::empty()
        })
    } else {
        Seq::empty()
    }
}

/// All that a run with the given results tells, in order.
pub open spec fn run_events(results: Seq<CheckResultView>, since: Option<Timestamp>, mode: Mode) -> Seq<
    EventView,
> {
    live_events(results, since, mode) + closing_events(results, mode)
}

/// How many of the results hold an update.
pub open spec fn count_found(results: Seq<CheckResultView>) -> nat
    decreases results.len(),
{
    if results.len() == 0 {
        0
    } else {
        count_found(results.drop_last()) + if found(results.last().result) {
            1nat
        } else {
            0nat
        }
    }
}

/// How many of the events tell of a source with updates.
pub open spec fn count_found_events(events: Seq<EventView>) -> nat
    decreases events.len(),
{
    if events.len() == 0 {
        0
    } else {
        count_found_events(events.drop_last()) + if events.last() is Found {
            1nat
        } else {
            0nat
        }
    }
}

/// The mode of a run that was asked to be quiet, to notify, or both or neither.
pub fn mode(quiet: bool, notify: bool) -> (mode: Mode)
    ensures
        mode == mode_of(quiet, notify),
{
    if notify {
        Mode::Notify
    } else if quiet {
        Mode::Quiet
    } else {
        Mode::Verbose
    }
}

/// What a run with the given results tells: see `run_events`. The report
/// also says whether any check found an update.
pub fn aggregate(results: &Vec<CheckResult>, since: &Option<Timestamp>, mode: Mode) -> (report:
    Report)
    ensures
        report.mode == mode,
        event_views(report.events@) == run_events(result_views(results@), *since, mode),
        report.update_occurred == any_update(result_views(results@)),
{
    let ghost views = result_views(results@);
    let mut events: Vec<Event> = Vec::new();
    let mut failed: Vec<Event> = Vec::new();
    let mut seen = false;
    let mut i: usize = 0;
    while i < results.len()
        invariant
            i <= results.len(),
            views == result_views(results@),
            event_views(events@) == live_events(views.take(i as int), *since, mode),
            mode != Mode::Notify ==> event_views(failed@) == failures(views.take(i as int)),
            seen == any_update(views.take(i as int)),
        decreases results.len() - i,
    {
        let result = &results[i];
        proof {
            assert(views.take(i + 1).drop_last() =~= views.take(i as int));
        }
        match &result.result {
            Ok(updates) => {
                if updates.len() > 0 {
                    if !seen && mode == Mode::Verbose {
                        events.push(Event::Heading(*since));
                    }
                    events.push(
                        Event::Found {
                            platform: result.platform.clone(),
                            source: result.source.clone(),
                            count: updates.len(),
                            earliest: updates[0].clone(),
                            seconds: result.seconds,
                        },
                    );
                    seen = true;
                }
            },
            Err(error) => {
                let event = Event::Failed {
                    platform: result.platform.clone(),
                    source: result.source.clone(),
                    error: error.clone(),
                    seconds: result.seconds,
                };
                if mode == Mode::Notify {
                    events.push(event);
                } else {
                    failed.push(event);
                }
            },
        }
        i += 1;
    }
    proof {
        assert(views.take(i as int) =~= views);
    }
    if mode == Mode::Verbose {
        if !seen {
            events.push(Event::NoUpdates);
        }
        if failed.len() > 0 {
            events.push(Event::ErrorsHeading);
            events.append(&mut failed);
        }
    }
    Report { mode, events, update_occurred: seen }
}

/// The events of two lists that tell of sources with updates are as many as
/// those of the one list and those of the other together.
proof fn lemma_count_found_events_adds(first: Seq<EventView>, second: Seq<EventView>)
    ensures
        count_found_events(first + second) == count_found_events(first) + count_found_events(
            second,
        ),
    decreases second.len(),
{
    if second.len() > 0 {
        lemma_count_found_events_adds(first, second.drop_last());
        assert((first + second).drop_last() =~= first + second.drop_last());
    }
}

/// No failure tells of a source with updates.
proof fn lemma_failures_tell_no_update(results: Seq<CheckResultView>)
    ensures
        count_found_events(failures(results)) == 0,
    decreases results.len(),
{
    if results.len() > 0 {
        lemma_failures_tell_no_update(results.drop_last());
        if results.last().result is Err {
            let kept = failures(results.drop_last());
            let added = kept.push(failed_event(results.last()));
            assert(added.drop_last() =~= kept);
        }
    }
}

/// A run tells of as many sources with updates as there are results that
/// hold an update, in every mode. In a run that notifies these are the
/// notifications that the run has to wait for.
pub proof fn lemma_one_event_for_each_source_with_updates(
    results: Seq<CheckResultView>,
    since: Option<Timestamp>,
    mode: Mode,
)
    ensures
        count_found_events(live_events(results, since, mode)) == count_found(results),
        count_found_events(run_events(results, since, mode)) == count_found(results),
    decreases results.len(),
{
    reveal_with_fuel(count_found_events, 3);
    if results.len() > 0 {
        let shorter = results.drop_last();
        lemma_one_event_for_each_source_with_updates(shorter, since, mode);
        let step = events_for(results.last(), !any_update(shorter), since, mode);
        lemma_count_found_events_adds(live_events(shorter, since, mode), step);
    }
    let closing = closing_events(results, mode);
    lemma_count_found_events_adds(live_events(results, since, mode), closing);
    lemma_failures_tell_no_update(results);
    if mode == Mode::Verbose {
        let gone = if any_update(results) {
            Seq::<EventView>::empty()
        } else {
            seq![EventView::NoUpdates]
        };
        let kept = if failures(results).len() > 0 {
            seq![EventView::ErrorsHeading] + failures(results)
        } else {
            Seq::<EventView>::empty()
        };
        lemma_count_found_events_adds(gone, kept);
        lemma_count_found_events_adds(seq![EventView::ErrorsHeading], failures(results));
    }
}

/// Whatever else the results of a run hold, failures among them or not, the
/// run tells of every source whose check found an update.
pub proof fn lemma_every_update_is_told(
    results: Seq<CheckResultView>,
    since: Option<Timestamp>,
    mode: Mode,
    k: int,
)
    requires
        0 <= k < results.len(),
        found(results[k].result),
    ensures
        live_events(results, since, mode).contains(found_event(results[k])),
        run_events(results, since, mode).contains(found_event(results[k])),
    decreases results.len(),
{
    let shorter = results.drop_last();
    let earlier = live_events(shorter, since, mode);
    let step = events_for(results.last(), !any_update(shorter), since, mode);
    let event = found_event(results[k]);
    if k == results.len() - 1 {
        assert((earlier + step)[earlier.len() + step.len() - 1] == event);
    } else {
        lemma_every_update_is_told(shorter, since, mode, k);
        let at = choose|i: int| 0 <= i < earlier.len() && earlier[i] == event;
        assert((earlier + step)[at] == event);
    }
    let live = live_events(results, since, mode);
    let at = choose|i: int| 0 <= i < live.len() && live[i] == event;
    assert((live + closing_events(results, mode))[at] == event);
}

/// A run in verbose mode says that there are no updates if and only if no
/// check found one.
pub proof fn lemma_no_updates_is_told(results: Seq<CheckResultView>, since: Option<Timestamp>)
    ensures
        run_events(results, since, Mode::Verbose).contains(EventView::NoUpdates) <==> !any_update(
            results,
        ),
{
    let live = live_events(results, since, Mode::Verbose);
    let all = run_events(results, since, Mode::Verbose);
    lemma_live_events_are_of_results(results, since, Mode::Verbose);
    lemma_failures_are_failures(results);
    if !any_update(results) {
        assert(all[live.len() as int] == EventView::NoUpdates);
    }
    if all.contains(EventView::NoUpdates) {
        let at = choose|i: int| 0 <= i < all.len() && all[i] == EventView::NoUpdates;
    }
}

/// What the results give rise to one by one are headings and accounts of
/// updates and of failures.
proof fn lemma_live_events_are_of_results(
    results: Seq<CheckResultView>,
    since: Option<Timestamp>,
    mode: Mode,
)
    ensures
        forall|i: int|
            0 <= i < live_events(results, since, mode).len() ==> !(#[trigger] live_events(
                results,
                since,
                mode,
            )[i] is NoUpdates),
    decreases results.len(),
{
    if results.len() > 0 {
        let shorter = results.drop_last();
        lemma_live_events_are_of_results(shorter, since, mode);
    }
}

/// The failures among the results are told as failures.
proof fn lemma_failures_are_failures(results: Seq<CheckResultView>)
    ensures
        forall|i: int|
            0 <= i < failures(results).len() ==> #[trigger] failures(results)[i] is Failed,
    decreases results.len(),
{
    if results.len() > 0 {
        lemma_failures_are_failures(results.drop_last());
    }
}

/// Where the updates of a result are in order of publication, the update
/// that the run tells of is the earliest of them.
pub proof fn lemma_the_update_told_is_the_earliest(result: CheckResultView)
    requires
        found(result.result),
        ascending(result.result->Ok_0),
    ensures
        found_event(result) matches EventView::Found { count, earliest, .. } && count
            == result.result->Ok_0.len() && forall|j: int|
            0 <= j < result.result->Ok_0.len() ==> earliest.published_date.at_or_before(
                (#[trigger] result.result->Ok_0[j]).published_date,
            ),
{
}

/// A failure among the results of a run keeps no item from being told of:
/// wherever in the results of a run those of a platform stand, and whatever
/// stands before and behind them, the run tells of every item of the
/// platform whose check found an update.
pub proof fn lemma_item_with_update_is_told(
    before: Seq<CheckResultView>,
    platform: Seq<char>,
    ready: bool,
    entries: Seq<(Seq<char>, Option<Timestamp>)>,
    outcomes: Seq<CheckedView>,
    behind: Seq<CheckResultView>,
    since: Option<Timestamp>,
    mode: Mode,
    i: int,
)
    requires
        0 <= i < covered(ready, entries.len(), outcomes.len()),
        found(outcomes[i].result),
    ensures
        run_events(
            before + tagged(platform, ready, entries, outcomes) + behind,
            since,
            mode,
        ).contains(
            found_event(
                CheckResultView {
                    platform,
                    source: entries[i].0,
                    result: outcomes[i].result,
                    seconds: outcomes[i].seconds,
                },
            ),
        ),
{
    let results = before + tagged(platform, ready, entries, outcomes) + behind;
    assert(results[before.len() + i] == tagged(platform, ready, entries, outcomes)[i]);
    lemma_every_update_is_told(results, since, mode, before.len() + i);
}

} // verus!
