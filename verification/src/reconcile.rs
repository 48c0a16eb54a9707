//! The checkpoint policy: since when an item is checked, and what is
//! recorded for it once the check has finished.

use crate::time::Timestamp;
use vstd::prelude::*;

verus! {

/// The checkpoint that a check starts from: the earlier of the run's
/// checkpoint and the item's own where both are present, the one that is
/// present where only one is, and none, the beginning of time, where neither is.
pub open spec fn effective(global: Option<Timestamp>, own: Option<Timestamp>) -> Option<Timestamp> {
    match (global, own) {
        (Some(g), Some(o)) => Some(
            if o.before(g) {
                o
            } else {
                g
            },
        ),
        (Some(g), None) => Some(g),
        (None, _) => own,
    }
}

/// The item's checkpoint once its check has finished: the time of the check
/// where the check found an update; else the run's checkpoint where the item
/// had none of its own; else the item's own, unchanged.
pub open spec fn recorded(
    own: Option<Timestamp>,
    global: Option<Timestamp>,
    found: bool,
    checked_at: Timestamp,
) -> Option<Timestamp> {
    if found {
        Some(checked_at)
    } else if own is None {
        global
    } else {
        own
    }
}

/// Whether checkpoint `earlier` does not lie after checkpoint `later`, where
/// no checkpoint stands for the beginning of time.
pub open spec fn not_after(earlier: Option<Timestamp>, later: Option<Timestamp>) -> bool {
    match (earlier, later) {
        (None, _) => true,
        (Some(_), None) => false,
        (Some(e), Some(l)) => e.at_or_before(l),
    }
}

/// The checkpoint that a check of an item starts from.
pub fn effective_checkpoint(global: &Option<Timestamp>, own: &Option<Timestamp>) -> (since: Option<
    Timestamp,
>)
    ensures
        since == effective(*global, *own),
{
    match (global, own) {
        (Some(g), Some(o)) => {
            if o.is_before(g) {
                Some(*o)
            } else {
                Some(*g)
            }
        },
        (Some(g), None) => Some(*g),
        (None, _) => *own,
    }
}

/// The checkpoint of an item after a check that finished at `checked_at`
/// and that found an update or did not.
pub fn next_checkpoint(
    own: &Option<Timestamp>,
    global: &Option<Timestamp>,
    found: bool,
    checked_at: Timestamp,
) -> (next: Option<Timestamp>)
    ensures
        next == recorded(*own, *global, found, checked_at),
{
    if found {
        Some(checked_at)
    } else if own.is_none() {
        *global
    } else {
        *own
    }
}

/// The checkpoint that a check starts from is one of the two it is derived
/// from, and lies after neither of those that are present; with neither
/// present there is none.
pub proof fn lemma_effective_is_earliest(global: Option<Timestamp>, own: Option<Timestamp>)
    ensures
        effective(global, own) == global || effective(global, own) == own,
        global is Some ==> not_after(effective(global, own), global),
        own is Some ==> not_after(effective(global, own), own),
        effective(global, own) is None <==> global is None && own is None,
{
}

/// A check never moves an item's checkpoint back, provided that a check which
/// found an update did not finish before the checkpoint the item already had.
pub proof fn lemma_checkpoint_never_regresses(
    own: Option<Timestamp>,
    global: Option<Timestamp>,
    found: bool,
    checked_at: Timestamp,
)
    requires
        found ==> not_after(own, Some(checked_at)),
    ensures
        not_after(own, recorded(own, global, found, checked_at)),
{
}

/// An item that was never checked takes over the run's checkpoint when its
/// check finds nothing.
pub proof fn lemma_unchecked_item_takes_run_checkpoint(global: Option<Timestamp>, checked_at: Timestamp)
    ensures
        recorded(None, global, false, checked_at) == global,
{
}

/// A check that found an update moves the checkpoint to the time of the
/// check, whatever the checkpoints were before.
pub proof fn lemma_update_advances_to_check_time(
    own: Option<Timestamp>,
    global: Option<Timestamp>,
    checked_at: Timestamp,
)
    ensures
        recorded(own, global, true, checked_at) == Some(checked_at),
{
}

} // verus!
