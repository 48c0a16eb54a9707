//! The life of a run: the phases it goes through, and the notifications
//! that it waits for before it may end.

use vstd::prelude::*;

verus! {

/// The phases of a run, in their order.
#[derive(Clone, Copy, Debug, PartialEq, Eq, Structural)]
pub enum Phase {
    /// Nothing has happened yet.
    Idle,
    /// The checks are under way.
    FanOut,
    /// The results of the checks are being gone through.
    Aggregating,
    /// Notifications are out that the user has not answered yet.
    NotifyingAndWaiting,
    /// What the run found is being put on record.
    CheckpointAdvance,
    /// The run is over.
    Done,
}

/// What happens in the course of a run.
#[derive(Clone, Copy, Debug, PartialEq, Eq, Structural)]
pub enum Occurrence {
    /// The checks were started.
    Started,
    /// The last check has finished.
    Collected,
    /// The results were gone through, and so many notifications were sent
    /// that the run has to wait for.
    Aggregated { notifications: usize },
    /// The user answered or dismissed a notification.
    Acknowledged,
    /// What the run found was put on record.
    Recorded,
}

/// A run: the phase it is in, how many notifications it sent that it has to
/// wait for, and how many of them the user answered or dismissed.
#[derive(Clone, Copy, Debug)]
pub struct Run {
    phase: Phase,
    sent: usize,
    acknowledged: usize,
}

/// A run as the contracts speak of it.
pub struct RunView {
    pub phase: Phase,
    pub sent: nat,
    pub acknowledged: nat,
}

impl RunView {
    /// A run before anything has happened.
    pub open spec fn fresh() -> RunView {
        RunView { phase: Phase::Idle, sent: 0, acknowledged: 0 }
    }

    /// Whether the run is in a state that a run can get into: it waits only
    /// while notifications are unanswered, and is beyond waiting only once
    /// all are answered.
    pub open spec fn consistent(self) -> bool {
        &&& self.acknowledged <= self.sent
        &&& match self.phase {
            Phase::Idle | Phase::FanOut | Phase::Aggregating => self.sent == 0,
            Phase::NotifyingAndWaiting => self.acknowledged < self.sent,
            Phase::CheckpointAdvance | Phase::Done => self.acknowledged == self.sent,
        }
    }

    /// Whether the occurrence is in order in the phase that the run is in.
    pub open spec fn accepts(self, occurrence: Occurrence) -> bool {
        match (self.phase, occurrence) {
            (Phase::Idle, Occurrence::Started) => true,
            (Phase::FanOut, Occurrence::Collected) => true,
            (Phase::Aggregating, Occurrence::Aggregated { .. }) => true,
            (Phase::NotifyingAndWaiting, Occurrence::Acknowledged) => true,
            (Phase::CheckpointAdvance, Occurrence::Recorded) => true,
            _ => false,
        }
    }

    /// The run after the occurrence. One that is out of order leaves the run
    /// as it is. A run that sent no notification to wait for goes on to
    /// record what it found at once; one that sent some waits until the
    /// last of them is answered.
    pub open spec fn after(self, occurrence: Occurrence) -> RunView {
        match (self.phase, occurrence) {
            (Phase::Idle, Occurrence::Started) => RunView { phase: Phase::FanOut, ..self },
            (Phase::FanOut, Occurrence::Collected) => RunView { phase: Phase::Aggregating, ..self },
            (Phase::Aggregating, Occurrence::Aggregated { notifications }) => RunView {
                phase: if notifications > 0 {
                    Phase::NotifyingAndWaiting
                } else {
                    Phase::CheckpointAdvance
                },
                sent: notifications as nat,
                acknowledged: 0,
            },
            (Phase::NotifyingAndWaiting, Occurrence::Acknowledged) => RunView {
                phase: if self.acknowledged + 1 >= self.sent {
                    Phase::CheckpointAdvance
                } else {
                    Phase::NotifyingAndWaiting
                },
                acknowledged: self.acknowledged + 1,
                ..self
            },
            (Phase::CheckpointAdvance, Occurrence::Recorded) => RunView {
                phase: Phase::Done,
                ..self
            },
            _ => self,
        }
    }

    /// The run after the occurrences, one after the other.
    pub open spec fn after_all(self, occurrences: Seq<Occurrence>) -> RunView
        decreases occurrences.len(),
    {
        if occurrences.len() == 0 {
            self
        } else {
            self.after_all(occurrences.drop_last()).after(occurrences.last())
        }
    }
}

impl View for Run {
    type V = RunView;

    closed spec fn view(&self) -> RunView {
        RunView {
            phase: self.phase,
            sent: self.sent as nat,
            acknowledged: self.acknowledged as nat,
        }
    }
}

impl Run {
    #[verifier::type_invariant]
    spec fn inv(self) -> bool {
        self@.consistent()
    }

    /// A run before anything has happened.
    pub fn new() -> (run: Run)
        ensures
            run@ == RunView::fresh(),
    {
        Run { phase: Phase::Idle, sent: 0, acknowledged: 0 }
    }

    /// Takes note of what happened. The result tells whether that was in
    /// order in the phase the run was in; if not, the run stays as it was.
    pub fn record(&mut self, occurrence: Occurrence) -> (accepted: bool)
        ensures
            accepted == old(self)@.accepts(occurrence),
            final(self)@ == old(self)@.after(occurrence),
    {
        proof {
            use_type_invariant(&*self);
        }
        match (self.phase, occurrence) {
            (Phase::Idle, Occurrence::Started) => {
                *self = Run { phase: Phase::FanOut, sent: self.sent, acknowledged: self.acknowledged };
                true
            },
            (Phase::FanOut, Occurrence::Collected) => {
                *self = Run {
                    phase: Phase::Aggregating,
                    sent: self.sent,
                    acknowledged: self.acknowledged,
                };
                true
            },
            (Phase::Aggregating, Occurrence::Aggregated { notifications }) => {
                let phase = if notifications > 0 {
                    Phase::NotifyingAndWaiting
                } else {
                    Phase::CheckpointAdvance
                };
                *self = Run { phase, sent: notifications, acknowledged: 0 };
                true
            },
            (Phase::NotifyingAndWaiting, Occurrence::Acknowledged) => {
                let acknowledged = self.acknowledged + 1;
                let phase = if acknowledged >= self.sent {
                    Phase::CheckpointAdvance
                } else {
                    Phase::NotifyingAndWaiting
                };
                *self = Run { phase, sent: self.sent, acknowledged };
                true
            },
            (Phase::CheckpointAdvance, Occurrence::Recorded) => {
                *self = Run { phase: Phase::Done, sent: self.sent, acknowledged: self.acknowledged };
                true
            },
            _ => false,
        }
    }

    /// The phase that the run is in.
    pub fn phase(&self) -> (phase: Phase)
        ensures
            phase == self@.phase,
    {
        self.phase
    }

    /// How many notifications the user has yet to answer or dismiss.
    pub fn outstanding(&self) -> (count: usize)
        ensures
            count == self@.sent - self@.acknowledged,
    {
        proof {
            use_type_invariant(self);
        }
        self.sent - self.acknowledged
    }

    /// Whether the run is over.
    pub fn is_done(&self) -> (done: bool)
        ensures
            done == (self@.phase == Phase::Done),
    {
        self.phase == Phase::Done
    }
}

/// Whatever happens to a run, in whatever order, it stays in a state that a
/// run can get into.
pub proof fn lemma_run_stays_consistent(run: RunView, occurrences: Seq<Occurrence>)
    requires
        run.consistent(),
    ensures
        run.after_all(occurrences).consistent(),
    decreases occurrences.len(),
{
    if occurrences.len() > 0 {
        lemma_run_stays_consistent(run, occurrences.drop_last());
    }
}

/// A run is not over, nor recording what it found, before every
/// notification that it sent and has to wait for is answered or dismissed:
/// whatever happens to a fresh run, once it is in one of these phases the
/// acknowledgements are as many as the notifications.
pub proof fn lemma_run_ends_only_after_every_acknowledgement(occurrences: Seq<Occurrence>)
    ensures
        ({
            let run = RunView::fresh().after_all(occurrences);
            run.phase == Phase::Done || run.phase == Phase::CheckpointAdvance ==> run.acknowledged
                == run.sent
        }),
{
    lemma_run_stays_consistent(RunView::fresh(), occurrences);
}

/// A run that waits for notifications stays waiting, whatever else happens,
/// while fewer acknowledgements have come in than notifications were sent.
pub proof fn lemma_waiting_run_keeps_waiting(run: RunView, occurrence: Occurrence)
    requires
        run.consistent(),
        run.phase == Phase::NotifyingAndWaiting,
    ensures
        occurrence != Occurrence::Acknowledged ==> run.after(occurrence) == run,
        occurrence == Occurrence::Acknowledged && run.acknowledged + 1 < run.sent ==> run.after(
            occurrence,
        ).phase == Phase::NotifyingAndWaiting,
        run.after(occurrence).phase != Phase::Done,
{
}

} // verus!
