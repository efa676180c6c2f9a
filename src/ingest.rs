//! The ingestion stage: one record at a time from the queue, a flush of the
//! accumulated state every `threshold` records.
use vstd::prelude::*;

use crate::gate::{GateState, PhaseGate};
use crate::Outcome;

verus! {

/// What the ingestion stage is waiting for.
#[derive(Clone, Copy, Debug, PartialEq, Eq, Structural)]
pub enum IngestPhase {
    /// Not started yet.
    Idle,
    /// The queue's consumption offset is being reset.
    Resetting,
    /// Sleeping one backoff interval because the phase lock refused work.
    BackingOff,
    /// Inside the phase lock, one record is being consumed.
    Consuming,
    /// Inside the phase lock, the accumulated state is being written.
    Flushing,
    /// Out of the phase lock, yielding to the scheduler.
    Yielding,
    /// Disabled: the stage is over.
    Finished,
    /// The startup offset reset failed: the stage is over.
    Aborted,
}

/// What the runtime must do next for the ingestion stage.
#[derive(Clone, Copy, Debug, PartialEq, Eq, Structural)]
pub enum IngestAction {
    /// Reset the queue's consumption offset.
    ResetOffset,
    /// Sleep one backoff interval.
    Backoff,
    /// Consume one record from the queue and hand it to the import collaborator.
    Consume,
    /// Recompute the derived edges and write the accumulated state with them.
    Flush,
    /// Yield briefly to the scheduler.
    Yield,
    /// Complete the stage without error.
    Finish,
    /// Complete the stage with a fault.
    Abort,
}

/// Abstract state of an [`IngestionStage`].
pub struct IngestState {
    pub enabled: bool,
    pub reset_offset: bool,
    pub threshold: nat,
    /// Records consumed since the last flush.
    pub count: nat,
    pub phase: IngestPhase,
    /// Records consumed since the stage started.
    pub consumed: nat,
    /// Flushes handed out since the stage started.
    pub flushes: nat,
}

impl IngestState {
    pub open spec fn initial(enabled: bool, reset_offset: bool, threshold: nat) -> IngestState {
        IngestState {
            enabled,
            reset_offset,
            threshold,
            count: 0,
            phase: IngestPhase::Idle,
            consumed: 0,
            flushes: 0,
        }
    }

    /// The stage is inside the phase lock.
    pub open spec fn working(self) -> bool {
        self.phase == IngestPhase::Consuming || self.phase == IngestPhase::Flushing
    }

    pub open spec fn wf(self) -> bool {
        &&& self.threshold > 0
        &&& !self.enabled ==> (self.phase == IngestPhase::Idle || self.phase
            == IngestPhase::Finished)
        &&& self.flushes == self.consumed / self.threshold
        &&& if self.phase == IngestPhase::Flushing {
            &&& self.count == self.threshold
            &&& self.consumed > 0
            &&& self.consumed % self.threshold == 0
        } else {
            self.count == self.consumed % self.threshold
        }
    }

    /// Asks the phase lock for a unit of work.
    pub open spec fn enter(self, g: GateState) -> (IngestState, GateState, IngestAction) {
        if g.admits_work() {
            (IngestState { phase: IngestPhase::Consuming, ..self }, g.begin_work(), IngestAction::Consume)
        } else {
            (IngestState { phase: IngestPhase::BackingOff, ..self }, g, IngestAction::Backoff)
        }
    }

    /// The next state, phase lock and action once the pending action ended with `o`.
    pub open spec fn next(self, g: GateState, o: Outcome) -> (IngestState, GateState, IngestAction) {
        match self.phase {
            IngestPhase::Idle => if !self.enabled {
                (IngestState { phase: IngestPhase::Finished, ..self }, g, IngestAction::Finish)
            } else if self.reset_offset {
                (IngestState { phase: IngestPhase::Resetting, ..self }, g, IngestAction::ResetOffset)
            } else {
                self.enter(g)
            },
            IngestPhase::Resetting => if o == Outcome::Success {
                self.enter(g)
            } else {
                (IngestState { phase: IngestPhase::Aborted, ..self }, g, IngestAction::Abort)
            },
            IngestPhase::BackingOff => self.enter(g),
            IngestPhase::Yielding => self.enter(g),
            IngestPhase::Consuming => if self.count + 1 == self.threshold {
                (
                    IngestState {
                        count: self.count + 1,
                        phase: IngestPhase::Flushing,
                        consumed: self.consumed + 1,
                        flushes: self.flushes + 1,
                        ..self
                    },
                    g,
                    IngestAction::Flush,
                )
            } else {
                (
                    IngestState {
                        count: self.count + 1,
                        phase: IngestPhase::Yielding,
                        consumed: self.consumed + 1,
                        ..self
                    },
                    g.end_work(),
                    IngestAction::Yield,
                )
            },
            IngestPhase::Flushing => (
                IngestState { count: 0, phase: IngestPhase::Yielding, ..self },
                g.end_work(),
                IngestAction::Yield,
            ),
            IngestPhase::Finished => (self, g, IngestAction::Finish),
            IngestPhase::Aborted => (self, g, IngestAction::Abort),
        }
    }
}

/// Decides, record by record, what the ingestion stage does.
pub struct IngestionStage {
    enabled: bool,
    reset_offset: bool,
    threshold: u64,
    count: u64,
    phase: IngestPhase,
    consumed: Ghost<nat>,
    flushes: Ghost<nat>,
}

impl View for IngestionStage {
    type V = IngestState;

    closed spec fn view(&self) -> IngestState {
        IngestState {
            enabled: self.enabled,
            reset_offset: self.reset_offset,
            threshold: self.threshold as nat,
            count: self.count as nat,
            phase: self.phase,
            consumed: self.consumed@,
            flushes: self.flushes@,
        }
    }
}

impl IngestionStage {
    /// A stage that has not started; it flushes every `threshold` records and,
    /// if `reset_offset`, first resets the queue's offset.
    pub fn new(enabled: bool, reset_offset: bool, threshold: u64) -> (s: IngestionStage)
        requires
            threshold > 0,
        ensures
            s@ == IngestState::initial(enabled, reset_offset, threshold as nat),
            s@.wf(),
    {
        IngestionStage {
            enabled,
            reset_offset,
            threshold,
            count: 0,
            phase: IngestPhase::Idle,
            consumed: Ghost(0),
            flushes: Ghost(0),
        }
    }

    pub fn phase(&self) -> (r: IngestPhase)
        ensures
            r == self@.phase,
    {
        self.phase
    }

    /// Records consumed since the last flush.
    pub fn count(&self) -> (r: u64)
        ensures
            r == self@.count,
    {
        self.count
    }

    fn enter(&mut self, gate: &mut PhaseGate) -> (a: IngestAction)
        requires
            old(gate)@.wf(),
            old(gate)@.workers < u64::MAX,
        ensures
            (final(self)@, final(gate)@, a) == old(self)@.enter(old(gate)@),
    {
        if gate.try_begin_work() {
            self.phase = IngestPhase::Consuming;
            IngestAction::Consume
        } else {
            self.phase = IngestPhase::BackingOff;
            IngestAction::Backoff
        }
    }

    /// Takes how the pending action ended and hands out the next one. The
    /// first call starts the stage; its outcome is not read.
    pub fn step(&mut self, gate: &mut PhaseGate, o: Outcome) -> (a: IngestAction)
        requires
            old(self)@.wf(),
            old(gate)@.wf(),
            old(gate)@.workers < u64::MAX,
            old(self)@.working() ==> old(gate)@.workers > 0,
        ensures
            (final(self)@, final(gate)@, a) == old(self)@.next(old(gate)@, o),
            final(self)@.wf(),
    {
        proof {
            lemma_counter_step(self@.consumed, self.threshold as nat);
        }
        match self.phase {
            IngestPhase::Idle => if !self.enabled {
                self.phase = IngestPhase::Finished;
                IngestAction::Finish
            } else if self.reset_offset {
                self.phase = IngestPhase::Resetting;
                IngestAction::ResetOffset
            } else {
                self.enter(gate)
            },
            IngestPhase::Resetting => match o {
                Outcome::Success => self.enter(gate),
                Outcome::Failure => {
                    self.phase = IngestPhase::Aborted;
                    IngestAction::Abort
                },
            },
            IngestPhase::BackingOff => self.enter(gate),
            IngestPhase::Yielding => self.enter(gate),
            IngestPhase::Consuming => {
                self.count = self.count + 1;
                self.consumed = Ghost(self.consumed@ + 1);
                if self.count == self.threshold {
                    self.flushes = Ghost(self.flushes@ + 1);
                    self.phase = IngestPhase::Flushing;
                    IngestAction::Flush
                } else {
                    gate.end_work();
                    self.phase = IngestPhase::Yielding;
                    IngestAction::Yield
                }
            },
            IngestPhase::Flushing => {
                self.count = 0;
                gate.end_work();
                self.phase = IngestPhase::Yielding;
                IngestAction::Yield
            },
            IngestPhase::Finished => IngestAction::Finish,
            IngestPhase::Aborted => IngestAction::Abort,
        }
    }
}

/// One more record moves the counter on by one, or wraps it to a new batch.
pub(crate) proof fn lemma_counter_step(consumed: nat, t: nat)
    requires
        t > 0,
    ensures
        (consumed + 1) % t == 0 ==> consumed % t + 1 == t && (consumed + 1) / t == consumed / t
            + 1,
        (consumed + 1) % t != 0 ==> consumed % t + 1 == (consumed + 1) % t && (consumed + 1) / t
            == consumed / t,
        consumed % t < t,
{
    vstd::arithmetic::div_mod::lemma_fundamental_div_mod(consumed as int, t as int);
    vstd::arithmetic::div_mod::lemma_fundamental_div_mod((consumed + 1) as int, t as int);
    vstd::arithmetic::div_mod::lemma_mod_bound(consumed as int, t as int);
    vstd::arithmetic::div_mod::lemma_mod_bound((consumed + 1) as int, t as int);
    let q = (consumed / t) as int;
    if consumed % t + 1 == t {
        assert((q + 1) * (t as int) == (t as int) * q + (t as int)) by (nonlinear_arith);
        assert((consumed + 1) as int == (q + 1) * (t as int));
        vstd::arithmetic::div_mod::lemma_fundamental_div_mod_converse(
            (consumed + 1) as int,
            t as int,
            q + 1,
            0,
        );
    } else {
        assert(q * (t as int) == (t as int) * q) by (nonlinear_arith);
        vstd::arithmetic::div_mod::lemma_fundamental_div_mod_converse(
            (consumed + 1) as int,
            t as int,
            q,
            (consumed % t + 1) as int,
        );
    }
}

} // verus!
