//! The analysis stage: one unit of analysis work at a time, paced by a
//! fixed interval.
use vstd::prelude::*;

use crate::gate::{GateState, PhaseGate};
use crate::Outcome;

verus! {

/// What the analysis stage is waiting for.
#[derive(Clone, Copy, Debug, PartialEq, Eq, Structural)]
pub enum AnalysisPhase {
    /// Not started yet.
    Idle,
    /// Sleeping one backoff interval because the phase lock refused work.
    BackingOff,
    /// Inside the phase lock, one unit of analysis is running.
    Working,
    /// Out of the phase lock, sleeping the pacing interval.
    Pausing,
    /// Disabled: the stage is over.
    Finished,
}

/// What the runtime must do next for the analysis stage.
#[derive(Clone, Copy, Debug, PartialEq, Eq, Structural)]
pub enum AnalysisAction {
    /// Sleep one backoff interval.
    Backoff,
    /// Run one unit of analysis against the output location.
    Analyse,
    /// Sleep the pacing interval.
    Pause,
    /// Complete the stage without error.
    Finish,
}

/// Abstract state of an [`AnalysisStage`].
pub struct AnalysisState {
    pub enabled: bool,
    pub phase: AnalysisPhase,
}

impl AnalysisState {
    pub open spec fn initial(enabled: bool) -> AnalysisState {
        AnalysisState { enabled, phase: AnalysisPhase::Idle }
    }

    /// The stage is inside the phase lock.
    pub open spec fn working(self) -> bool {
        self.phase == AnalysisPhase::Working
    }

    pub open spec fn wf(self) -> bool {
        !self.enabled ==> (self.phase == AnalysisPhase::Idle || self.phase
            == AnalysisPhase::Finished)
    }

    /// Asks the phase lock for a unit of work.
    pub open spec fn enter(self, g: GateState) -> (AnalysisState, GateState, AnalysisAction) {
        if g.admits_work() {
            (AnalysisState { phase: AnalysisPhase::Working, ..self }, g.begin_work(), AnalysisAction::Analyse)
        } else {
            (AnalysisState { phase: AnalysisPhase::BackingOff, ..self }, g, AnalysisAction::Backoff)
        }
    }

    /// The next state, phase lock and action once the pending action ended. A
    /// failed unit of analysis is treated as a finished one.
    pub open spec fn next(self, g: GateState) -> (AnalysisState, GateState, AnalysisAction) {
        match self.phase {
            AnalysisPhase::Idle => if !self.enabled {
                (AnalysisState { phase: AnalysisPhase::Finished, ..self }, g, AnalysisAction::Finish)
            } else {
                self.enter(g)
            },
            AnalysisPhase::BackingOff => self.enter(g),
            AnalysisPhase::Pausing => self.enter(g),
            AnalysisPhase::Working => (
                AnalysisState { phase: AnalysisPhase::Pausing, ..self },
                g.end_work(),
                AnalysisAction::Pause,
            ),
            AnalysisPhase::Finished => (self, g, AnalysisAction::Finish),
        }
    }
}

/// Decides, unit by unit, what the analysis stage does.
///
/// A unit of analysis runs inside the phase lock, as a record does for
/// ingestion, so that an export cycle can never start in the middle of one.
pub struct AnalysisStage {
    enabled: bool,
    phase: AnalysisPhase,
}

impl View for AnalysisStage {
    type V = AnalysisState;

    closed spec fn view(&self) -> AnalysisState {
        AnalysisState { enabled: self.enabled, phase: self.phase }
    }
}

impl AnalysisStage {
    pub fn new(enabled: bool) -> (s: AnalysisStage)
        ensures
            s@ == AnalysisState::initial(enabled),
            s@.wf(),
    {
        AnalysisStage { enabled, phase: AnalysisPhase::Idle }
    }

    pub fn phase(&self) -> (r: AnalysisPhase)
        ensures
            r == self@.phase,
    {
        self.phase
    }

    fn enter(&mut self, gate: &mut PhaseGate) -> (a: AnalysisAction)
        requires
            old(gate)@.wf(),
            old(gate)@.workers < u64::MAX,
        ensures
            (final(self)@, final(gate)@, a) == old(self)@.enter(old(gate)@),
    {
        if gate.try_begin_work() {
            self.phase = AnalysisPhase::Working;
            AnalysisAction::Analyse
        } else {
            self.phase = AnalysisPhase::BackingOff;
            AnalysisAction::Backoff
        }
    }

    /// Takes how the pending action ended and hands out the next one. The
    /// first call starts the stage. Failures are swallowed, so the outcome
    /// never changes the decision.
    pub fn step(&mut self, gate: &mut PhaseGate, _outcome: Outcome) -> (a: AnalysisAction)
        requires
            old(self)@.wf(),
            old(gate)@.wf(),
            old(gate)@.workers < u64::MAX,
            old(self)@.working() ==> old(gate)@.workers > 0,
        ensures
            (final(self)@, final(gate)@, a) == old(self)@.next(old(gate)@),
            final(self)@.wf(),
    {
        match self.phase {
            AnalysisPhase::Idle => if !self.enabled {
                self.phase = AnalysisPhase::Finished;
                AnalysisAction::Finish
            } else {
                self.enter(gate)
            },
            AnalysisPhase::BackingOff => self.enter(gate),
            AnalysisPhase::Pausing => self.enter(gate),
            AnalysisPhase::Working => {
                gate.end_work();
                self.phase = AnalysisPhase::Pausing;
                AnalysisAction::Pause
            },
            AnalysisPhase::Finished => AnalysisAction::Finish,
        }
    }
}

} // verus!
