//! The export stage: on a long timer, take the phase lock, run one transport
//! cycle, give the phase lock back.
use vstd::prelude::*;

use crate::gate::{GateState, PhaseGate};
use crate::Outcome;

verus! {

/// What the export stage is waiting for.
#[derive(Clone, Copy, Debug, PartialEq, Eq, Structural)]
pub enum ExportPhase {
    /// Not started yet.
    Idle,
    /// The phase lock was asked for and is not free yet: sleeping a short wait.
    Acquiring,
    /// Holding the phase lock, one transport cycle is running.
    Transporting,
    /// The phase lock was given back: sleeping the export period.
    Resting,
    /// Disabled: the stage is over.
    Finished,
}

/// What the runtime must do next for the export stage.
#[derive(Clone, Copy, Debug, PartialEq, Eq, Structural)]
pub enum ExportAction {
    /// Sleep a short wait, then ask for the phase lock again.
    Wait,
    /// Run one full transport cycle to the downstream store.
    Transport,
    /// Sleep the export period.
    Rest,
    /// Complete the stage without error.
    Finish,
}

/// Abstract state of an [`ExportStage`].
pub struct ExportState {
    pub enabled: bool,
    pub phase: ExportPhase,
    /// Times the stage has taken the phase lock.
    pub acquisitions: nat,
    /// Times the stage has given the phase lock back.
    pub releases: nat,
}

impl ExportState {
    pub open spec fn initial(enabled: bool) -> ExportState {
        ExportState { enabled, phase: ExportPhase::Idle, acquisitions: 0, releases: 0 }
    }

    /// The stage holds the phase lock.
    pub open spec fn holding(self) -> bool {
        self.phase == ExportPhase::Transporting
    }

    pub open spec fn wf(self) -> bool {
        &&& !self.enabled ==> (self.phase == ExportPhase::Idle || self.phase
            == ExportPhase::Finished)
        &&& self.acquisitions == self.releases + if self.holding() {
            1nat
        } else {
            0nat
        }
    }

    /// One attempt to take the phase lock.
    pub open spec fn acquire(self, g: GateState) -> (ExportState, GateState, ExportAction) {
        if g.admits_export() {
            (
                ExportState {
                    phase: ExportPhase::Transporting,
                    acquisitions: self.acquisitions + 1,
                    ..self
                },
                g.acquire_export(),
                ExportAction::Transport,
            )
        } else {
            (ExportState { phase: ExportPhase::Acquiring, ..self }, g.acquire_export(), ExportAction::Wait)
        }
    }

    /// The next state, phase lock and action once the pending action ended. The
    /// phase lock is given back after a transport cycle however it ended.
    pub open spec fn next(self, g: GateState) -> (ExportState, GateState, ExportAction) {
        match self.phase {
            ExportPhase::Idle => if !self.enabled {
                (ExportState { phase: ExportPhase::Finished, ..self }, g, ExportAction::Finish)
            } else {
                self.acquire(g)
            },
            ExportPhase::Acquiring => self.acquire(g),
            ExportPhase::Resting => self.acquire(g),
            ExportPhase::Transporting => (
                ExportState { phase: ExportPhase::Resting, releases: self.releases + 1, ..self },
                g.release_export(),
                ExportAction::Rest,
            ),
            ExportPhase::Finished => (self, g, ExportAction::Finish),
        }
    }
}

/// Decides, cycle by cycle, what the export stage does.
pub struct ExportStage {
    enabled: bool,
    phase: ExportPhase,
    acquisitions: Ghost<nat>,
    releases: Ghost<nat>,
}

impl View for ExportStage {
    type V = ExportState;

    closed spec fn view(&self) -> ExportState {
        ExportState {
            enabled: self.enabled,
            phase: self.phase,
            acquisitions: self.acquisitions@,
            releases: self.releases@,
        }
    }
}

impl ExportStage {
    pub fn new(enabled: bool) -> (s: ExportStage)
        ensures
            s@ == ExportState::initial(enabled),
            s@.wf(),
    {
        ExportStage { enabled, phase: ExportPhase::Idle, acquisitions: Ghost(0), releases: Ghost(0) }
    }

    pub fn phase(&self) -> (r: ExportPhase)
        ensures
            r == self@.phase,
    {
        self.phase
    }

    fn acquire(&mut self, gate: &mut PhaseGate) -> (a: ExportAction)
        requires
            old(gate)@.wf(),
        ensures
            (final(self)@, final(gate)@, a) == old(self)@.acquire(old(gate)@),
    {
        if gate.try_acquire_export() {
            self.acquisitions = Ghost(self.acquisitions@ + 1);
            self.phase = ExportPhase::Transporting;
            ExportAction::Transport
        } else {
            self.phase = ExportPhase::Acquiring;
            ExportAction::Wait
        }
    }

    /// Takes how the pending action ended and hands out the next one. The
    /// first call starts the stage. A failed transport releases the phase lock as
    /// a successful one does.
    pub fn step(&mut self, gate: &mut PhaseGate, _outcome: Outcome) -> (a: ExportAction)
        requires
            old(self)@.wf(),
            old(gate)@.wf(),
            old(self)@.holding() ==> old(gate)@.exporting,
        ensures
            (final(self)@, final(gate)@, a) == old(self)@.next(old(gate)@),
            final(self)@.wf(),
    {
        match self.phase {
            ExportPhase::Idle => if !self.enabled {
                self.phase = ExportPhase::Finished;
                ExportAction::Finish
            } else {
                self.acquire(gate)
            },
            ExportPhase::Acquiring => self.acquire(gate),
            ExportPhase::Resting => self.acquire(gate),
            ExportPhase::Transporting => {
                gate.release_export();
                self.releases = Ghost(self.releases@ + 1);
                self.phase = ExportPhase::Resting;
                ExportAction::Rest
            },
            ExportPhase::Finished => ExportAction::Finish,
        }
    }
}

} // verus!
