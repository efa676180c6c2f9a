//! `PhaseGate`: advisory mutual exclusion between bulk export and the
//! two worker stages.
use vstd::prelude::*;

verus! {

/// Abstract state of a [`PhaseGate`].
pub struct GateState {
    /// The export stage holds the phase lock.
    pub exporting: bool,
    /// The export stage has asked for the phase lock and waits for running work to end.
    pub pending: bool,
    /// Number of worker stages doing collaborator work right now.
    pub workers: nat,
}

impl GateState {
    pub open spec fn wf(self) -> bool {
        self.exporting ==> (self.workers == 0 && !self.pending)
    }

    /// A worker stage may start a unit of work.
    pub open spec fn admits_work(self) -> bool {
        !self.exporting && !self.pending
    }

    pub open spec fn begin_work(self) -> GateState {
        if self.admits_work() {
            GateState { workers: self.workers + 1, ..self }
        } else {
            self
        }
    }

    pub open spec fn end_work(self) -> GateState {
        GateState { workers: (self.workers - 1) as nat, ..self }
    }

    /// The export stage may take the phase lock now.
    pub open spec fn admits_export(self) -> bool {
        !self.exporting && self.workers == 0
    }

    pub open spec fn acquire_export(self) -> GateState {
        if self.exporting {
            self
        } else if self.workers == 0 {
            GateState { exporting: true, pending: false, ..self }
        } else {
            GateState { pending: true, ..self }
        }
    }

    pub open spec fn release_export(self) -> GateState {
        GateState { exporting: false, pending: false, ..self }
    }
}

/// Shared flag that tells whether a bulk export is in progress.
///
/// Export takes the phase lock only when no worker is inside a unit of work, and
/// workers start a unit only while the phase lock is neither held nor asked for.
/// Nobody is woken on release: waiters poll with a backoff.
pub struct PhaseGate {
    exporting: bool,
    pending: bool,
    workers: u64,
}

impl View for PhaseGate {
    type V = GateState;

    closed spec fn view(&self) -> GateState {
        GateState { exporting: self.exporting, pending: self.pending, workers: self.workers as nat }
    }
}

impl PhaseGate {
    /// A free phase lock with no worker inside.
    pub fn new() -> (g: PhaseGate)
        ensures
            g@ == (GateState { exporting: false, pending: false, workers: 0 }),
    {
        PhaseGate { exporting: false, pending: false, workers: 0 }
    }

    /// Non-blocking read of the held flag.
    pub fn is_held(&self) -> (r: bool)
        ensures
            r == self@.exporting,
    {
        self.exporting
    }

    /// Lets a worker stage in if the phase lock admits work; answers whether it did.
    pub fn try_begin_work(&mut self) -> (r: bool)
        requires
            old(self)@.wf(),
            old(self)@.workers < u64::MAX,
        ensures
            r == old(self)@.admits_work(),
            final(self)@ == old(self)@.begin_work(),
            final(self)@.wf(),
    {
        if !self.exporting && !self.pending {
            self.workers = self.workers + 1;
            true
        } else {
            false
        }
    }

    /// A worker stage leaves after its unit of work.
    pub fn end_work(&mut self)
        requires
            old(self)@.wf(),
            old(self)@.workers > 0,
        ensures
            final(self)@ == old(self)@.end_work(),
            final(self)@.wf(),
    {
        self.workers = self.workers - 1;
    }

    /// One attempt of the export stage to take the phase lock. When workers are
    /// still inside, the request is recorded so that no new work starts, and
    /// `false` comes back: the caller waits and tries again.
    pub fn try_acquire_export(&mut self) -> (r: bool)
        requires
            old(self)@.wf(),
        ensures
            r == old(self)@.admits_export(),
            final(self)@ == old(self)@.acquire_export(),
            final(self)@.wf(),
    {
        if self.exporting {
            false
        } else if self.workers == 0 {
            self.exporting = true;
            self.pending = false;
            true
        } else {
            self.pending = true;
            false
        }
    }

    /// Clears the held flag.
    pub fn release_export(&mut self)
        requires
            old(self)@.wf(),
            old(self)@.exporting,
        ensures
            final(self)@ == old(self)@.release_export(),
            !final(self)@.exporting,
            final(self)@.wf(),
    {
        self.exporting = false;
        self.pending = false;
    }
}

} // verus!
