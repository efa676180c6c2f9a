//! The three stages and the phase lock they share, stepped one event at a time.
use vstd::prelude::*;

use crate::analysis::{AnalysisAction, AnalysisPhase, AnalysisStage, AnalysisState};
use crate::export::{ExportAction, ExportPhase, ExportStage, ExportState};
use crate::gate::{GateState, PhaseGate};
use crate::ingest::{lemma_counter_step, IngestAction, IngestPhase, IngestState, IngestionStage};
use crate::Outcome;

verus! {

/// How a pending action of one stage ended.
#[derive(Clone, Copy, Debug, PartialEq, Eq, Structural)]
pub enum StageEvent {
    Ingestion(Outcome),
    Analysis(Outcome),
    Export(Outcome),
}

/// Abstract state of a [`Pipeline`].
pub struct PipelineState {
    pub gate: GateState,
    pub ingestion: IngestState,
    pub analysis: AnalysisState,
    pub export: ExportState,
}

impl PipelineState {
    pub open spec fn initial(
        ingest: bool,
        reset_offset: bool,
        threshold: nat,
        analyse: bool,
        export: bool,
    ) -> PipelineState {
        PipelineState {
            gate: GateState { exporting: false, pending: false, workers: 0 },
            ingestion: IngestState::initial(ingest, reset_offset, threshold),
            analysis: AnalysisState::initial(analyse),
            export: ExportState::initial(export),
        }
    }

    /// Worker stages inside the phase lock.
    pub open spec fn inside(self) -> nat {
        (if self.ingestion.working() {
            1nat
        } else {
            0nat
        }) + (if self.analysis.working() {
            1nat
        } else {
            0nat
        })
    }

    pub open spec fn wf(self) -> bool {
        &&& self.gate.wf()
        &&& self.ingestion.wf()
        &&& self.analysis.wf()
        &&& self.export.wf()
        &&& self.gate.workers == self.inside()
        &&& self.gate.exporting <==> self.export.holding()
        &&& self.gate.pending ==> self.export.phase == ExportPhase::Acquiring
    }

    /// Export never overlaps collaborator work of the other two stages.
    pub open spec fn exclusive(self) -> bool {
        self.gate.exporting ==> (self.export.holding() && !self.ingestion.working()
            && !self.analysis.working())
    }

    pub open spec fn ingest_step(self, o: Outcome) -> (PipelineState, IngestAction) {
        let (s, g, a) = self.ingestion.next(self.gate, o);
        (PipelineState { gate: g, ingestion: s, ..self }, a)
    }

    pub open spec fn analysis_step(self) -> (PipelineState, AnalysisAction) {
        let (s, g, a) = self.analysis.next(self.gate);
        (PipelineState { gate: g, analysis: s, ..self }, a)
    }

    pub open spec fn export_step(self) -> (PipelineState, ExportAction) {
        let (s, g, a) = self.export.next(self.gate);
        (PipelineState { gate: g, export: s, ..self }, a)
    }

    pub open spec fn next(self, e: StageEvent) -> PipelineState {
        match e {
            StageEvent::Ingestion(o) => self.ingest_step(o).0,
            StageEvent::Analysis(_) => self.analysis_step().0,
            StageEvent::Export(_) => self.export_step().0,
        }
    }

    /// The state after the events of `trace`, in order.
    pub open spec fn run(self, trace: Seq<StageEvent>) -> PipelineState
        decreases trace.len(),
    {
        if trace.len() == 0 {
            self
        } else {
            self.next(trace[0]).run(trace.drop_first())
        }
    }
}

/// The coordinator's decision core: one phase lock, three stage machines.
///
/// The runtime reports how each stage's last action ended and performs the
/// action that comes back. Gate operations happen inside these calls, so the
/// runtime only has to serialise the calls themselves.
pub struct Pipeline {
    gate: PhaseGate,
    ingestion: IngestionStage,
    analysis: AnalysisStage,
    export: ExportStage,
}

impl View for Pipeline {
    type V = PipelineState;

    closed spec fn view(&self) -> PipelineState {
        PipelineState {
            gate: self.gate@,
            ingestion: self.ingestion@,
            analysis: self.analysis@,
            export: self.export@,
        }
    }
}

impl Pipeline {
    /// All three stages not started, the phase lock free. Ingestion flushes every
    /// `threshold` records.
    pub fn new(ingest: bool, reset_offset: bool, threshold: u64, analyse: bool, export: bool) -> (p:
        Pipeline)
        requires
            threshold > 0,
        ensures
            p@ == PipelineState::initial(ingest, reset_offset, threshold as nat, analyse, export),
            p@.wf(),
    {
        Pipeline {
            gate: PhaseGate::new(),
            ingestion: IngestionStage::new(ingest, reset_offset, threshold),
            analysis: AnalysisStage::new(analyse),
            export: ExportStage::new(export),
        }
    }

    pub fn gate_held(&self) -> (r: bool)
        ensures
            r == self@.gate.exporting,
    {
        self.gate.is_held()
    }

    pub fn ingest_phase(&self) -> (r: IngestPhase)
        ensures
            r == self@.ingestion.phase,
    {
        self.ingestion.phase()
    }

    /// Records consumed since the last flush.
    pub fn ingest_count(&self) -> (r: u64)
        ensures
            r == self@.ingestion.count,
    {
        self.ingestion.count()
    }

    pub fn analysis_phase(&self) -> (r: AnalysisPhase)
        ensures
            r == self@.analysis.phase,
    {
        self.analysis.phase()
    }

    pub fn export_phase(&self) -> (r: ExportPhase)
        ensures
            r == self@.export.phase,
    {
        self.export.phase()
    }

    /// The ingestion stage's pending action ended with `o`: its next action.
    pub fn ingest_step(&mut self, o: Outcome) -> (a: IngestAction)
        requires
            old(self)@.wf(),
        ensures
            (final(self)@, a) == old(self)@.ingest_step(o),
            final(self)@.wf(),
    {
        let a = self.ingestion.step(&mut self.gate, o);
        a
    }

    /// The analysis stage's pending action ended with `o`: its next action.
    pub fn analysis_step(&mut self, o: Outcome) -> (a: AnalysisAction)
        requires
            old(self)@.wf(),
        ensures
            (final(self)@, a) == old(self)@.analysis_step(),
            final(self)@.wf(),
    {
        let a = self.analysis.step(&mut self.gate, o);
        a
    }

    /// The export stage's pending action ended with `o`: its next action.
    pub fn export_step(&mut self, o: Outcome) -> (a: ExportAction)
        requires
            old(self)@.wf(),
        ensures
            (final(self)@, a) == old(self)@.export_step(),
            final(self)@.wf(),
    {
        let a = self.export.step(&mut self.gate, o);
        a
    }
}

/// One event keeps the state well-formed and the stages' configuration as it was.
proof fn lemma_next_wf(s: PipelineState, e: StageEvent)
    requires
        s.wf(),
    ensures
        s.next(e).wf(),
        s.next(e).ingestion.enabled == s.ingestion.enabled,
        s.next(e).ingestion.threshold == s.ingestion.threshold,
        s.next(e).analysis.enabled == s.analysis.enabled,
        s.next(e).export.enabled == s.export.enabled,
{
    lemma_counter_step(s.ingestion.consumed, s.ingestion.threshold);
}

/// Any run of events from a well-formed state ends in a well-formed state,
/// with every stage configured as at the start.
pub proof fn lemma_run_wf(s: PipelineState, trace: Seq<StageEvent>)
    requires
        s.wf(),
    ensures
        s.run(trace).wf(),
        s.run(trace).ingestion.enabled == s.ingestion.enabled,
        s.run(trace).ingestion.threshold == s.ingestion.threshold,
        s.run(trace).analysis.enabled == s.analysis.enabled,
        s.run(trace).export.enabled == s.export.enabled,
    decreases trace.len(),
{
    if trace.len() > 0 {
        lemma_next_wf(s, trace[0]);
        lemma_run_wf(s.next(trace[0]), trace.drop_first());
    }
}

/// Flush schedule: after any run, the flushes handed out are the records
/// consumed divided by the threshold, and outside a flush the counter is the
/// remainder. The next ingestion action is a flush exactly when the record
/// being consumed is a multiple of the threshold, and once a flush ends the
/// counter is zero.
pub proof fn lemma_flush_schedule(s: PipelineState, trace: Seq<StageEvent>, o: Outcome)
    requires
        s.wf(),
    ensures
        ({
            let r = s.run(trace);
            let t = r.ingestion.threshold;
            &&& t == s.ingestion.threshold
            &&& r.ingestion.flushes == r.ingestion.consumed / t
            &&& r.ingestion.phase != IngestPhase::Flushing ==> r.ingestion.count
                == r.ingestion.consumed % t
            &&& (r.ingest_step(o).1 == IngestAction::Flush <==> (r.ingestion.phase
                == IngestPhase::Consuming && (r.ingestion.consumed + 1) % t == 0))
            &&& r.ingestion.phase == IngestPhase::Flushing ==> r.ingest_step(o).0.ingestion.count
                == 0
        }),
{
    lemma_run_wf(s, trace);
    let r = s.run(trace);
    lemma_counter_step(r.ingestion.consumed, r.ingestion.threshold);
}

/// Exclusion: after any run, the phase lock is held only by the export stage, and
/// while it is held neither ingestion nor analysis is inside a unit of work.
pub proof fn lemma_gate_exclusive(s: PipelineState, trace: Seq<StageEvent>)
    requires
        s.wf(),
    ensures
        s.run(trace).exclusive(),
{
    lemma_run_wf(s, trace);
}

/// Release: after any run, the export stage has released the phase lock once for
/// each time it took it, but for the hold in progress; a transport cycle
/// that ends, whether it succeeded or failed, frees the phase lock.
pub proof fn lemma_export_releases(s: PipelineState, trace: Seq<StageEvent>, o: Outcome)
    requires
        s.wf(),
    ensures
        ({
            let r = s.run(trace);
            &&& r.export.acquisitions == r.export.releases + if r.export.holding() {
                1nat
            } else {
                0nat
            }
            &&& r.export.holding() ==> {
                let (n, a) = r.export_step();
                &&& !n.gate.exporting
                &&& n.export.releases == r.export.releases + 1
                &&& n.export.acquisitions == r.export.acquisitions
                &&& a == ExportAction::Rest
                &&& n == r.next(StageEvent::Export(o))
            }
        }),
{
    lemma_run_wf(s, trace);
}

/// Inertness: after any run, a disabled stage's next action is to finish,
/// it leaves the phase lock as it was, and it is never inside the phase lock.
pub proof fn lemma_disabled_stage_inert(s: PipelineState, trace: Seq<StageEvent>, o: Outcome)
    requires
        s.wf(),
    ensures
        ({
            let r = s.run(trace);
            &&& !s.ingestion.enabled ==> {
                &&& r.ingest_step(o).1 == IngestAction::Finish
                &&& r.ingest_step(o).0.gate == r.gate
                &&& !r.ingestion.working()
            }
            &&& !s.analysis.enabled ==> {
                &&& r.analysis_step().1 == AnalysisAction::Finish
                &&& r.analysis_step().0.gate == r.gate
                &&& !r.analysis.working()
            }
            &&& !s.export.enabled ==> {
                &&& r.export_step().1 == ExportAction::Finish
                &&& r.export_step().0.gate == r.gate
                &&& !r.export.holding()
            }
        }),
{
    lemma_run_wf(s, trace);
}

} // verus!
