//! Startup configuration of the coordinator and the pacing of its stages.
use vstd::prelude::*;

use crate::analysis::AnalysisAction;
use crate::export::ExportAction;
use crate::ingest::IngestAction;
use crate::pipeline::{Pipeline, PipelineState};

verus! {

/// Records consumed between two flushes of the accumulated state.
pub const FLUSH_THRESHOLD: u64 = 1000;

/// Seconds a worker stage waits before asking a held phase lock again.
pub const BACKOFF_SECS: u64 = 1;

/// Seconds between two units of analysis.
pub const ANALYSIS_INTERVAL_SECS: u64 = 1;

/// Seconds the export stage waits before asking a busy phase lock again.
pub const EXPORT_WAIT_SECS: u64 = 1;

/// Seconds between two export cycles.
pub const EXPORT_PERIOD_SECS: u64 = 72000;

/// A configuration value switches its feature on when it is exactly `1`.
pub open spec fn flag_on(value: Seq<char>) -> bool {
    value == seq!['1']
}

/// Reads one enablement value.
pub fn flag_enabled(value: &str) -> (r: bool)
    ensures
        r == flag_on(value@),
{
    let n = value.unicode_len();
    if n != 1 {
        assert(value@ != seq!['1']);
        return false;
    }
    let c = value.get_char(0);
    if c == '1' {
        assert(value@ =~= seq!['1']);
        true
    } else {
        assert(value@[0] != seq!['1'][0]);
        false
    }
}

/// Command-line options of the coordinator.
#[derive(Clone, Copy, Debug, PartialEq, Eq, Structural)]
pub struct CratesProCli {
    /// Import repositories without cloning them.
    pub dont_clone: bool,
}

/// Which stages run, read once at startup.
#[derive(Clone, Copy, Debug, PartialEq, Eq, Structural)]
pub struct CoreController {
    pub cli: CratesProCli,
    pub import: bool,
    pub analysis: bool,
    pub package: bool,
}

impl CoreController {
    /// Takes the three enablement values as they were configured.
    pub fn new(cli: CratesProCli, import: &str, analysis: &str, package: &str) -> (c:
        CoreController)
        ensures
            c.cli == cli,
            c.import == flag_on(import@),
            c.analysis == flag_on(analysis@),
            c.package == flag_on(package@),
    {
        CoreController {
            cli,
            import: flag_enabled(import),
            analysis: flag_enabled(analysis),
            package: flag_enabled(package),
        }
    }

    /// The API server is started, before the stages are joined, exactly when
    /// export is enabled.
    pub fn serves_api(&self) -> (r: bool)
        ensures
            r == self.package,
    {
        self.package
    }

    /// The decision core for one run: each stage enabled as configured,
    /// ingestion flushing every [`FLUSH_THRESHOLD`] records and first
    /// resetting the queue's offset if `reset_offset`.
    pub fn pipeline(&self, reset_offset: bool) -> (p: Pipeline)
        ensures
            p@ == PipelineState::initial(
                self.import,
                reset_offset,
                FLUSH_THRESHOLD as nat,
                self.analysis,
                self.package,
            ),
            p@.wf(),
    {
        Pipeline::new(self.import, reset_offset, FLUSH_THRESHOLD, self.analysis, self.package)
    }
}

impl IngestAction {
    /// Seconds the runtime sleeps for this action; zero for a yield and for
    /// the actions that are not sleeps.
    pub fn sleep_secs(&self) -> (r: u64)
        ensures
            r == (if *self == IngestAction::Backoff {
                BACKOFF_SECS
            } else {
                0
            }),
    {
        match self {
            IngestAction::Backoff => BACKOFF_SECS,
            _ => 0,
        }
    }
}

impl AnalysisAction {
    /// Seconds the runtime sleeps for this action; zero for the actions that
    /// are not sleeps.
    pub fn sleep_secs(&self) -> (r: u64)
        ensures
            r == (match *self {
                AnalysisAction::Backoff => BACKOFF_SECS,
                AnalysisAction::Pause => ANALYSIS_INTERVAL_SECS,
                _ => 0,
            }),
    {
        match self {
            AnalysisAction::Backoff => BACKOFF_SECS,
            AnalysisAction::Pause => ANALYSIS_INTERVAL_SECS,
            _ => 0,
        }
    }
}

impl ExportAction {
    /// Seconds the runtime sleeps for this action; zero for the actions that
    /// are not sleeps.
    pub fn sleep_secs(&self) -> (r: u64)
        ensures
            r == (match *self {
                ExportAction::Wait => EXPORT_WAIT_SECS,
                ExportAction::Rest => EXPORT_PERIOD_SECS,
                _ => 0,
            }),
    {
        match self {
            ExportAction::Wait => EXPORT_WAIT_SECS,
            ExportAction::Rest => EXPORT_PERIOD_SECS,
            _ => 0,
        }
    }
}

} // verus!
