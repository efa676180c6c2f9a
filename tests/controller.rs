use crates_pro::analysis::AnalysisAction;
use crates_pro::controller::{
    flag_enabled, CoreController, CratesProCli, EXPORT_PERIOD_SECS, FLUSH_THRESHOLD,
};
use crates_pro::export::ExportAction;
use crates_pro::ingest::{IngestAction, IngestPhase};
use crates_pro::Outcome;

#[test]
fn only_one_enables() {
    assert!(flag_enabled("1"));
    assert!(!flag_enabled("0"));
    assert!(!flag_enabled(""));
    assert!(!flag_enabled("11"));
    assert!(!flag_enabled("true"));
    assert!(!flag_enabled(" 1"));
}

#[test]
fn controller_reads_flags() {
    let cli = CratesProCli { dont_clone: true };
    let c = CoreController::new(cli, "1", "0", "1");
    assert_eq!(c.cli, cli);
    assert!(c.import);
    assert!(!c.analysis);
    assert!(c.package);
    assert!(c.serves_api());
    let d = CoreController::new(cli, "0", "1", "");
    assert!(!d.import && d.analysis && !d.package);
    assert!(!d.serves_api());
}

#[test]
fn controller_pipeline_uses_configuration() {
    let c = CoreController::new(CratesProCli { dont_clone: false }, "1", "0", "0");
    let mut p = c.pipeline(true);
    assert_eq!(p.ingest_step(Outcome::Success), IngestAction::ResetOffset);
    assert_eq!(p.analysis_step(Outcome::Success), AnalysisAction::Finish);
    assert_eq!(p.export_step(Outcome::Success), ExportAction::Finish);
    assert_eq!(p.ingest_step(Outcome::Success), IngestAction::Consume);
    let mut flushes = 0;
    let mut consumed = 1u64;
    let mut action = p.ingest_step(Outcome::Success);
    while consumed <= FLUSH_THRESHOLD {
        match action {
            IngestAction::Consume => consumed += 1,
            IngestAction::Flush => {
                flushes += 1;
                assert_eq!(consumed, FLUSH_THRESHOLD);
            }
            IngestAction::Yield => {}
            other => panic!("unexpected action {:?}", other),
        }
        action = p.ingest_step(Outcome::Success);
    }
    assert_eq!(flushes, 1);
    assert_eq!(FLUSH_THRESHOLD, 1000);
    assert_eq!(p.ingest_phase(), IngestPhase::Yielding);
}

#[test]
fn sleeps_follow_the_pacing_policy() {
    assert_eq!(IngestAction::Backoff.sleep_secs(), 1);
    assert_eq!(IngestAction::Yield.sleep_secs(), 0);
    assert_eq!(IngestAction::Consume.sleep_secs(), 0);
    assert_eq!(AnalysisAction::Backoff.sleep_secs(), 1);
    assert_eq!(AnalysisAction::Pause.sleep_secs(), 1);
    assert_eq!(AnalysisAction::Analyse.sleep_secs(), 0);
    assert_eq!(ExportAction::Wait.sleep_secs(), 1);
    assert_eq!(ExportAction::Rest.sleep_secs(), EXPORT_PERIOD_SECS);
    assert_eq!(ExportAction::Rest.sleep_secs(), 72000);
    assert_eq!(ExportAction::Transport.sleep_secs(), 0);
}
