use crates_pro::analysis::{AnalysisAction, AnalysisPhase};
use crates_pro::export::{ExportAction, ExportPhase};
use crates_pro::ingest::{IngestAction, IngestPhase};
use crates_pro::pipeline::Pipeline;
use crates_pro::Outcome;

/// Edges derived from an accumulated state: each record depends on the one before it.
fn edges_of(state: &[char]) -> Vec<(char, char)> {
    state.windows(2).map(|w| (w[1], w[0])).collect()
}

#[test]
fn flushes_are_cumulative_every_three_records() {
    let records = ['A', 'B', 'C', 'D', 'E', 'F'];
    let mut p = Pipeline::new(true, false, 3, false, false);
    let mut accumulated: Vec<char> = Vec::new();
    let mut flushed: Vec<(Vec<char>, Vec<(char, char)>)> = Vec::new();
    let mut next = 0usize;
    let mut action = p.ingest_step(Outcome::Success);
    let mut steps = 0;
    while next < records.len() || action == IngestAction::Flush {
        match action {
            IngestAction::Consume => {
                accumulated.push(records[next]);
                next += 1;
            }
            IngestAction::Flush => {
                assert_eq!(p.ingest_count(), 3);
                flushed.push((accumulated.clone(), edges_of(&accumulated)));
            }
            IngestAction::Yield => {}
            other => panic!("unexpected action {:?}", other),
        }
        action = p.ingest_step(Outcome::Success);
        steps += 1;
        assert!(steps < 100);
    }
    assert_eq!(flushed.len(), 2);
    assert_eq!(flushed[0].0, vec!['A', 'B', 'C']);
    assert_eq!(flushed[0].1, edges_of(&['A', 'B', 'C']));
    assert_eq!(flushed[1].0, vec!['A', 'B', 'C', 'D', 'E', 'F']);
    assert_eq!(flushed[1].1, edges_of(&['A', 'B', 'C', 'D', 'E', 'F']));
    assert_eq!(p.ingest_count(), 0);
}

#[test]
fn ingestion_waits_for_release_during_backoff() {
    let mut p = Pipeline::new(true, false, 1000, false, true);
    // Ingestion takes one record and leaves the phase lock.
    assert_eq!(p.ingest_step(Outcome::Success), IngestAction::Consume);
    assert_eq!(p.ingest_step(Outcome::Success), IngestAction::Yield);
    // Export takes the free phase lock.
    assert_eq!(p.export_step(Outcome::Success), ExportAction::Transport);
    assert!(p.gate_held());
    // Ingestion backs off, and keeps backing off while the phase lock is held.
    assert_eq!(p.ingest_step(Outcome::Success), IngestAction::Backoff);
    assert_eq!(p.ingest_phase(), IngestPhase::BackingOff);
    for _ in 0..5 {
        assert_eq!(p.ingest_step(Outcome::Success), IngestAction::Backoff);
    }
    assert_eq!(p.ingest_count(), 1);
    // Export releases; the next end of a backoff interval resumes consumption.
    assert_eq!(p.export_step(Outcome::Success), ExportAction::Rest);
    assert!(!p.gate_held());
    assert_eq!(p.ingest_step(Outcome::Success), IngestAction::Consume);
    assert_eq!(IngestAction::Backoff.sleep_secs(), 1);
}

#[test]
fn flush_only_on_threshold_multiples() {
    let mut p = Pipeline::new(true, false, 4, false, false);
    let mut action = p.ingest_step(Outcome::Success);
    let mut consumed = 0u64;
    let mut flush_points = Vec::new();
    while consumed < 10 {
        match action {
            IngestAction::Consume => {
                action = p.ingest_step(Outcome::Failure);
                consumed += 1;
                if action == IngestAction::Flush {
                    flush_points.push(consumed);
                    action = p.ingest_step(Outcome::Failure);
                    assert_eq!(p.ingest_count(), 0);
                } else {
                    assert_eq!(p.ingest_count(), consumed % 4);
                }
            }
            IngestAction::Yield => action = p.ingest_step(Outcome::Success),
            other => panic!("unexpected action {:?}", other),
        }
    }
    assert_eq!(flush_points, vec![4, 8]);
    assert_eq!(p.ingest_count(), 2);
}

#[test]
fn threshold_one_flushes_every_record() {
    let mut p = Pipeline::new(true, false, 1, false, false);
    for _ in 0..3 {
        assert_eq!(p.ingest_step(Outcome::Success), IngestAction::Consume);
        assert_eq!(p.ingest_step(Outcome::Success), IngestAction::Flush);
        assert_eq!(p.ingest_count(), 1);
        assert_eq!(p.ingest_step(Outcome::Success), IngestAction::Yield);
        assert_eq!(p.ingest_count(), 0);
    }
}

#[test]
fn export_waits_for_running_work_and_blocks_new_work() {
    let mut p = Pipeline::new(true, false, 1000, true, true);
    assert_eq!(p.ingest_step(Outcome::Success), IngestAction::Consume);
    // Export asks while ingestion is inside: it must wait.
    assert_eq!(p.export_step(Outcome::Success), ExportAction::Wait);
    assert_eq!(p.export_phase(), ExportPhase::Acquiring);
    assert!(!p.gate_held());
    // No new work starts while export waits.
    assert_eq!(p.analysis_step(Outcome::Success), AnalysisAction::Backoff);
    assert_eq!(p.ingest_step(Outcome::Success), IngestAction::Yield);
    assert_eq!(p.ingest_step(Outcome::Success), IngestAction::Backoff);
    // Everyone is out: export takes the phase lock.
    assert_eq!(p.export_step(Outcome::Success), ExportAction::Transport);
    assert!(p.gate_held());
    assert_eq!(p.analysis_step(Outcome::Success), AnalysisAction::Backoff);
    assert_eq!(p.ingest_step(Outcome::Success), IngestAction::Backoff);
    assert_eq!(p.export_step(Outcome::Success), ExportAction::Rest);
    assert_eq!(p.analysis_step(Outcome::Success), AnalysisAction::Analyse);
    assert_eq!(p.ingest_step(Outcome::Success), IngestAction::Consume);
}

#[test]
fn export_waits_for_analysis() {
    let mut p = Pipeline::new(false, false, 1000, true, true);
    assert_eq!(p.analysis_step(Outcome::Success), AnalysisAction::Analyse);
    assert_eq!(p.analysis_phase(), AnalysisPhase::Working);
    assert_eq!(p.export_step(Outcome::Success), ExportAction::Wait);
    assert_eq!(p.analysis_step(Outcome::Failure), AnalysisAction::Pause);
    assert_eq!(p.export_step(Outcome::Success), ExportAction::Transport);
    assert_eq!(p.analysis_step(Outcome::Success), AnalysisAction::Backoff);
}

#[test]
fn failed_transport_releases_the_gate() {
    let mut p = Pipeline::new(false, false, 1000, false, true);
    assert_eq!(p.export_step(Outcome::Success), ExportAction::Transport);
    assert!(p.gate_held());
    assert_eq!(p.export_step(Outcome::Failure), ExportAction::Rest);
    assert!(!p.gate_held());
    assert_eq!(p.export_phase(), ExportPhase::Resting);
    // The next cycle takes the phase lock again and releases it again.
    assert_eq!(p.export_step(Outcome::Success), ExportAction::Transport);
    assert!(p.gate_held());
    assert_eq!(p.export_step(Outcome::Success), ExportAction::Rest);
    assert!(!p.gate_held());
}

#[test]
fn disabled_stages_finish_at_once() {
    let mut p = Pipeline::new(false, true, 1000, false, false);
    for _ in 0..3 {
        assert_eq!(p.ingest_step(Outcome::Success), IngestAction::Finish);
        assert_eq!(p.analysis_step(Outcome::Success), AnalysisAction::Finish);
        assert_eq!(p.export_step(Outcome::Success), ExportAction::Finish);
    }
    assert_eq!(p.ingest_phase(), IngestPhase::Finished);
    assert_eq!(p.analysis_phase(), AnalysisPhase::Finished);
    assert_eq!(p.export_phase(), ExportPhase::Finished);
    assert!(!p.gate_held());
}

#[test]
fn disabled_export_does_not_block_workers() {
    let mut p = Pipeline::new(true, false, 1000, true, false);
    assert_eq!(p.export_step(Outcome::Success), ExportAction::Finish);
    assert_eq!(p.ingest_step(Outcome::Success), IngestAction::Consume);
    assert_eq!(p.analysis_step(Outcome::Success), AnalysisAction::Analyse);
    assert_eq!(p.export_step(Outcome::Success), ExportAction::Finish);
    assert_eq!(p.ingest_step(Outcome::Success), IngestAction::Yield);
    assert_eq!(p.ingest_step(Outcome::Success), IngestAction::Consume);
}

#[test]
fn offset_reset_comes_first() {
    let mut p = Pipeline::new(true, true, 1000, false, false);
    assert_eq!(p.ingest_step(Outcome::Success), IngestAction::ResetOffset);
    assert_eq!(p.ingest_phase(), IngestPhase::Resetting);
    assert_eq!(p.ingest_step(Outcome::Success), IngestAction::Consume);
}

#[test]
fn failed_offset_reset_aborts_ingestion() {
    let mut p = Pipeline::new(true, true, 1000, true, false);
    assert_eq!(p.ingest_step(Outcome::Success), IngestAction::ResetOffset);
    assert_eq!(p.ingest_step(Outcome::Failure), IngestAction::Abort);
    assert_eq!(p.ingest_phase(), IngestPhase::Aborted);
    assert_eq!(p.ingest_step(Outcome::Success), IngestAction::Abort);
    // The other stages are not held up.
    assert_eq!(p.analysis_step(Outcome::Success), AnalysisAction::Analyse);
}

#[test]
fn failed_record_is_still_counted() {
    let mut p = Pipeline::new(true, false, 2, false, false);
    assert_eq!(p.ingest_step(Outcome::Success), IngestAction::Consume);
    assert_eq!(p.ingest_step(Outcome::Failure), IngestAction::Yield);
    assert_eq!(p.ingest_count(), 1);
    assert_eq!(p.ingest_step(Outcome::Success), IngestAction::Consume);
    assert_eq!(p.ingest_step(Outcome::Failure), IngestAction::Flush);
    assert_eq!(p.ingest_step(Outcome::Failure), IngestAction::Yield);
    assert_eq!(p.ingest_count(), 0);
}

#[test]
fn analysis_is_paced() {
    let mut p = Pipeline::new(false, false, 1000, true, false);
    assert_eq!(p.analysis_step(Outcome::Success), AnalysisAction::Analyse);
    let pause = p.analysis_step(Outcome::Success);
    assert_eq!(pause, AnalysisAction::Pause);
    assert_eq!(pause.sleep_secs(), 1);
    assert_eq!(p.analysis_phase(), AnalysisPhase::Pausing);
    assert_eq!(p.analysis_step(Outcome::Success), AnalysisAction::Analyse);
}
