use crates_pro::gate::PhaseGate;

#[test]
fn new_gate_is_free() {
    let g = PhaseGate::new();
    assert!(!g.is_held());
}

#[test]
fn export_takes_a_free_gate_and_releases_it() {
    let mut g = PhaseGate::new();
    assert!(g.try_acquire_export());
    assert!(g.is_held());
    assert!(!g.try_begin_work());
    assert!(!g.try_acquire_export());
    g.release_export();
    assert!(!g.is_held());
    assert!(g.try_begin_work());
}

#[test]
fn export_request_drains_workers() {
    let mut g = PhaseGate::new();
    assert!(g.try_begin_work());
    assert!(g.try_begin_work());
    assert!(!g.try_acquire_export());
    assert!(!g.is_held());
    assert!(!g.try_begin_work());
    g.end_work();
    assert!(!g.try_acquire_export());
    g.end_work();
    assert!(g.try_acquire_export());
    assert!(g.is_held());
}
