use donldr::orchestrator::Orchestrator;
use donldr::orchestrator::TransferState;
use donldr::probe::Download;
use donldr::probe::ProbeResponse;
use donldr::progress;
use donldr::Errors;

#[test]
fn happy_path_reaches_done() {
    let mut o = Orchestrator::new();
    assert_eq!(o.state, TransferState::Probing);
    o.probe_succeeded();
    assert_eq!(o.state, TransferState::Planning);
    o.plan_ready(4);
    assert_eq!(o.state, TransferState::Transferring);
    assert!(!o.segment_placed(1));
    assert!(!o.segment_placed(0));
    assert!(!o.segment_placed(3));
    assert!(o.segment_placed(2));
    assert_eq!(o.state, TransferState::Finalizing);
    o.flush_succeeded();
    assert_eq!(o.state, TransferState::Done);
    assert_eq!(o.error, None);
}

#[test]
fn empty_plan_is_complete_at_once() {
    let mut o = Orchestrator::new();
    o.probe_succeeded();
    o.plan_ready(0);
    // nothing to place: the tracker reports completion on its own
    assert!(o.tracker.check());
}

#[test]
fn exhausted_chunk_cancels_the_rest() {
    // four chunks; chunk 2 exhausts its retries before anything is placed
    let mut o = Orchestrator::new();
    o.probe_succeeded();
    o.plan_ready(4);
    let cancel = o.chunk_failed(2, "connection reset".to_string());
    assert_eq!(cancel, vec![0, 1, 3]);
    assert_eq!(o.state, TransferState::Failed);
    match &o.error {
        Some(Errors::ChunkFetchFailed { index, .. }) => assert_eq!(*index, 2),
        _ => panic!("wrong terminal error"),
    }
    // the machine is parked in Failed; it never reported Done
    assert_ne!(o.state, TransferState::Done);
}

#[test]
fn placed_chunks_are_not_cancelled() {
    let mut o = Orchestrator::new();
    o.probe_succeeded();
    o.plan_ready(4);
    o.segment_placed(1);
    let cancel = o.chunk_failed(2, "timeout".to_string());
    assert_eq!(cancel, vec![0, 3]);
}

#[test]
fn denied_ranges_fail_before_any_fetcher_spawns() {
    let e = Download::new(
        "http://host/f".to_string(),
        "./".to_string(),
        4,
        ProbeResponse {
            content_length: Some(b"100".to_vec()),
            accept_ranges: Some(b"none".to_vec()),
        },
    )
    .unwrap_err();
    assert_eq!(e, Errors::UnsupportedRangeRequests);
    let mut o = Orchestrator::new();
    o.probe_failed(e);
    // failed while probing: Planning was never reached, so no plan was
    // fixed and no fetcher was spawned
    assert_eq!(o.state, TransferState::Failed);
    assert_eq!(o.error, Some(Errors::UnsupportedRangeRequests));
}

#[test]
fn placement_error_is_fatal_and_names_the_chunk() {
    let mut o = Orchestrator::new();
    o.probe_succeeded();
    o.plan_ready(2);
    let cancel = o.placement_failed(1, "disk full".to_string());
    assert_eq!(cancel, vec![0]);
    assert_eq!(o.state, TransferState::Failed);
    match &o.error {
        Some(Errors::PlacementFailed { index, .. }) => assert_eq!(*index, 1),
        _ => panic!("wrong terminal error"),
    }
}

#[test]
fn failed_transfer_never_reports_full_progress() {
    // chunk 2 of 4 never arrives: the aggregate total stays below size
    let mut s = progress::Status::new(vec![250, 250, 250, 250]);
    s.add_to(0, 250);
    s.add_to(1, 250);
    s.add_to(3, 250);
    assert!(s.get_total_written() < 1000);
}
