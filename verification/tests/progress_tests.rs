use donldr::progress::threshold_exceeded;
use donldr::progress::Progress;
use donldr::progress::Status;

#[test]
fn counters_track_their_own_chunk() {
    let mut p = Progress::new(0, 100);
    p.add_prog(40);
    p.add_prog(10);
    assert_eq!(p.current, 50);
    assert_eq!(p.total, 100);
}

#[test]
fn totals_accumulate_across_chunks() {
    let mut s = Status::new(vec![250, 250, 250, 250]);
    assert_eq!(s.get_total_written(), 0);
    s.add_to(0, 100);
    s.add_to(2, 50);
    s.add_to(0, 150);
    assert_eq!(s.get_total_written(), 300);
    assert_eq!(s.progs[0].current, 250);
    assert_eq!(s.progs[1].current, 0);
    assert_eq!(s.progs[2].current, 50);
}

#[test]
fn snapshots_emit_only_past_one_percent() {
    assert!(!threshold_exceeded(10, 0, 1000));
    assert!(threshold_exceeded(11, 0, 1000));
    assert!(!threshold_exceeded(1000, 995, 1000));
    assert!(threshold_exceeded(500, 480, 1000));
}
