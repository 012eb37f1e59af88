use donldr::placer::Placer;
use donldr::plan::partition;

#[test]
fn placer_assembles_out_of_order_arrivals() {
    let ranges = partition(1000, 4);
    let mut p = Placer::new(1000, ranges);
    // arrival order 2, 0, 3, 1; completion only on the last one
    assert!(!p.place(2, &vec![3u8; 250]));
    assert!(!p.place(0, &vec![1u8; 250]));
    assert!(!p.place(3, &vec![4u8; 250]));
    assert!(p.place(1, &vec![2u8; 250]));
    assert!(p.tracker.check());
    let mut expected: Vec<u8> = Vec::new();
    for b in [1u8, 2, 3, 4] {
        expected.extend_from_slice(&vec![b; 250]);
    }
    assert_eq!(p.dest.inner, expected);
}

#[test]
fn replacing_a_segment_is_idempotent() {
    let ranges = partition(7, 3);
    let mut p = Placer::new(7, ranges);
    p.place(0, &[9, 9]);
    p.place(0, &[9, 9]);
    assert!(!p.tracker.check());
    p.place(1, &[8, 8]);
    assert!(p.place(2, &[7, 7, 7]));
    assert_eq!(p.dest.inner, vec![9, 9, 8, 8, 7, 7, 7]);
}

#[test]
fn unplaced_ranges_stay_zeroed() {
    let ranges = partition(10, 2);
    let mut p = Placer::new(10, ranges);
    p.place(1, &[5, 5, 5, 5, 5]);
    assert_eq!(p.dest.inner, vec![0, 0, 0, 0, 0, 5, 5, 5, 5, 5]);
    assert!(!p.tracker.check());
}
