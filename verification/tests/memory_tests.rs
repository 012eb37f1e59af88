use donldr::memory::Memory;
use donldr::plan::partition;
use donldr::track::Status;

#[test]
fn placed_segments_assemble_in_index_order() {
    let ranges = partition(1000, 4);
    assert_eq!(ranges, vec![(0, 249), (250, 499), (500, 749), (750, 999)]);
    let mut dest = Memory::new(1000);
    let mut tracker = Status::new(4);
    let payloads: Vec<Vec<u8>> = (0..4u8).map(|i| vec![i + 1; 250]).collect();
    // arrival order differs from index order on purpose
    for &idx in &[2usize, 0, 3, 1] {
        dest.place(ranges[idx], &payloads[idx]);
        tracker.push(idx);
    }
    assert!(tracker.check());
    let mut expected: Vec<u8> = Vec::new();
    for p in &payloads {
        expected.extend_from_slice(p);
    }
    assert_eq!(dest.inner, expected);
}

#[test]
fn new_region_is_zeroed() {
    let m = Memory::new(3);
    assert_eq!(m.inner, vec![0, 0, 0]);
    assert_eq!(m.len(), 3);
}

#[test]
fn write_at_touches_only_its_window() {
    let mut m = Memory::new(10);
    m.write_at(3, &[7, 8, 9], 3);
    assert_eq!(m.inner, vec![0, 0, 0, 7, 8, 9, 0, 0, 0, 0]);
}

#[test]
fn copy_fill_replaces_only_the_prefix() {
    let mut m = Memory::new(5);
    m.write_at(4, &[9], 1);
    m.copy_fill(&[1, 2, 3, 4, 5, 6], 3);
    assert_eq!(m.inner, vec![1, 2, 3, 0, 9]);
}

#[test]
fn copy_fill_from_takes_leading_bytes() {
    let mut m = Memory::new(4);
    m.copy_fill_from(&[9, 8, 7, 6, 5]);
    assert_eq!(m.inner, vec![9, 8, 7, 6]);
}
