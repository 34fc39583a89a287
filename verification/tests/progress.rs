use update_loader::progress::{make_lparam, ProgressTracker};

#[test]
fn lparam_packing_is_exact() {
    assert_eq!(make_lparam(0, 1000), 0x03E8_0000);
    assert_eq!(make_lparam(7, 2), 0x0002_0007);
    assert_eq!(make_lparam(0xFFFF, 0xFFFF), 0xFFFF_FFFF);
}

#[test]
fn exact_length_half_way_reports_half() {
    let mut tracker = ProgressTracker::new(Some(500_000));
    assert_eq!(tracker.permille(), 0);
    tracker.record_write(250_000);
    assert_eq!(tracker.permille(), 500);
}

#[test]
fn fallback_estimate_saturates_and_never_exceeds_full() {
    // No declared length: the 100 MiB fallback estimate is used. An actual
    // size of 40 MiB lands at 40% and never exceeds the top mid-transfer.
    let mut tracker = ProgressTracker::new(None);
    let chunk: u64 = 1024 * 1024;
    let mut previous: u16 = 0;
    for _ in 0..40 {
        tracker.record_write(chunk);
        let reported = tracker.permille();
        assert!(reported >= previous);
        assert!(reported <= 1000);
        previous = reported;
    }
    assert_eq!(tracker.permille(), 400);
}

#[test]
fn overshooting_the_estimate_clamps_at_full() {
    let mut tracker = ProgressTracker::new(Some(100));
    tracker.record_write(50);
    assert_eq!(tracker.permille(), 500);
    tracker.record_write(100);
    assert_eq!(tracker.permille(), 1000);
    tracker.record_write(10_000);
    assert_eq!(tracker.permille(), 1000);
}

#[test]
fn reports_never_decrease_within_a_session() {
    let mut tracker = ProgressTracker::new(Some(777));
    let mut previous: u16 = 0;
    for step in [1u64, 0, 13, 700, 1, 0, 500] {
        tracker.record_write(step);
        let reported = tracker.permille();
        assert!(reported >= previous);
        assert!(reported <= 1000);
        previous = reported;
    }
}

#[test]
fn the_total_is_marked_inexact_only_without_a_length_hint() {
    assert!(ProgressTracker::new(Some(500_000)).is_exact());
    assert!(!ProgressTracker::new(None).is_exact());
}

#[test]
fn zero_declared_length_counts_as_complete() {
    let tracker = ProgressTracker::new(Some(0));
    assert_eq!(tracker.permille(), 1000);
}
