use luuma_cursor_helper::AtomicDebouncer;

#[test]
fn calls_spaced_by_the_interval_all_pass() {
    let mut debouncer = AtomicDebouncer::new(16);
    let times: Vec<u64> = vec![1_000, 1_016, 1_032, 1_100, 1_116, 5_000];
    for now in times {
        assert!(debouncer.should_check(now), "call at {} should pass", now);
    }
}

#[test]
fn burst_within_one_interval_passes_once() {
    let mut debouncer = AtomicDebouncer::new(16);
    assert!(debouncer.should_check(2_000));
    let mut passed = 0;
    for step in 0..1000u64 {
        let now = 2_000 + (step * 15) / 1000;
        if debouncer.should_check(now) {
            passed += 1;
        }
    }
    assert_eq!(passed, 0);
    assert!(!debouncer.should_check(2_015));
    assert!(debouncer.should_check(2_016));
    assert!(!debouncer.should_check(2_031));
}

#[test]
fn lookup_is_due_exactly_at_the_interval() {
    let mut debouncer = AtomicDebouncer::new(16);
    assert!(debouncer.should_check(100));
    assert!(!debouncer.should_check(115));
    assert!(debouncer.should_check(116));
    assert!(!debouncer.should_check(131));
    assert!(debouncer.should_check(132));
}

#[test]
fn closed_window_is_measured_from_the_last_pass() {
    let mut debouncer = AtomicDebouncer::new(16);
    assert!(debouncer.should_check(100));
    assert!(!debouncer.should_check(110));
    assert!(!debouncer.should_check(115));
    assert!(debouncer.should_check(117));
    assert!(!debouncer.should_check(126));
    assert!(debouncer.should_check(133));
}

#[test]
fn first_call_passes_once_the_clock_is_past_the_interval() {
    let mut fresh = AtomicDebouncer::new(16);
    assert!(fresh.should_check(16));
    let mut early = AtomicDebouncer::new(16);
    assert!(!early.should_check(5));
    assert!(!early.should_check(15));
    assert!(early.should_check(16));
}

#[test]
fn clock_that_runs_backwards_counts_as_no_time() {
    let mut debouncer = AtomicDebouncer::new(16);
    assert!(debouncer.should_check(1_000));
    assert!(!debouncer.should_check(10));
    assert!(!debouncer.should_check(999));
    assert!(debouncer.should_check(1_016));
}

#[test]
fn zero_interval_always_passes() {
    let mut debouncer = AtomicDebouncer::new(0);
    assert_eq!(debouncer.interval_ms(), 0);
    assert!(debouncer.should_check(0));
    assert!(debouncer.should_check(0));
    assert!(debouncer.should_check(7));
    assert!(debouncer.should_check(3));
}

#[test]
fn asking_whether_due_changes_nothing() {
    let mut debouncer = AtomicDebouncer::new(16);
    assert_eq!(debouncer.interval_ms(), 16);
    assert!(debouncer.is_due(500));
    assert!(debouncer.is_due(500));
    assert!(debouncer.should_check(500));
    assert!(!debouncer.is_due(515));
    assert!(debouncer.is_due(516));
    assert!(debouncer.should_check(516));
}

#[test]
fn largest_times_do_not_overflow() {
    let mut debouncer = AtomicDebouncer::new(u64::MAX);
    assert!(!debouncer.should_check(u64::MAX - 1));
    assert!(debouncer.should_check(u64::MAX));
    assert!(!debouncer.should_check(u64::MAX));
}

#[test]
fn equal_shapes_are_unchanged_and_each_transition_is_reported_once() {
    let mut debouncer = AtomicDebouncer::new(16);
    assert!(debouncer.has_changed(65539));
    assert!(!debouncer.has_changed(65539));
    assert!(!debouncer.has_changed(65539));
    assert!(debouncer.has_changed(65541));
    assert!(!debouncer.has_changed(65541));
    assert!(debouncer.has_changed(65539));
    assert!(!debouncer.has_changed(65539));
}

#[test]
fn first_real_shape_is_always_reported() {
    let mut debouncer = AtomicDebouncer::new(16);
    assert!(debouncer.has_changed(1));
    let mut other = AtomicDebouncer::new(16);
    assert!(other.has_changed(u64::MAX));
    let mut sentinel = AtomicDebouncer::new(16);
    assert!(!sentinel.has_changed(0));
    assert!(sentinel.has_changed(3));
}

#[test]
fn shape_memory_and_lookup_clock_are_independent() {
    let mut debouncer = AtomicDebouncer::new(16);
    assert!(debouncer.should_check(100));
    assert!(debouncer.has_changed(9));
    assert!(!debouncer.should_check(101));
    assert!(!debouncer.has_changed(9));
    assert!(debouncer.should_check(116));
}
