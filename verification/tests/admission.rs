use shuttlings_cch24::admission::AdmissionController;

#[test]
fn a_new_bucket_is_full() {
    let bucket = AdmissionController::new(5, 1, 1000, 0).unwrap();
    assert_eq!(bucket.capacity(), 5);
    assert_eq!(bucket.available(), 5);
    assert_eq!(bucket.refill_rate(), 1);
    assert_eq!(bucket.interval_ms(), 1000);
}

#[test]
fn a_bucket_needs_positive_numbers() {
    assert!(AdmissionController::new(0, 1, 1000, 0).is_none());
    assert!(AdmissionController::new(5, 0, 1000, 0).is_none());
    assert!(AdmissionController::new(5, 1, 0, 0).is_none());
    assert!(AdmissionController::new(1, 1, 1, u64::MAX).is_some());
}

#[test]
fn five_units_then_none_until_an_interval_has_passed() {
    let mut bucket = AdmissionController::new(5, 1, 1000, 0).unwrap();
    for _ in 0..5 {
        assert!(bucket.try_acquire(1));
    }
    assert!(!bucket.try_acquire(1));
    assert_eq!(bucket.available(), 0);
    bucket.refill();
    assert!(bucket.try_acquire(1));
    assert!(!bucket.try_acquire(1));
}

#[test]
fn five_units_then_none_until_the_clock_has_moved_on() {
    let mut bucket = AdmissionController::new(5, 1, 1000, 10_000).unwrap();
    for _ in 0..5 {
        assert!(bucket.try_acquire_at(10_000, 1));
    }
    assert!(!bucket.try_acquire_at(10_000, 1));
    assert!(!bucket.try_acquire_at(10_999, 1));
    assert!(bucket.try_acquire_at(11_000, 1));
    assert!(!bucket.try_acquire_at(11_000, 1));
    assert!(!bucket.try_acquire_at(11_999, 1));
}

#[test]
fn a_refused_request_changes_nothing() {
    let mut bucket = AdmissionController::new(5, 1, 1000, 0).unwrap();
    assert!(bucket.try_acquire(3));
    assert_eq!(bucket.available(), 2);
    assert!(!bucket.try_acquire(3));
    assert_eq!(bucket.available(), 2);
    assert!(bucket.try_acquire(0));
    assert_eq!(bucket.available(), 2);
    assert!(bucket.try_acquire(2));
    assert_eq!(bucket.available(), 0);
    assert!(bucket.try_acquire(0));
    assert!(!bucket.try_acquire(u64::MAX));
}

#[test]
fn refill_stops_at_the_capacity() {
    let mut bucket = AdmissionController::new(5, 3, 1000, 0).unwrap();
    assert!(bucket.try_acquire(5));
    bucket.refill();
    assert_eq!(bucket.available(), 3);
    bucket.refill();
    assert_eq!(bucket.available(), 5);
    bucket.refill();
    assert_eq!(bucket.available(), 5);
}

#[test]
fn the_clock_refills_whole_intervals_and_keeps_the_rest() {
    let mut bucket = AdmissionController::new(10, 2, 250, 1_000).unwrap();
    assert!(bucket.try_acquire(10));
    bucket.refill_until(1_249);
    assert_eq!(bucket.available(), 0);
    bucket.refill_until(1_250);
    assert_eq!(bucket.available(), 2);
    // 1_250 is counted: 600 ms later two intervals are due, and 100 ms stay.
    bucket.refill_until(1_850);
    assert_eq!(bucket.available(), 6);
    bucket.refill_until(1_999);
    assert_eq!(bucket.available(), 6);
    bucket.refill_until(2_000);
    assert_eq!(bucket.available(), 8);
}

#[test]
fn the_clock_grants_no_interval_twice() {
    let mut once = AdmissionController::new(100, 1, 10, 0).unwrap();
    let mut twice = AdmissionController::new(100, 1, 10, 0).unwrap();
    assert!(once.try_acquire(100));
    assert!(twice.try_acquire(100));
    once.refill_until(257);
    twice.refill_until(123);
    twice.refill_until(257);
    twice.refill_until(257);
    assert_eq!(once.available(), 25);
    assert_eq!(twice.available(), 25);
}

#[test]
fn a_clock_that_runs_backwards_grants_nothing() {
    let mut bucket = AdmissionController::new(5, 1, 1000, 50_000).unwrap();
    assert!(bucket.try_acquire(5));
    bucket.refill_until(0);
    assert_eq!(bucket.available(), 0);
    bucket.refill_until(50_999);
    assert_eq!(bucket.available(), 0);
    bucket.refill_until(51_000);
    assert_eq!(bucket.available(), 1);
}

#[test]
fn a_long_pause_fills_the_bucket_without_overflow() {
    let mut bucket = AdmissionController::new(u64::MAX, u64::MAX, 1, 0).unwrap();
    assert!(bucket.try_acquire(u64::MAX));
    bucket.refill_until(u64::MAX);
    assert_eq!(bucket.available(), u64::MAX);
    let mut bucket = AdmissionController::new(7, 3, 1, 0).unwrap();
    assert!(bucket.try_acquire(7));
    bucket.refill_until(u64::MAX);
    assert_eq!(bucket.available(), 7);
}

#[test]
fn reset_to_full_fills_the_bucket_whatever_it_held() {
    let mut bucket = AdmissionController::new(5, 1, 1000, 0).unwrap();
    bucket.reset_to_full(None);
    assert_eq!(bucket.available(), 5);
    assert!(bucket.try_acquire(4));
    bucket.reset_to_full(None);
    assert_eq!(bucket.available(), 5);
    assert_eq!(bucket.capacity(), 5);
    assert!(bucket.try_acquire(5));
    bucket.reset_to_full(Some(8));
    assert_eq!(bucket.available(), 8);
    assert_eq!(bucket.capacity(), 8);
    bucket.reset_to_full(Some(2));
    assert_eq!(bucket.available(), 2);
    assert_eq!(bucket.capacity(), 2);
    assert_eq!(bucket.refill_rate(), 1);
    assert_eq!(bucket.interval_ms(), 1000);
}

#[test]
fn what_is_taken_never_exceeds_what_was_granted() {
    let mut bucket = AdmissionController::new(4, 2, 100, 0).unwrap();
    let mut taken: u64 = 0;
    let mut granted: u64 = bucket.available();
    let mut now: u64 = 0;
    for round in 0..200u64 {
        let amount = round % 4;
        if bucket.try_acquire(amount) {
            taken += amount;
        }
        assert!(bucket.available() <= bucket.capacity());
        let before = bucket.available();
        if round % 3 == 0 {
            bucket.refill();
        } else {
            now += 37 * (round % 5);
            bucket.refill_until(now);
        }
        granted += bucket.available() - before;
        assert!(bucket.available() <= bucket.capacity());
        assert!(taken <= granted);
        assert_eq!(taken + bucket.available(), granted);
    }
}
