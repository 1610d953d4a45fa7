use shuttlings_cch24::admission::AdmissionController;
use shuttlings_cch24::milk::{milk_bucket, serve, top_up, MilkReply, CUP};

#[test]
fn the_bar_s_bucket_gains_a_unit_per_interval() {
    let bucket = milk_bucket(5, 1, 0).unwrap();
    assert_eq!(bucket.capacity(), 5);
    assert_eq!(bucket.available(), 5);
    assert_eq!(bucket.refill_rate(), 1);
    assert_eq!(bucket.interval_ms(), 1000);
    assert!(milk_bucket(0, 1, 0).is_none());
    assert!(milk_bucket(5, 0, 0).is_none());
    assert!(milk_bucket(5, u64::MAX / 1000 + 1, 0).is_none());
    assert_eq!(milk_bucket(5, u64::MAX / 1000, 0).unwrap().interval_ms(), u64::MAX / 1000 * 1000);
}

#[test]
fn milk_is_withdrawn_while_the_bucket_holds_any() {
    let mut bucket = milk_bucket(5, 1, 0).unwrap();
    for _ in 0..5 {
        assert_eq!(serve(&mut bucket, 0, None, false), MilkReply::Withdrawn);
    }
    assert_eq!(serve(&mut bucket, 0, None, false), MilkReply::NoMilk);
    assert_eq!(serve(&mut bucket, 999, Some("application/json"), true), MilkReply::NoMilk);
    assert_eq!(serve(&mut bucket, 1000, None, false), MilkReply::Withdrawn);
    assert_eq!(serve(&mut bucket, 1000, None, false), MilkReply::NoMilk);
}

#[test]
fn a_quantity_is_converted_where_it_is_announced_and_can_be_read() {
    let mut bucket = milk_bucket(5, 1, 0).unwrap();
    assert_eq!(serve(&mut bucket, 0, Some("application/json"), true), MilkReply::Convert);
    assert_eq!(serve(&mut bucket, 0, Some("application/json"), false), MilkReply::BadRequest);
    assert_eq!(serve(&mut bucket, 0, Some("text/plain"), true), MilkReply::Withdrawn);
    assert_eq!(serve(&mut bucket, 0, Some("text/plain"), false), MilkReply::Withdrawn);
    assert_eq!(serve(&mut bucket, 0, None, true), MilkReply::Withdrawn);
    assert_eq!(bucket.available(), 0);
    assert_eq!(serve(&mut bucket, 0, Some("application/json"), false), MilkReply::NoMilk);
}

#[test]
fn a_bad_request_still_costs_a_unit() {
    let mut bucket = milk_bucket(2, 1, 0).unwrap();
    assert_eq!(serve(&mut bucket, 0, Some("application/json"), false), MilkReply::BadRequest);
    assert_eq!(bucket.available(), 1);
}

#[test]
fn replies_have_their_words() {
    assert_eq!(MilkReply::NoMilk.words(), Some("No milk available\n"));
    assert_eq!(MilkReply::Withdrawn.words(), Some("Milk withdrawn\n"));
    assert_eq!(MilkReply::Convert.words(), None);
    assert_eq!(MilkReply::BadRequest.words(), None);
}

#[test]
fn topping_up_fills_the_cup() {
    let mut bucket = milk_bucket(5, 1, 0).unwrap();
    for _ in 0..5 {
        serve(&mut bucket, 0, None, false);
    }
    assert_eq!(serve(&mut bucket, 0, None, false), MilkReply::NoMilk);
    top_up(&mut bucket, 0);
    assert_eq!(bucket.available(), CUP);
    assert_eq!(bucket.capacity(), 5);
    assert_eq!(serve(&mut bucket, 0, None, false), MilkReply::Withdrawn);
    let mut large = AdmissionController::new(100, 7, 250, 0).unwrap();
    top_up(&mut large, 0);
    assert_eq!(large.capacity(), 5);
    assert_eq!(large.available(), 5);
    assert_eq!(large.refill_rate(), 1);
    assert_eq!(large.interval_ms(), 1000);
}

#[test]
fn topping_up_starts_a_fresh_second() {
    let mut bucket = milk_bucket(5, 1, 0).unwrap();
    for _ in 0..5 {
        serve(&mut bucket, 0, None, false);
    }
    top_up(&mut bucket, 900);
    for _ in 0..5 {
        assert_eq!(serve(&mut bucket, 900, None, false), MilkReply::Withdrawn);
    }
    // The second that began before the top-up does not count.
    assert_eq!(serve(&mut bucket, 1_000, None, false), MilkReply::NoMilk);
    assert_eq!(serve(&mut bucket, 1_899, None, false), MilkReply::NoMilk);
    assert_eq!(serve(&mut bucket, 1_900, None, false), MilkReply::Withdrawn);
    assert_eq!(serve(&mut bucket, 1_900, None, false), MilkReply::NoMilk);
}

#[test]
fn the_bucket_refuses_when_a_limiter_of_the_same_size_does() {
    let limiter = leaky_bucket::RateLimiter::builder()
        .initial(5)
        .max(5)
        .interval(std::time::Duration::from_secs(3600))
        .build();
    let mut bucket = milk_bucket(5, 3600, 0).unwrap();
    for _ in 0..8 {
        assert_eq!(bucket.try_acquire_at(0, 1), limiter.try_acquire(1));
    }
    assert_eq!(bucket.available(), limiter.balance() as u64);
}
