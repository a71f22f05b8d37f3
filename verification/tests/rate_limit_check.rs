use scryfall_rs::RateLimit;

#[test]
fn new_sets_default_interval() {
    let rl = RateLimit::new(1234);
    assert_eq!(rl.limit, 50);
    assert_eq!(rl.last, 1234);
}

#[test]
fn consecutive_acquisitions_are_spaced() {
    // Two acquisitions with no intervening delay: the completion instants
    // the limiter computes lie at least the minimum interval apart.
    let mut rl = RateLimit::new(1000);
    let w1 = rl.check(1000);
    assert_eq!(w1, 50);
    let first_completion = rl.last;
    assert_eq!(first_completion, 1050);
    let w2 = rl.check(1050);
    assert_eq!(w2, 50);
    assert!(rl.last - first_completion >= 50);
    assert_eq!(rl.last, 1100);
}

#[test]
fn idle_limiter_waits_nothing() {
    let mut rl = RateLimit::new(0);
    let w = rl.check(500);
    assert_eq!(w, 0);
    assert_eq!(rl.last, 500);
}

#[test]
fn reading_at_the_deadline_waits_nothing() {
    let mut rl = RateLimit::new(100);
    let w = rl.check(150);
    assert_eq!(w, 0);
    assert_eq!(rl.last, 150);
}

#[test]
fn clock_reading_before_last_never_goes_negative() {
    // A reading that lands before the recorded completion instant yields a
    // longer wait, never a negative one.
    let mut rl = RateLimit::new(1000);
    let w = rl.check(900);
    assert_eq!(w, 150);
    assert_eq!(rl.last, 1050);
}
