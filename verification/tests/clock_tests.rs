use bad_nights_sleep::clock::NightClock;

#[test]
fn clock_accumulates_deltas() {
    let mut c = NightClock::new();
    assert_eq!(c.elapsed_ms, 0);
    c.tick(16);
    c.tick(1_000);
    assert_eq!(c.elapsed_ms, 1_016);
}

#[test]
fn clock_saturates_instead_of_wrapping() {
    let mut c = NightClock::new();
    c.elapsed_ms = u64::MAX - 5;
    c.tick(10);
    assert_eq!(c.elapsed_ms, u64::MAX);
}

#[test]
fn expiry_is_strictly_after_the_sleep_duration() {
    let mut c = NightClock::new();
    c.tick(5_000);
    assert!(!c.has_expired(5_000));
    c.tick(1);
    assert!(c.has_expired(5_000));
}

#[test]
fn elapsed_whole_secs_truncates() {
    let mut c = NightClock::new();
    c.tick(6_999);
    assert_eq!(c.elapsed_whole_secs(), 6);
}
