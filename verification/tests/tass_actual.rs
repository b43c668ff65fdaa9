use victron_controller_core::tass::{Actual, Freshness};
use victron_controller_core::time::{Duration, Instant};

fn start() -> Instant {
    Instant { nanos: 5_000_000_000 }
}

fn later(base: Instant, secs: u64) -> Instant {
    base.checked_add(Duration::from_secs(secs)).unwrap()
}

#[test]
fn unknown_starts_without_value() {
    let t0 = start();
    let a: Actual<i32> = Actual::unknown(t0);
    assert_eq!(a.value, None);
    assert_eq!(a.freshness, Freshness::Unknown);
    assert_eq!(a.since, t0);
    assert!(!a.is_usable());
}

#[test]
fn reading_transitions_unknown_to_fresh() {
    let t0 = start();
    let t1 = later(t0, 1);
    let mut a: Actual<i32> = Actual::unknown(t0);
    a.on_reading(42, t1);
    assert_eq!(a.value, Some(42));
    assert_eq!(a.freshness, Freshness::Fresh);
    assert_eq!(a.since, t1);
    assert!(a.is_usable());
}

#[test]
fn tick_within_threshold_keeps_fresh() {
    let t0 = start();
    let mut a: Actual<i32> = Actual::unknown(t0);
    a.on_reading(1, t0);
    a.tick(later(t0, 4), Duration::from_secs(5));
    assert_eq!(a.freshness, Freshness::Fresh);
}

#[test]
fn tick_past_threshold_decays_to_stale() {
    let t0 = start();
    let mut a: Actual<i32> = Actual::unknown(t0);
    a.on_reading(1, t0);
    a.tick(later(t0, 6), Duration::from_secs(5));
    assert_eq!(a.freshness, Freshness::Stale);
}

#[test]
fn tick_does_not_upgrade_stale_back_to_fresh() {
    let t0 = start();
    let mut a: Actual<i32> = Actual::unknown(t0);
    a.on_reading(1, t0);
    a.tick(later(t0, 6), Duration::from_secs(5));
    assert_eq!(a.freshness, Freshness::Stale);

    // Further ticks leave it Stale — only a reading can refresh.
    a.tick(later(t0, 20), Duration::from_secs(5));
    assert_eq!(a.freshness, Freshness::Stale);
}

#[test]
fn new_reading_after_stale_returns_to_fresh() {
    let t0 = start();
    let mut a: Actual<i32> = Actual::unknown(t0);
    a.on_reading(1, t0);
    a.tick(later(t0, 6), Duration::from_secs(5));
    assert_eq!(a.freshness, Freshness::Stale);

    a.on_reading(2, later(t0, 7));
    assert_eq!(a.freshness, Freshness::Fresh);
    assert_eq!(a.value, Some(2));
}

#[test]
fn tick_on_unknown_is_noop() {
    let t0 = start();
    let mut a: Actual<i32> = Actual::unknown(t0);
    a.tick(later(t0, 100), Duration::from_secs(5));
    assert_eq!(a.freshness, Freshness::Unknown);
}

#[test]
fn deprecate_transitions_fresh_to_deprecated() {
    let t0 = start();
    let mut a: Actual<i32> = Actual::unknown(t0);
    a.on_reading(1, t0);
    let t1 = later(t0, 2);
    a.deprecate(t1);
    assert_eq!(a.freshness, Freshness::Deprecated);
    assert_eq!(a.since, t1);
    assert_eq!(a.value, Some(1), "value preserved even when deprecated");
}

#[test]
fn deprecate_transitions_stale_to_deprecated() {
    let t0 = start();
    let mut a: Actual<i32> = Actual::unknown(t0);
    a.on_reading(1, t0);
    a.tick(later(t0, 6), Duration::from_secs(5));
    a.deprecate(later(t0, 7));
    assert_eq!(a.freshness, Freshness::Deprecated);
}

#[test]
fn deprecate_on_unknown_is_noop() {
    let t0 = start();
    let mut a: Actual<i32> = Actual::unknown(t0);
    a.deprecate(later(t0, 1));
    assert_eq!(a.freshness, Freshness::Unknown);
}

#[test]
fn deprecate_on_deprecated_is_noop() {
    let t0 = start();
    let mut a: Actual<i32> = Actual::unknown(t0);
    a.on_reading(1, t0);
    let t1 = later(t0, 1);
    a.deprecate(t1);
    a.deprecate(later(t1, 1));
    assert_eq!(a.since, t1, "since should not advance on no-op deprecate");
}

#[test]
fn reading_out_of_deprecated_returns_fresh() {
    let t0 = start();
    let mut a: Actual<i32> = Actual::unknown(t0);
    a.on_reading(1, t0);
    a.deprecate(later(t0, 1));
    a.on_reading(2, later(t0, 2));
    assert_eq!(a.freshness, Freshness::Fresh);
    assert_eq!(a.value, Some(2));
}

#[test]
fn is_usable_requires_fresh_and_value() {
    let t0 = start();
    let a_unknown: Actual<i32> = Actual::unknown(t0);
    assert!(!a_unknown.is_usable());

    let mut a_fresh: Actual<i32> = Actual::unknown(t0);
    a_fresh.on_reading(1, t0);
    assert!(a_fresh.is_usable());

    let mut a_stale = a_fresh;
    a_stale.tick(later(t0, 10), Duration::from_secs(1));
    assert!(!a_stale.is_usable());

    let mut a_dep = a_fresh;
    a_dep.deprecate(later(t0, 1));
    assert!(!a_dep.is_usable());
}

#[test]
fn tick_at_exact_threshold_stays_fresh() {
    let t0 = start();
    let mut a: Actual<i32> = Actual::unknown(t0);
    a.on_reading(1, t0);
    a.tick(later(t0, 5), Duration::from_secs(5));
    assert_eq!(a.freshness, Freshness::Fresh);
    let just_past = later(t0, 5).checked_add(Duration::from_millis(1)).unwrap();
    a.tick(just_past, Duration::from_secs(5));
    assert_eq!(a.freshness, Freshness::Stale);
}

#[test]
fn tick_with_clock_before_reading_stays_fresh() {
    let t0 = start();
    let mut a: Actual<i32> = Actual::unknown(t0);
    a.on_reading(1, later(t0, 10));
    a.tick(t0, Duration::zero());
    assert_eq!(a.freshness, Freshness::Fresh);
}
