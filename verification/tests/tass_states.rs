use victron_controller_core::tass::{Freshness, TargetPhase, Timestamped};
use victron_controller_core::time::Instant;

#[test]
fn only_fresh_is_usable() {
    assert!(!Freshness::Unknown.is_usable());
    assert!(Freshness::Fresh.is_usable());
    assert!(!Freshness::Stale.is_usable());
    assert!(!Freshness::Deprecated.is_usable());
}

#[test]
fn is_outstanding_is_accurate() {
    assert!(!TargetPhase::Unset.is_outstanding());
    assert!(TargetPhase::Pending.is_outstanding());
    assert!(TargetPhase::Commanded.is_outstanding());
    assert!(!TargetPhase::Confirmed.is_outstanding());
}

#[test]
fn construction_preserves_fields() {
    let t0 = Instant { nanos: 123_456_789 };
    let ts = Timestamped::new(42_i32, t0);
    assert_eq!(ts.value, 42);
    assert_eq!(ts.since, t0);
}
