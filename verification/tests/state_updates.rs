use chrono::NaiveDate;
use victron_controller_core::bookkeeping::{
    apply_bookkeeping, apply_set_bookkeeping, BookkeepingDates, BookkeepingEffect, BookkeepingValue,
};
use victron_controller_core::decision::Decision;
use victron_controller_core::text::decimal;
use victron_controller_core::ids::{BookkeepingKey, LogLevel, TimerId, TimerStatus};
use victron_controller_core::time::{Duration, Instant};
use victron_controller_core::timezone::{apply_timezone, TimezoneOutcome, TimezoneState};
use victron_controller_core::world::{apply_timer_state, Timers};

fn noon() -> chrono::NaiveDateTime {
    NaiveDate::from_ymd_opt(2026, 4, 26).unwrap().and_hms_opt(17, 0, 0).unwrap()
}

#[test]
fn timer_state_infers_period_from_fire_spacing() {
    let mut timers = Timers::new();
    assert!(timers.get(TimerId::MyenergiPoller).is_none());
    apply_timer_state(&mut timers, TimerId::MyenergiPoller, 1_000, Some(301_000), TimerStatus::Idle);
    let e = timers.get(TimerId::MyenergiPoller).unwrap();
    assert_eq!(e.period, Duration::from_secs(300));
    assert_eq!(e.last_fire_epoch_ms, Some(1_000));
    assert_eq!(e.next_fire_epoch_ms, Some(301_000));
    assert_eq!(e.status, TimerStatus::Idle);

    // A one-shot completion keeps the period seen before.
    apply_timer_state(&mut timers, TimerId::MyenergiPoller, 301_000, None, TimerStatus::FailedLastRun);
    let e = timers.get(TimerId::MyenergiPoller).unwrap();
    assert_eq!(e.period, Duration::from_secs(300));
    assert_eq!(e.next_fire_epoch_ms, None);
    assert_eq!(e.status, TimerStatus::FailedLastRun);

    // Other timers are untouched; a first sighting without spacing has a zero period.
    assert!(timers.get(TimerId::OpenMeteo).is_none());
    apply_timer_state(&mut timers, TimerId::MqttBootstrap, 5, Some(5), TimerStatus::Running);
    assert_eq!(timers.get(TimerId::MqttBootstrap).unwrap().period, Duration::zero());
    assert_eq!(timers.get(TimerId::MyenergiPoller).unwrap().last_fire_epoch_ms, Some(301_000));
}

#[test]
fn bookkeeping_restore_applies_matching_shapes_only() {
    let mut dates = BookkeepingDates::fresh_boot();
    apply_bookkeeping(BookkeepingKey::NextFullCharge, BookkeepingValue::NaiveDateTime(noon()), &mut dates);
    assert_eq!(dates.next_full_charge, Some(noon()));
    let day = NaiveDate::from_ymd_opt(2026, 4, 21).unwrap();
    apply_bookkeeping(BookkeepingKey::AboveSocDate, BookkeepingValue::NaiveDate(day), &mut dates);
    assert_eq!(dates.above_soc_date, Some(day));
    // Shape mismatch: dropped.
    apply_bookkeeping(BookkeepingKey::NextFullCharge, BookkeepingValue::NaiveDate(day), &mut dates);
    assert_eq!(dates.next_full_charge, Some(noon()));
    apply_bookkeeping(BookkeepingKey::AboveSocDate, BookkeepingValue::Cleared, &mut dates);
    assert_eq!(dates.above_soc_date, None);
}

#[test]
fn bookkeeping_command_seeds_world_bookkeeping() {
    let mut dates = BookkeepingDates::fresh_boot();
    let restored_dt = NaiveDate::from_ymd_opt(2026, 4, 26).unwrap().and_hms_opt(17, 0, 0).unwrap();
    let restored_date = NaiveDate::from_ymd_opt(2026, 4, 21).unwrap();
    apply_bookkeeping(BookkeepingKey::NextFullCharge, BookkeepingValue::NaiveDateTime(restored_dt), &mut dates);
    assert_eq!(dates.next_full_charge, Some(restored_dt));
    apply_bookkeeping(BookkeepingKey::AboveSocDate, BookkeepingValue::NaiveDate(restored_date), &mut dates);
    assert_eq!(dates.above_soc_date, Some(restored_date));
    // Cleared variant resets to None.
    apply_bookkeeping(BookkeepingKey::AboveSocDate, BookkeepingValue::Cleared, &mut dates);
    assert_eq!(dates.above_soc_date, None);
}

#[test]
fn set_bookkeeping_next_full_charge_writes_field_and_persists() {
    let mut dates = BookkeepingDates::fresh_boot();
    let effects = apply_set_bookkeeping(
        BookkeepingKey::NextFullCharge,
        BookkeepingValue::NaiveDateTime(noon()),
        &mut dates,
    );
    assert_eq!(dates.next_full_charge, Some(noon()));
    assert_eq!(effects.len(), 2);
    assert_eq!(
        effects[0],
        BookkeepingEffect::Publish {
            key: BookkeepingKey::NextFullCharge,
            value: BookkeepingValue::NaiveDateTime(noon()),
        }
    );
    match &effects[1] {
        BookkeepingEffect::Log(log) => {
            assert_eq!(log.level, LogLevel::Info);
            assert_eq!(log.source, "bookkeeping.edit");
            assert!(log.message.starts_with("SetBookkeeping accepted"));
        }
        other => panic!("expected a log, got {other:?}"),
    }
}

#[test]
fn set_bookkeeping_next_full_charge_cleared_sets_none() {
    let mut dates = BookkeepingDates::fresh_boot();
    dates.next_full_charge = Some(noon());
    let effects =
        apply_set_bookkeeping(BookkeepingKey::NextFullCharge, BookkeepingValue::Cleared, &mut dates);
    assert_eq!(dates.next_full_charge, None);
    assert_eq!(effects.len(), 2);
}

#[test]
fn set_bookkeeping_rejects_unsupported_keys() {
    let mut dates = BookkeepingDates::fresh_boot();
    let day = NaiveDate::from_ymd_opt(2026, 4, 21).unwrap();
    let effects =
        apply_set_bookkeeping(BookkeepingKey::AboveSocDate, BookkeepingValue::NaiveDate(day), &mut dates);
    assert_eq!(dates.above_soc_date, None);
    assert_eq!(effects.len(), 1);
    match &effects[0] {
        BookkeepingEffect::Log(log) => {
            assert_eq!(log.level, LogLevel::Warn);
            assert_eq!(log.source, "process::command");
            assert!(log.message.starts_with("SetBookkeeping rejected"));
        }
        other => panic!("expected a log, got {other:?}"),
    }
}

#[test]
fn set_bookkeeping_rejects_type_mismatch() {
    let mut dates = BookkeepingDates::fresh_boot();
    let day = NaiveDate::from_ymd_opt(2026, 4, 21).unwrap();
    let effects =
        apply_set_bookkeeping(BookkeepingKey::NextFullCharge, BookkeepingValue::NaiveDate(day), &mut dates);
    assert_eq!(dates.next_full_charge, None);
    assert_eq!(effects.len(), 1);
}

#[test]
fn event_timezone_updates_world_and_handle() {
    let mut state = TimezoneState::fresh_boot();
    assert_eq!(state.timezone, "Etc/UTC");
    assert!(state.timezone_updated_at.is_none());
    let at = Instant { nanos: 12 };
    match apply_timezone("Europe/London", at, &mut state) {
        TimezoneOutcome::Applied(tz) => assert_eq!(tz, chrono_tz::Europe::London),
        other => panic!("expected Applied, got {other:?}"),
    }
    assert_eq!(state.timezone, "Europe/London");
    assert_eq!(state.timezone_updated_at, Some(at));
}

#[test]
fn event_timezone_invalid_logs_warn_and_leaves_state() {
    let mut state = TimezoneState::fresh_boot();
    let at = Instant { nanos: 12 };
    let _ = apply_timezone("Europe/London", at, &mut state);
    let before = state.clone();
    match apply_timezone("Not/A/Real/Zone", Instant { nanos: 99 }, &mut state) {
        TimezoneOutcome::Rejected(log) => {
            assert_eq!(log.level, LogLevel::Warn);
            assert_eq!(log.source, "timezone");
            assert!(log.message.contains("Not/A/Real/Zone"));
        }
        other => panic!("expected Rejected, got {other:?}"),
    }
    assert_eq!(state, before);
}

#[test]
fn decision_collects_factors_in_order() {
    let d = Decision::new("Setpoint held".to_string())
        .with_factor("soc".to_string(), "75".to_string())
        .with_factor("grid_cap_post_W".to_string(), "-2000".to_string());
    assert_eq!(d.summary, "Setpoint held");
    assert_eq!(d.factors.len(), 2);
    assert_eq!(d.factors[0].name, "soc");
    assert_eq!(d.factors[1].value, "-2000");
}

#[test]
fn time_arithmetic() {
    let d = Duration::from_secs(2).checked_add(Duration::from_millis(500)).unwrap();
    assert_eq!(d.as_nanos(), 2_500_000_000);
    assert_eq!(d.as_secs(), 2);
    assert_eq!(Duration::from_secs(5).checked_mul(3), Some(Duration::from_secs(15)));
    assert_eq!(Duration::from_secs(u64::MAX).checked_mul(2), None);
    let t = Instant { nanos: 10 };
    assert_eq!(t.saturating_duration_since(Instant { nanos: 20 }), Duration::zero());
    assert_eq!(Instant { nanos: u64::MAX }.checked_add(Duration::from_secs(1)), None);
}

#[test]
fn bookkeeping_and_timezone_messages_have_exact_text() {
    let mut dates = BookkeepingDates::fresh_boot();
    let effects = apply_set_bookkeeping(BookkeepingKey::NextFullCharge, BookkeepingValue::NaiveDateTime(noon()), &mut dates);
    match &effects[1] {
        BookkeepingEffect::Log(log) => {
            assert_eq!(log.message, "SetBookkeeping accepted: (NextFullCharge, NaiveDateTime(2026-04-26T17:00:00))")
        }
        other => panic!("expected a log, got {other:?}"),
    }
    let day = NaiveDate::from_ymd_opt(2026, 4, 21).unwrap();
    let effects = apply_set_bookkeeping(BookkeepingKey::AboveSocDate, BookkeepingValue::NaiveDate(day), &mut dates);
    match &effects[0] {
        BookkeepingEffect::Log(log) => assert_eq!(log.message, "SetBookkeeping rejected: (AboveSocDate, NaiveDate(2026-04-21))"),
        other => panic!("expected a log, got {other:?}"),
    }
    let mut state = TimezoneState::fresh_boot();
    match apply_timezone("Not/A/Real/Zone", Instant { nanos: 1 }, &mut state) {
        TimezoneOutcome::Rejected(log) => assert_eq!(
            log.message,
            "invalid TZ from Victron: \"Not/A/Real/Zone\" — failed to parse timezone; keeping previous"
        ),
        other => panic!("expected Rejected, got {other:?}"),
    }
}

#[test]
fn decimal_text_of_integers() {
    assert_eq!(decimal(0), "0");
    assert_eq!(decimal(7), "7");
    assert_eq!(decimal(120), "120");
    assert_eq!(decimal(u64::MAX), u64::MAX.to_string());
}
