use victron_controller_core::ids::{
    BookkeepingId, ControllerObservableId, PinnedStatus, TimerId, TimerStatus, ZappiDrainBranch,
};

#[test]
fn timer_names_and_descriptions() {
    assert_eq!(TimerId::all().len(), 18);
    assert_eq!(TimerId::OpenMeteo.name(), "timer.forecast.open-meteo");
    assert_eq!(TimerId::LgThinqPoller.name(), "timer.lg-thinq.poll");
    assert_eq!(TimerId::DbusReseedSettings.description(), "D-Bus reseed timer for the settings service");
    let names: Vec<&str> = TimerId::all().iter().map(|t| t.name()).collect();
    for (i, a) in names.iter().enumerate() {
        assert!(!names[i + 1..].contains(a), "duplicate timer name {a}");
    }
}

#[test]
fn status_and_observable_names() {
    assert_eq!(TimerStatus::FailedLastRun.name(), "failed_last_run");
    assert_eq!(PinnedStatus::Drifted.name(), "drifted");
    assert_eq!(ZappiDrainBranch::Bypass.name(), "Bypass");
    assert_eq!(ControllerObservableId::all().len(), 14);
    assert_eq!(ControllerObservableId::AppUptimeS.name(), "diagnostics.uptime-s");
    assert_eq!(ControllerObservableId::WeathersocActiveCell.name(), "weathersoc.active.cell");
    assert_eq!(BookkeepingId::SocEndOfDayTarget.name(), "battery.soc.target.end-of-day");
}

#[test]
fn timer_names_share_prefix_and_observables_have_no_slash() {
    assert_eq!(TimerId::ForecastSolcast.name(), "timer.forecast.solcast");
    for t in TimerId::all() {
        assert!(t.name().starts_with("timer."), "{}", t.name());
    }
    assert_eq!(ControllerObservableId::ZappiDrainCompensatedW.name(), "zappi-drain.compensated-w");
    let names: Vec<&str> = ControllerObservableId::all().iter().map(|o| o.name()).collect();
    for (i, a) in names.iter().enumerate() {
        assert!(!a.contains('/'), "{a}");
        assert!(!names[i + 1..].contains(a), "duplicate observable name {a}");
    }
}
