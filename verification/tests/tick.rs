use victron_controller_core::ids::ForecastProvider;
use victron_controller_core::process::apply_tick;
use victron_controller_core::sensor::SensorId;
use victron_controller_core::tass::{Freshness, TargetPhase};
use victron_controller_core::owner::Owner;
use victron_controller_core::time::{Duration, Instant};
use victron_controller_core::world::{ActuatedSlots, Sensors, TypedSensors};

type Slots = ActuatedSlots<i32, i64, u8, u8, (u8, u8)>;

fn start() -> Instant {
    Instant { nanos: 7_000_000_000 }
}

fn later(base: Instant, secs: u64) -> Instant {
    base.checked_add(Duration::from_secs(secs)).unwrap()
}

fn fresh_world(t0: Instant) -> (Sensors<f64>, TypedSensors<u8, u8, u32>, Slots) {
    (Sensors::unknown(t0), TypedSensors::unknown(t0), ActuatedSlots::new(t0))
}

#[test]
fn tick_decays_sensor_freshness_fresh_to_stale() {
    let t0 = start();
    let (mut sensors, mut typed, mut actuated) = fresh_world(t0);
    sensors.battery_soc.on_reading(80.0, t0);
    assert_eq!(sensors.battery_soc.freshness, Freshness::Fresh);

    // Must exceed SensorId::BatterySoc.freshness_threshold() (120 s).
    let mut extended = false;
    apply_tick(later(t0, 130), &mut sensors, &mut typed, &mut actuated, Duration::from_secs(300), true, &mut extended);
    assert_eq!(sensors.battery_soc.freshness, Freshness::Stale);
}

#[test]
fn tick_uses_each_sensors_own_threshold() {
    let t0 = start();
    let (mut sensors, mut typed, mut actuated) = fresh_world(t0);
    sensors.battery_soc.on_reading(80.0, t0); // 120 s
    sensors.grid_power.on_reading(-400.0, t0); // 15 s
    sensors.ev_soc.on_reading(55.0, t0); // 12 h
    let mut extended = false;
    apply_tick(later(t0, 60), &mut sensors, &mut typed, &mut actuated, Duration::from_secs(300), true, &mut extended);
    assert_eq!(sensors.battery_soc.freshness, Freshness::Fresh);
    assert_eq!(sensors.grid_power.freshness, Freshness::Stale);
    assert_eq!(sensors.ev_soc.freshness, Freshness::Fresh);
    assert_eq!(sensors.grid_power.value, Some(-400.0));
    // Unknown slots stay Unknown.
    assert_eq!(sensors.cooker_power.freshness, Freshness::Unknown);
}

#[test]
fn tick_decays_actuated_readbacks_and_myenergi_window() {
    let t0 = start();
    let (mut sensors, mut typed, mut actuated) = fresh_world(t0);
    actuated.grid_setpoint.propose_target(-1000, Owner::SetpointController, t0);
    actuated.grid_setpoint.on_reading(-1000, t0); // 15 s threshold
    actuated.schedule_0.on_reading((1, 2), t0); // 180 s threshold
    actuated.zappi_mode.on_reading(3, t0); // myenergi window
    typed.zappi_state.on_reading(4, t0);
    typed.forecast_solcast = Some(17);
    let mut extended = true;
    apply_tick(later(t0, 100), &mut sensors, &mut typed, &mut actuated, Duration::from_secs(90), true, &mut extended);
    assert_eq!(actuated.grid_setpoint.actual.freshness, Freshness::Stale);
    assert_eq!(actuated.grid_setpoint.target.phase, TargetPhase::Pending);
    assert_eq!(actuated.schedule_0.actual.freshness, Freshness::Fresh);
    assert_eq!(actuated.zappi_mode.actual.freshness, Freshness::Stale);
    assert_eq!(typed.zappi_state.freshness, Freshness::Stale);
    assert_eq!(typed.forecast(ForecastProvider::Solcast), Some(&17));
    assert_eq!(typed.forecast(ForecastProvider::OpenMeteo), None);
    assert!(extended);
}

#[test]
fn tick_clears_extended_flag_when_stamped_for_another_day() {
    let t0 = start();
    let (mut sensors, mut typed, mut actuated) = fresh_world(t0);
    let mut extended = true;
    apply_tick(later(t0, 1), &mut sensors, &mut typed, &mut actuated, Duration::from_secs(300), false, &mut extended);
    assert!(!extended);
    let mut not_extended = false;
    apply_tick(later(t0, 2), &mut sensors, &mut typed, &mut actuated, Duration::from_secs(300), true, &mut not_extended);
    assert!(!not_extended);
}

#[test]
fn sensors_by_id_reads_slots_and_mirrors_read_unknown() {
    let t0 = start();
    let mut sensors: Sensors<f64> = Sensors::unknown(t0);
    sensors.session_kwh.on_reading(4.5, later(t0, 3));
    let a = sensors.by_id(SensorId::SessionKwh);
    assert_eq!(a.value, Some(4.5));
    assert_eq!(a.freshness, Freshness::Fresh);
    let m = sensors.by_id(SensorId::GridSetpointActual);
    assert_eq!(m.value, None);
    assert_eq!(m.freshness, Freshness::Unknown);
    assert_eq!(m.since, t0);
}
