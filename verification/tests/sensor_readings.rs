use victron_controller_core::ids::ActuatedId;
use victron_controller_core::owner::Owner;
use victron_controller_core::process::{
    apply_kill_switch, apply_schedule_readback, apply_sensor_reading, SensorReadingOutcome,
};
use victron_controller_core::sensor::SensorId;
use victron_controller_core::tass::{Actuated, Freshness, TargetPhase};
use victron_controller_core::time::{Duration, Instant};
use victron_controller_core::world::{ActuatedSlots, Sensors};

type Slots = ActuatedSlots<i32, f64, u8, u8, (u8, u8)>;

const SETPOINT_TOLERANCE_W: i32 = 50;
const CURRENT_LIMIT_TOLERANCE_A: f64 = 0.5;

fn start() -> Instant {
    Instant { nanos: 3_000_000_000 }
}

fn later(base: Instant, secs: u64) -> Instant {
    base.checked_add(Duration::from_secs(secs)).unwrap()
}

/// The shell's range check for an MPPT operation-mode reading.
fn mode_in_range(v: f64) -> bool {
    v.is_finite() && (0.0..=5.0).contains(&v) && (v - v.round()).abs() < 1e-6
}

struct World {
    sensors: Sensors<f64>,
    ess: Actuated<i32>,
    actuated: Slots,
}

fn fresh(t0: Instant) -> World {
    World { sensors: Sensors::unknown(t0), ess: Actuated::new(t0), actuated: ActuatedSlots::new(t0) }
}

fn send(world: &mut World, id: SensorId, value: f64, at: Instant) -> SensorReadingOutcome {
    apply_sensor_reading(
        id,
        value,
        value as i32,
        mode_in_range(value),
        at,
        &mut world.sensors,
        &mut world.ess,
        &mut world.actuated,
        SETPOINT_TOLERANCE_W,
        |t: &f64, a: &f64| (*t - *a).abs() <= CURRENT_LIMIT_TOLERANCE_A,
    )
}

#[test]
fn sensor_event_updates_world_field() {
    let t0 = start();
    let mut world = fresh(t0);
    let r = send(&mut world, SensorId::BatterySoc, 77.5, t0);
    assert_eq!(r, SensorReadingOutcome::Recorded);
    assert_eq!(world.sensors.battery_soc.value, Some(77.5));
    assert_eq!(world.sensors.battery_soc.freshness, Freshness::Fresh);
}

#[test]
fn apply_sensor_reading_ev_soc_writes_field() {
    let t0 = start();
    let mut world = fresh(t0);
    send(&mut world, SensorId::EvSoc, 75.0, t0);
    assert_eq!(world.sensors.ev_soc.value, Some(75.0));
    assert_eq!(world.sensors.ev_soc.freshness, Freshness::Fresh);
}

#[test]
fn apply_sensor_reading_ev_charge_target_writes_field() {
    let t0 = start();
    let mut world = fresh(t0);
    send(&mut world, SensorId::EvChargeTarget, 90.0, t0);
    assert_eq!(world.sensors.ev_charge_target.value, Some(90.0));
    assert_eq!(world.sensors.ev_charge_target.freshness, Freshness::Fresh);
}

#[test]
fn mppt_operation_mode_out_of_enum_range_is_dropped() {
    for bad_value in [99.0_f64, -1.0, f64::NAN, f64::INFINITY, 5.5] {
        let t0 = start();
        let mut world = fresh(t0);
        assert_eq!(send(&mut world, SensorId::Mppt0OperationMode, bad_value, t0), SensorReadingOutcome::Dropped);
        assert!(
            world.sensors.mppt_0_operation_mode.value.is_none(),
            "Mppt0OperationMode: expected slot to remain None for value={bad_value}",
        );
        assert_eq!(send(&mut world, SensorId::Mppt1OperationMode, bad_value, t0), SensorReadingOutcome::Dropped);
        assert!(
            world.sensors.mppt_1_operation_mode.value.is_none(),
            "Mppt1OperationMode: expected slot to remain None for value={bad_value}",
        );
    }
    let t0 = start();
    let mut world = fresh(t0);
    send(&mut world, SensorId::Mppt0OperationMode, 1.0, t0);
    assert_eq!(world.sensors.mppt_0_operation_mode.value, Some(1.0));
}

/// Put a target in `Commanded`, as a controller tick and its write would.
fn commanded<V: PartialEq>(a: &mut Actuated<V>, value: V, at: Instant) {
    a.propose_target(value, Owner::SetpointController, at);
    a.mark_commanded(at);
    assert_eq!(a.target.phase, TargetPhase::Commanded);
}

#[test]
fn apply_event_grid_setpoint_actual_confirms_target() {
    let t0 = start();
    let mut world = fresh(t0);
    let target = -1500;
    commanded(&mut world.actuated.grid_setpoint, target, t0);
    // A reading on the actuated-mirror id, within the ±50 tolerance.
    let r = send(&mut world, SensorId::GridSetpointActual, f64::from(target + 12), t0);
    assert_eq!(world.actuated.grid_setpoint.target.phase, TargetPhase::Confirmed);
    assert_eq!(r, SensorReadingOutcome::Confirmed { id: ActuatedId::GridSetpoint, phase: TargetPhase::Confirmed });
}

#[test]
fn grid_setpoint_readback_out_of_tolerance_stays_commanded() {
    let t0 = start();
    let mut world = fresh(t0);
    commanded(&mut world.actuated.grid_setpoint, -1500, t0);
    let r = send(&mut world, SensorId::GridSetpointActual, -1400.0, later(t0, 1));
    assert_eq!(r, SensorReadingOutcome::Recorded);
    assert_eq!(world.actuated.grid_setpoint.target.phase, TargetPhase::Commanded);
    assert_eq!(world.actuated.grid_setpoint.actual.value, Some(-1400));
}

#[test]
fn apply_event_current_limit_actual_confirms_target() {
    let t0 = start();
    let mut world = fresh(t0);
    let target = 16.0;
    commanded(&mut world.actuated.input_current_limit, target, t0);
    let r = send(&mut world, SensorId::InputCurrentLimitActual, target + (CURRENT_LIMIT_TOLERANCE_A / 2.0), t0);
    assert_eq!(world.actuated.input_current_limit.target.phase, TargetPhase::Confirmed);
    assert_eq!(r, SensorReadingOutcome::Confirmed { id: ActuatedId::InputCurrentLimit, phase: TargetPhase::Confirmed });
}

#[test]
fn ess_state_reading_feeds_sensor_and_confirms_target() {
    let t0 = start();
    let mut world = fresh(t0);
    commanded(&mut world.ess, 9, t0);
    let r = send(&mut world, SensorId::EssState, 9.0, t0);
    assert_eq!(world.sensors.ess_state.value, Some(9.0));
    assert_eq!(r, SensorReadingOutcome::Confirmed { id: ActuatedId::EssStateTarget, phase: TargetPhase::Confirmed });
}

#[test]
fn apply_event_schedule_readback_confirms_target() {
    let t0 = start();
    let mut slots: Slots = ActuatedSlots::new(t0);
    let target = (2, 30);
    commanded(&mut slots.schedule_0, target, t0);
    assert_eq!(apply_schedule_readback(0, target, t0, &mut slots), Some(ActuatedId::Schedule0));
    assert_eq!(slots.schedule_0.target.phase, TargetPhase::Confirmed);
    // A mismatching readback of the other schedule only records it.
    commanded(&mut slots.schedule_1, (1, 1), t0);
    assert_eq!(apply_schedule_readback(1, (1, 2), t0, &mut slots), None);
    assert_eq!(slots.schedule_1.target.phase, TargetPhase::Commanded);
    // Unknown index: ignored.
    let before = slots.clone();
    assert_eq!(apply_schedule_readback(7, (0, 0), t0, &mut slots), None);
    assert_eq!(slots, before);
}

#[test]
fn kill_switch_false_to_true_resets_pending_targets_and_forces_rewrite_next_tick() {
    let t0 = start();
    let mut slots: Slots = ActuatedSlots::new(t0);
    let mut writes_enabled = false;
    commanded(&mut slots.grid_setpoint, -1000, t0);
    slots.grid_setpoint.on_reading(-990, t0);
    let t1 = later(t0, 5);
    assert!(apply_kill_switch(true, t1, &mut writes_enabled, &mut slots));
    assert!(writes_enabled);
    assert_eq!(slots.grid_setpoint.target.phase, TargetPhase::Unset);
    assert_eq!(slots.grid_setpoint.target.value, None);
    assert_eq!(slots.grid_setpoint.target.since, t1);
    assert_eq!(slots.grid_setpoint.actual.value, Some(-990));
    // The same value is proposed afresh after the reset.
    assert!(slots.grid_setpoint.propose_target(-1000, Owner::SetpointController, t1));
}

#[test]
fn kill_switch_true_to_true_is_noop() {
    let t0 = start();
    let mut slots: Slots = ActuatedSlots::new(t0);
    let mut writes_enabled = true;
    commanded(&mut slots.grid_setpoint, -1000, t0);
    assert!(!apply_kill_switch(true, later(t0, 1), &mut writes_enabled, &mut slots));
    assert_eq!(slots.grid_setpoint.target.phase, TargetPhase::Commanded, "no-op KillSwitch(true) must not reset targets");
    assert!(!apply_kill_switch(false, later(t0, 2), &mut writes_enabled, &mut slots));
    assert!(!writes_enabled);
    assert_eq!(slots.grid_setpoint.target.phase, TargetPhase::Commanded);
}
