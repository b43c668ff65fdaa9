//! Per-event state updates of the controller pipeline.

use vstd::prelude::*;

use vstd::std_specs::cmp::PartialEqSpec;

use crate::ids::ActuatedId;
use crate::sensor::{spec_freshness_threshold_secs, SensorId};
use crate::tass::{Actuated, Target, TargetPhase};
use crate::time::{Duration, Instant, NANOS_PER_SEC};
use crate::world::{ActuatedSlots, Sensors, TypedSensors};

verus! {

/// The Fresh→Stale threshold of a sensor, in nanoseconds.
pub open spec fn spec_threshold_nanos(id: SensorId) -> nat {
    spec_freshness_threshold_secs(id) * (NANOS_PER_SEC as nat)
}

/// Decay every scalar sensor observation against its own threshold.
fn tick_sensors<V>(at: Instant, sensors: &mut Sensors<V>)
    ensures
        final(sensors).battery_soc == old(sensors).battery_soc.spec_tick_after(at, spec_threshold_nanos(SensorId::BatterySoc)),
        final(sensors).battery_soh == old(sensors).battery_soh.spec_tick_after(at, spec_threshold_nanos(SensorId::BatterySoh)),
        final(sensors).battery_installed_capacity == old(sensors).battery_installed_capacity.spec_tick_after(at, spec_threshold_nanos(SensorId::BatteryInstalledCapacity)),
        final(sensors).battery_dc_power == old(sensors).battery_dc_power.spec_tick_after(at, spec_threshold_nanos(SensorId::BatteryDcPower)),
        final(sensors).mppt_power_0 == old(sensors).mppt_power_0.spec_tick_after(at, spec_threshold_nanos(SensorId::MpptPower0)),
        final(sensors).mppt_power_1 == old(sensors).mppt_power_1.spec_tick_after(at, spec_threshold_nanos(SensorId::MpptPower1)),
        final(sensors).soltaro_power == old(sensors).soltaro_power.spec_tick_after(at, spec_threshold_nanos(SensorId::SoltaroPower)),
        final(sensors).power_consumption == old(sensors).power_consumption.spec_tick_after(at, spec_threshold_nanos(SensorId::PowerConsumption)),
        final(sensors).grid_power == old(sensors).grid_power.spec_tick_after(at, spec_threshold_nanos(SensorId::GridPower)),
        final(sensors).grid_voltage == old(sensors).grid_voltage.spec_tick_after(at, spec_threshold_nanos(SensorId::GridVoltage)),
        final(sensors).grid_current == old(sensors).grid_current.spec_tick_after(at, spec_threshold_nanos(SensorId::GridCurrent)),
        final(sensors).consumption_current == old(sensors).consumption_current.spec_tick_after(at, spec_threshold_nanos(SensorId::ConsumptionCurrent)),
        final(sensors).offgrid_power == old(sensors).offgrid_power.spec_tick_after(at, spec_threshold_nanos(SensorId::OffgridPower)),
        final(sensors).offgrid_current == old(sensors).offgrid_current.spec_tick_after(at, spec_threshold_nanos(SensorId::OffgridCurrent)),
        final(sensors).vebus_input_current == old(sensors).vebus_input_current.spec_tick_after(at, spec_threshold_nanos(SensorId::VebusInputCurrent)),
        final(sensors).evcharger_ac_power == old(sensors).evcharger_ac_power.spec_tick_after(at, spec_threshold_nanos(SensorId::EvchargerAcPower)),
        final(sensors).evcharger_ac_current == old(sensors).evcharger_ac_current.spec_tick_after(at, spec_threshold_nanos(SensorId::EvchargerAcCurrent)),
        final(sensors).ess_state == old(sensors).ess_state.spec_tick_after(at, spec_threshold_nanos(SensorId::EssState)),
        final(sensors).outdoor_temperature == old(sensors).outdoor_temperature.spec_tick_after(at, spec_threshold_nanos(SensorId::OutdoorTemperature)),
        final(sensors).session_kwh == old(sensors).session_kwh.spec_tick_after(at, spec_threshold_nanos(SensorId::SessionKwh)),
        final(sensors).ev_soc == old(sensors).ev_soc.spec_tick_after(at, spec_threshold_nanos(SensorId::EvSoc)),
        final(sensors).ev_charge_target == old(sensors).ev_charge_target.spec_tick_after(at, spec_threshold_nanos(SensorId::EvChargeTarget)),
        final(sensors).heat_pump_power == old(sensors).heat_pump_power.spec_tick_after(at, spec_threshold_nanos(SensorId::HeatPumpPower)),
        final(sensors).cooker_power == old(sensors).cooker_power.spec_tick_after(at, spec_threshold_nanos(SensorId::CookerPower)),
        final(sensors).mppt_0_operation_mode == old(sensors).mppt_0_operation_mode.spec_tick_after(at, spec_threshold_nanos(SensorId::Mppt0OperationMode)),
        final(sensors).mppt_1_operation_mode == old(sensors).mppt_1_operation_mode.spec_tick_after(at, spec_threshold_nanos(SensorId::Mppt1OperationMode)),
{
    let d = SensorId::BatterySoc.freshness_threshold();
    sensors.battery_soc.tick(at, d);
    let d = SensorId::BatterySoh.freshness_threshold();
    sensors.battery_soh.tick(at, d);
    let d = SensorId::BatteryInstalledCapacity.freshness_threshold();
    sensors.battery_installed_capacity.tick(at, d);
    let d = SensorId::BatteryDcPower.freshness_threshold();
    sensors.battery_dc_power.tick(at, d);
    let d = SensorId::MpptPower0.freshness_threshold();
    sensors.mppt_power_0.tick(at, d);
    let d = SensorId::MpptPower1.freshness_threshold();
    sensors.mppt_power_1.tick(at, d);
    let d = SensorId::SoltaroPower.freshness_threshold();
    sensors.soltaro_power.tick(at, d);
    let d = SensorId::PowerConsumption.freshness_threshold();
    sensors.power_consumption.tick(at, d);
    let d = SensorId::GridPower.freshness_threshold();
    sensors.grid_power.tick(at, d);
    let d = SensorId::GridVoltage.freshness_threshold();
    sensors.grid_voltage.tick(at, d);
    let d = SensorId::GridCurrent.freshness_threshold();
    sensors.grid_current.tick(at, d);
    let d = SensorId::ConsumptionCurrent.freshness_threshold();
    sensors.consumption_current.tick(at, d);
    let d = SensorId::OffgridPower.freshness_threshold();
    sensors.offgrid_power.tick(at, d);
    let d = SensorId::OffgridCurrent.freshness_threshold();
    sensors.offgrid_current.tick(at, d);
    let d = SensorId::VebusInputCurrent.freshness_threshold();
    sensors.vebus_input_current.tick(at, d);
    let d = SensorId::EvchargerAcPower.freshness_threshold();
    sensors.evcharger_ac_power.tick(at, d);
    let d = SensorId::EvchargerAcCurrent.freshness_threshold();
    sensors.evcharger_ac_current.tick(at, d);
    let d = SensorId::EssState.freshness_threshold();
    sensors.ess_state.tick(at, d);
    let d = SensorId::OutdoorTemperature.freshness_threshold();
    sensors.outdoor_temperature.tick(at, d);
    let d = SensorId::SessionKwh.freshness_threshold();
    sensors.session_kwh.tick(at, d);
    let d = SensorId::EvSoc.freshness_threshold();
    sensors.ev_soc.tick(at, d);
    let d = SensorId::EvChargeTarget.freshness_threshold();
    sensors.ev_charge_target.tick(at, d);
    let d = SensorId::HeatPumpPower.freshness_threshold();
    sensors.heat_pump_power.tick(at, d);
    let d = SensorId::CookerPower.freshness_threshold();
    sensors.cooker_power.tick(at, d);
    let d = SensorId::Mppt0OperationMode.freshness_threshold();
    sensors.mppt_0_operation_mode.tick(at, d);
    let d = SensorId::Mppt1OperationMode.freshness_threshold();
    sensors.mppt_1_operation_mode.tick(at, d);
}

/// What [`tick_sensors`] gives, per sensor id.
proof fn lemma_tick_sensors_by_id<V>(old_s: Sensors<V>, new_s: Sensors<V>, at: Instant)
    requires
        new_s.battery_soc == old_s.battery_soc.spec_tick_after(at, spec_threshold_nanos(SensorId::BatterySoc)),
        new_s.battery_soh == old_s.battery_soh.spec_tick_after(at, spec_threshold_nanos(SensorId::BatterySoh)),
        new_s.battery_installed_capacity == old_s.battery_installed_capacity.spec_tick_after(at, spec_threshold_nanos(SensorId::BatteryInstalledCapacity)),
        new_s.battery_dc_power == old_s.battery_dc_power.spec_tick_after(at, spec_threshold_nanos(SensorId::BatteryDcPower)),
        new_s.mppt_power_0 == old_s.mppt_power_0.spec_tick_after(at, spec_threshold_nanos(SensorId::MpptPower0)),
        new_s.mppt_power_1 == old_s.mppt_power_1.spec_tick_after(at, spec_threshold_nanos(SensorId::MpptPower1)),
        new_s.soltaro_power == old_s.soltaro_power.spec_tick_after(at, spec_threshold_nanos(SensorId::SoltaroPower)),
        new_s.power_consumption == old_s.power_consumption.spec_tick_after(at, spec_threshold_nanos(SensorId::PowerConsumption)),
        new_s.grid_power == old_s.grid_power.spec_tick_after(at, spec_threshold_nanos(SensorId::GridPower)),
        new_s.grid_voltage == old_s.grid_voltage.spec_tick_after(at, spec_threshold_nanos(SensorId::GridVoltage)),
        new_s.grid_current == old_s.grid_current.spec_tick_after(at, spec_threshold_nanos(SensorId::GridCurrent)),
        new_s.consumption_current == old_s.consumption_current.spec_tick_after(at, spec_threshold_nanos(SensorId::ConsumptionCurrent)),
        new_s.offgrid_power == old_s.offgrid_power.spec_tick_after(at, spec_threshold_nanos(SensorId::OffgridPower)),
        new_s.offgrid_current == old_s.offgrid_current.spec_tick_after(at, spec_threshold_nanos(SensorId::OffgridCurrent)),
        new_s.vebus_input_current == old_s.vebus_input_current.spec_tick_after(at, spec_threshold_nanos(SensorId::VebusInputCurrent)),
        new_s.evcharger_ac_power == old_s.evcharger_ac_power.spec_tick_after(at, spec_threshold_nanos(SensorId::EvchargerAcPower)),
        new_s.evcharger_ac_current == old_s.evcharger_ac_current.spec_tick_after(at, spec_threshold_nanos(SensorId::EvchargerAcCurrent)),
        new_s.ess_state == old_s.ess_state.spec_tick_after(at, spec_threshold_nanos(SensorId::EssState)),
        new_s.outdoor_temperature == old_s.outdoor_temperature.spec_tick_after(at, spec_threshold_nanos(SensorId::OutdoorTemperature)),
        new_s.session_kwh == old_s.session_kwh.spec_tick_after(at, spec_threshold_nanos(SensorId::SessionKwh)),
        new_s.ev_soc == old_s.ev_soc.spec_tick_after(at, spec_threshold_nanos(SensorId::EvSoc)),
        new_s.ev_charge_target == old_s.ev_charge_target.spec_tick_after(at, spec_threshold_nanos(SensorId::EvChargeTarget)),
        new_s.heat_pump_power == old_s.heat_pump_power.spec_tick_after(at, spec_threshold_nanos(SensorId::HeatPumpPower)),
        new_s.cooker_power == old_s.cooker_power.spec_tick_after(at, spec_threshold_nanos(SensorId::CookerPower)),
        new_s.mppt_0_operation_mode == old_s.mppt_0_operation_mode.spec_tick_after(at, spec_threshold_nanos(SensorId::Mppt0OperationMode)),
        new_s.mppt_1_operation_mode == old_s.mppt_1_operation_mode.spec_tick_after(at, spec_threshold_nanos(SensorId::Mppt1OperationMode)),
    ensures
        forall|id: SensorId| #[trigger] old_s.spec_slot(id) matches Some(a) ==>
            new_s.spec_slot(id) == Some(a.spec_tick_after(at, spec_threshold_nanos(id))),
{
}

/// Freshness decay on a tick at `at`.
///
/// Every scalar sensor observation decays against its own sensor's
/// threshold. The myenergi readings and the Zappi/Eddi mode readbacks
/// share the myenergi poller's window `myenergi`. The other actuated
/// readbacks decay against the threshold of the sensor that mirrors them
/// (the `Start` leaf for a schedule). Targets are untouched.
///
/// The per-day extended-charge flag is cleared when the date it was
/// stamped for is not today (`stamped_today` is that comparison, made by
/// the caller against its local clock). The daily auto-extended-charge
/// evaluation that follows a tick compares float readings and is not
/// part of this function.
pub fn apply_tick<V, ZS, EM, F, G, C, Z, E, S>(
    at: Instant,
    sensors: &mut Sensors<V>,
    typed: &mut TypedSensors<ZS, EM, F>,
    actuated: &mut ActuatedSlots<G, C, Z, E, S>,
    myenergi: Duration,
    stamped_today: bool,
    extended_today: &mut bool,
)
    ensures
        forall|id: SensorId| #[trigger] old(sensors).spec_slot(id) matches Some(a) ==>
            final(sensors).spec_slot(id) == Some(a.spec_tick_after(at, spec_threshold_nanos(id))),
        final(typed).zappi_state == old(typed).zappi_state.spec_tick(at, myenergi),
        final(typed).eddi_mode == old(typed).eddi_mode.spec_tick(at, myenergi),
        final(typed).forecast_solcast == old(typed).forecast_solcast,
        final(typed).forecast_forecast_solar == old(typed).forecast_forecast_solar,
        final(typed).forecast_open_meteo == old(typed).forecast_open_meteo,
        final(typed).forecast_baseline == old(typed).forecast_baseline,
        final(actuated).grid_setpoint == old(actuated).grid_setpoint.spec_tick_after(
            at,
            spec_threshold_nanos(SensorId::GridSetpointActual),
        ),
        final(actuated).input_current_limit == old(actuated).input_current_limit.spec_tick_after(
            at,
            spec_threshold_nanos(SensorId::InputCurrentLimitActual),
        ),
        final(actuated).zappi_mode == old(actuated).zappi_mode.spec_tick(at, myenergi),
        final(actuated).eddi_mode == old(actuated).eddi_mode.spec_tick(at, myenergi),
        final(actuated).schedule_0 == old(actuated).schedule_0.spec_tick_after(
            at,
            spec_threshold_nanos(SensorId::Schedule0StartActual),
        ),
        final(actuated).schedule_1 == old(actuated).schedule_1.spec_tick_after(
            at,
            spec_threshold_nanos(SensorId::Schedule1StartActual),
        ),
        *final(extended_today) == (*old(extended_today) && stamped_today),
{
    let ghost old_sensors = *sensors;
    tick_sensors(at, sensors);
    proof {
        lemma_tick_sensors_by_id(old_sensors, *sensors, at);
    }

    typed.zappi_state.tick(at, myenergi);
    typed.eddi_mode.tick(at, myenergi);

    actuated.grid_setpoint.tick(at, SensorId::GridSetpointActual.freshness_threshold());
    actuated.input_current_limit.tick(at, SensorId::InputCurrentLimitActual.freshness_threshold());
    actuated.zappi_mode.tick(at, myenergi);
    actuated.eddi_mode.tick(at, myenergi);
    actuated.schedule_0.tick(at, SensorId::Schedule0StartActual.freshness_threshold());
    actuated.schedule_1.tick(at, SensorId::Schedule1StartActual.freshness_threshold());

    if !stamped_today {
        *extended_today = false;
    }
}


/// What a scalar sensor reading led to.
#[derive(Clone, Copy, Debug, PartialEq, Eq, Structural)]
pub enum SensorReadingOutcome {
    /// The reading was recorded; no target changed phase.
    Recorded,
    /// The reading was recorded and confirmed the target of `id`, which is
    /// now in `phase`; the caller publishes that phase.
    Confirmed { id: ActuatedId, phase: TargetPhase },
    /// An MPPT operation-mode reading outside its integer enum range
    /// `[0, 5]`: dropped, and the caller logs a warning.
    Dropped,
}

/// `|target - actual| <= tolerance`, in whole units.
pub open spec fn spec_within(target: i32, actual: i32, tolerance: i32) -> bool {
    -(tolerance as int) <= target - actual <= tolerance as int
}

/// The grid-setpoint confirmation rule: a readback is within tolerance of
/// the target exactly when it lies no more than `tolerance` watts below or
/// above it.
pub proof fn lemma_within_is_two_sided(target: i32, actual: i32, tolerance: i32)
    ensures
        spec_within(target, actual, tolerance) <==> (actual >= target - tolerance && actual <= target + tolerance),
        tolerance >= 0 ==> spec_within(target, target, tolerance),
        !spec_within(target, actual, tolerance) <==> (actual > target + tolerance || actual < target - tolerance),
{
}

/// The state after recording `value` on an actuated readback and trying
/// to confirm its target with a predicate that answered `close`.
pub open spec fn spec_record_and_confirm<T>(a: Actuated<T>, value: T, at: Instant, close: bool) -> Actuated<T> {
    let b = a.spec_on_reading(value, at);
    if b.spec_confirm_applies() && close {
        b.spec_confirmed(at)
    } else {
        b
    }
}

/// Recording a readback and trying to confirm: the actual side always
/// becomes a fresh reading of `value` at `at`; the target keeps its value
/// and owner, and turns `Confirmed` (stamped `at`) exactly when it was a
/// commanded value and the predicate said the two are close; otherwise it
/// is left as it was.
pub proof fn lemma_record_and_confirm<T>(a: Actuated<T>, value: T, at: Instant, close: bool)
    ensures
        ({
            let r = spec_record_and_confirm(a, value, at, close);
            &&& r.actual.value == Some(value)
            &&& r.actual.freshness is Fresh
            &&& r.actual.since == at
            &&& r.target.value == a.target.value
            &&& r.target.owner == a.target.owner
            &&& (a.target.phase is Commanded && a.target.value is Some && close) ==> r.target.phase is Confirmed
                && r.target.since == at
            &&& !(a.target.phase is Commanded && a.target.value is Some && close) ==> r.target == a.target
        }),
{
}

/// Whether `id` is one of the two MPPT operation-mode sensors.
pub open spec fn spec_is_mppt_mode(id: SensorId) -> bool {
    id is Mppt0OperationMode || id is Mppt1OperationMode
}

/// Apply a scalar sensor reading.
///
/// The reading lands in the sensor's own slot (`value`). An MPPT
/// operation-mode reading lands only when `mode_in_range` (the caller's
/// check that it is an integer in `[0, 5]`); otherwise it is dropped.
/// Readings that mirror an actuated entity then feed its actual side and
/// try to confirm its target:
/// - `EssState` feeds the ESS-state target with `whole` (the reading
///   truncated to an integer), confirmed on equality;
/// - `GridSetpointActual` feeds the grid setpoint with `whole`, confirmed
///   within `setpoint_tolerance_w`;
/// - `InputCurrentLimitActual` feeds the current limit with `value`,
///   confirmed when `current_close(target, actual)` holds.
/// Schedule leaves confirm through their own rolled-up readback, so they
/// and the remaining sensors touch no actuated entity.
pub fn apply_sensor_reading<V: Copy, Z, E, S, CL: FnOnce(&V, &V) -> bool>(
    id: SensorId,
    value: V,
    whole: i32,
    mode_in_range: bool,
    at: Instant,
    sensors: &mut Sensors<V>,
    ess_state_target: &mut Actuated<i32>,
    actuated: &mut ActuatedSlots<i32, V, Z, E, S>,
    setpoint_tolerance_w: i32,
    current_close: CL,
) -> (r: SensorReadingOutcome)
    requires
        forall|t: &V, a: &V| current_close.requires((t, a)),
    ensures
        !spec_is_mppt_mode(id) || mode_in_range ==> *final(sensors) == old(sensors).spec_on_reading(id, value, at),
        spec_is_mppt_mode(id) && !mode_in_range ==> *final(sensors) == *old(sensors) && r is Dropped,
        id is EssState ==> {
            let e = old(ess_state_target).spec_on_reading(whole, at);
            let close = e.spec_confirm_applies() && e.target.value->0 == e.actual.value->0;
            &&& *final(ess_state_target) == spec_record_and_confirm(*old(ess_state_target), whole, at, close)
            &&& close ==> r == SensorReadingOutcome::Confirmed { id: ActuatedId::EssStateTarget, phase: TargetPhase::Confirmed }
            &&& !close ==> r is Recorded
        },
        !(id is EssState) ==> *final(ess_state_target) == *old(ess_state_target),
        id is EssState ==> ((r is Confirmed) <==> (old(ess_state_target).target.phase is Commanded && old(
            ess_state_target,
        ).target.value == Some(whole))),
        id is GridSetpointActual ==> {
            let g = old(actuated).grid_setpoint.spec_on_reading(whole, at);
            let close = g.spec_confirm_applies() && spec_within(
                g.target.value->0,
                g.actual.value->0,
                setpoint_tolerance_w,
            );
            &&& *final(actuated) == (ActuatedSlots {
                grid_setpoint: spec_record_and_confirm(old(actuated).grid_setpoint, whole, at, close),
                ..*old(actuated)
            })
            &&& close ==> r == SensorReadingOutcome::Confirmed { id: ActuatedId::GridSetpoint, phase: TargetPhase::Confirmed }
            &&& !close ==> r is Recorded
        },
        id is GridSetpointActual ==> ((r is Confirmed) <==> {
            let t = old(actuated).grid_setpoint.target;
            &&& t.phase is Commanded
            &&& t.value is Some
            &&& t.value->0 - whole <= setpoint_tolerance_w
            &&& whole - t.value->0 <= setpoint_tolerance_w
        }),
        id is GridSetpointActual && r is Confirmed ==> final(actuated).grid_setpoint.target.phase is Confirmed,
        id is GridSetpointActual && !(r is Confirmed) ==> final(actuated).grid_setpoint.target == old(
            actuated,
        ).grid_setpoint.target,
        id is InputCurrentLimitActual ==> {
            let c = old(actuated).input_current_limit.spec_on_reading(value, at);
            let confirmed = r is Confirmed;
            &&& *final(actuated) == (ActuatedSlots {
                input_current_limit: spec_record_and_confirm(old(actuated).input_current_limit, value, at, confirmed),
                ..*old(actuated)
            })
            &&& c.spec_confirm_applies() ==> current_close.ensures((&c.target.value->0, &c.actual.value->0), confirmed)
            &&& !c.spec_confirm_applies() ==> r is Recorded
            &&& confirmed ==> r == SensorReadingOutcome::Confirmed {
                id: ActuatedId::InputCurrentLimit,
                phase: TargetPhase::Confirmed,
            }
            &&& !confirmed ==> r is Recorded
        },
        !(id is GridSetpointActual) && !(id is InputCurrentLimitActual) ==> *final(actuated) == *old(actuated),
        !(id is EssState) && !(id is GridSetpointActual) && !(id is InputCurrentLimitActual) && !(
        spec_is_mppt_mode(id) && !mode_in_range) ==> r is Recorded,
{
    let is_mode = match id {
        SensorId::Mppt0OperationMode | SensorId::Mppt1OperationMode => true,
        _ => false,
    };
    if is_mode && !mode_in_range {
        return SensorReadingOutcome::Dropped;
    }
    sensors.on_reading(id, value, at);
    match id {
        SensorId::EssState => {
            ess_state_target.on_reading(whole, at);
            let same = |t: &i32, a: &i32| -> (b: bool)
                ensures
                    b == (*t == *a),
                { *t == *a };
            let confirmed = ess_state_target.confirm_if(same, at);
            if confirmed {
                SensorReadingOutcome::Confirmed { id: ActuatedId::EssStateTarget, phase: ess_state_target.target.phase }
            } else {
                SensorReadingOutcome::Recorded
            }
        },
        SensorId::GridSetpointActual => {
            actuated.grid_setpoint.on_reading(whole, at);
            let tol = setpoint_tolerance_w;
            let within = |t: &i32, a: &i32| -> (b: bool)
                ensures
                    b == spec_within(*t, *a, tol),
                {
                    let d: i64 = *t as i64 - *a as i64;
                    -(tol as i64) <= d && d <= tol as i64
                };
            let confirmed = actuated.grid_setpoint.confirm_if(within, at);
            if confirmed {
                SensorReadingOutcome::Confirmed { id: ActuatedId::GridSetpoint, phase: actuated.grid_setpoint.target.phase }
            } else {
                SensorReadingOutcome::Recorded
            }
        },
        SensorId::InputCurrentLimitActual => {
            actuated.input_current_limit.on_reading(value, at);
            let confirmed = actuated.input_current_limit.confirm_if(current_close, at);
            if confirmed {
                SensorReadingOutcome::Confirmed {
                    id: ActuatedId::InputCurrentLimit,
                    phase: actuated.input_current_limit.target.phase,
                }
            } else {
                SensorReadingOutcome::Recorded
            }
        },
        _ => SensorReadingOutcome::Recorded,
    }
}


/// Apply a rolled-up schedule readback for schedule `index` (0 or 1): it
/// feeds the schedule's actual side and confirms its target when the two
/// are equal. Any other index is ignored. Returns the schedule's id when
/// its target was confirmed, for the caller to publish the new phase.
pub fn apply_schedule_readback<G, C, Z, E, S: PartialEq>(
    index: u8,
    value: S,
    at: Instant,
    actuated: &mut ActuatedSlots<G, C, Z, E, S>,
) -> (r: Option<ActuatedId>)
    ensures
        index == 0 ==> {
            let s = old(actuated).schedule_0.spec_on_reading(value, at);
            &&& S::obeys_eq_spec() ==> (r is Some <==> (s.spec_confirm_applies() && s.target.value->0.eq_spec(
                &s.actual.value->0,
            )))
            &&& *final(actuated) == (ActuatedSlots {
                schedule_0: spec_record_and_confirm(old(actuated).schedule_0, value, at, r is Some),
                ..*old(actuated)
            })
            &&& r is Some ==> r == Some(ActuatedId::Schedule0) && s.spec_confirm_applies()
        },
        index == 1 ==> {
            let s = old(actuated).schedule_1.spec_on_reading(value, at);
            &&& S::obeys_eq_spec() ==> (r is Some <==> (s.spec_confirm_applies() && s.target.value->0.eq_spec(
                &s.actual.value->0,
            )))
            &&& *final(actuated) == (ActuatedSlots {
                schedule_1: spec_record_and_confirm(old(actuated).schedule_1, value, at, r is Some),
                ..*old(actuated)
            })
            &&& r is Some ==> r == Some(ActuatedId::Schedule1) && s.spec_confirm_applies()
        },
        index > 1 ==> *final(actuated) == *old(actuated) && r is None,
{
    let same = |t: &S, a: &S| -> (b: bool)
        ensures
            S::obeys_eq_spec() ==> b == t.eq_spec(a),
        { t.eq(a) };
    if index == 0 {
        actuated.schedule_0.on_reading(value, at);
        if actuated.schedule_0.confirm_if(same, at) {
            Some(ActuatedId::Schedule0)
        } else {
            None
        }
    } else if index == 1 {
        actuated.schedule_1.on_reading(value, at);
        if actuated.schedule_1.confirm_if(same, at) {
            Some(ActuatedId::Schedule1)
        } else {
            None
        }
    } else {
        None
    }
}

/// Apply the kill switch. `writes_enabled` takes the new state; on the
/// off→on edge every actuated target is reset to `Unset` at `at`, so the
/// controllers propose afresh and emit fresh writes, and `true` is
/// returned for the caller to publish the six `Unset` phases. The caller
/// publishes the new switch state in either case.
pub fn apply_kill_switch<G, C, Z, E, S>(
    enabled: bool,
    at: Instant,
    writes_enabled: &mut bool,
    actuated: &mut ActuatedSlots<G, C, Z, E, S>,
) -> (reset: bool)
    ensures
        *final(writes_enabled) == enabled,
        reset == (!*old(writes_enabled) && enabled),
        reset ==> {
            &&& final(actuated).grid_setpoint == (Actuated { target: Target::spec_unset(at), ..old(actuated).grid_setpoint })
            &&& final(actuated).input_current_limit == (Actuated {
                target: Target::spec_unset(at),
                ..old(actuated).input_current_limit
            })
            &&& final(actuated).zappi_mode == (Actuated { target: Target::spec_unset(at), ..old(actuated).zappi_mode })
            &&& final(actuated).eddi_mode == (Actuated { target: Target::spec_unset(at), ..old(actuated).eddi_mode })
            &&& final(actuated).schedule_0 == (Actuated { target: Target::spec_unset(at), ..old(actuated).schedule_0 })
            &&& final(actuated).schedule_1 == (Actuated { target: Target::spec_unset(at), ..old(actuated).schedule_1 })
        },
        !reset ==> *final(actuated) == *old(actuated),
{
    let prev = *writes_enabled;
    *writes_enabled = enabled;
    if !prev && enabled {
        actuated.grid_setpoint.reset_to_unset(at);
        actuated.input_current_limit.reset_to_unset(at);
        actuated.zappi_mode.reset_to_unset(at);
        actuated.eddi_mode.reset_to_unset(at);
        actuated.schedule_0.reset_to_unset(at);
        actuated.schedule_1.reset_to_unset(at);
        true
    } else {
        false
    }
}

} // verus!
