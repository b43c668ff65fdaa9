//! The core's world state: sensor observations, actuated entities,
//! per-tick derivations, per-core observability, controller decisions,
//! the publish dedup cache and the timer table.

use vstd::prelude::*;

use crate::decision::Decision;
use crate::ids::{BookkeepingId, ForecastProvider, TimerId, TimerStatus};
use crate::sensor::SensorId;
use crate::tass::{Actual, Actuated};
use crate::time::{Duration, Instant, NANOS_PER_MILLI};

verus! {

/// Pure per-tick derivations, recomputed every tick from sensors.
#[derive(Clone, Copy, Debug, PartialEq, Eq, Structural)]
pub struct DerivedState {
    /// Whether the Zappi charger is currently pulling power.
    pub zappi_active: bool,
}

impl Default for DerivedState {
    fn default() -> (r: Self)
        ensures
            !r.zappi_active,
    {
        DerivedState { zappi_active: false }
    }
}

/// Name/value pair surfaced in a core's input/output lists.
#[derive(Clone, Debug, PartialEq, Eq)]
pub struct CoreFactor {
    pub id: String,
    pub value: String,
}

/// Per-core observability snapshot, filled after each core runs.
#[derive(Clone, Debug, PartialEq)]
pub struct CoreState {
    pub id: String,
    pub depends_on: Vec<String>,
    pub last_run_outcome: String,
    /// For derivation cores, the stringified derived value.
    pub last_payload: Option<String>,
    /// Live values the core read on the most recent tick.
    pub last_inputs: Vec<CoreFactor>,
    /// Live values the core wrote on the most recent tick.
    pub last_outputs: Vec<CoreFactor>,
}

#[derive(Clone, Debug, PartialEq)]
pub struct CoresState {
    pub cores: Vec<CoreState>,
    /// Canonical topological run order of the cores.
    pub topo_order: Vec<String>,
}

impl Default for CoresState {
    fn default() -> (r: Self)
        ensures
            r.cores@.len() == 0,
            r.topo_order@.len() == 0,
    {
        CoresState { cores: Vec::new(), topo_order: Vec::new() }
    }
}

/// Latest "why?" explanation per controller.
#[derive(Clone, Debug, PartialEq)]
pub struct Decisions {
    pub grid_setpoint: Option<Decision>,
    pub input_current_limit: Option<Decision>,
    pub schedule_0: Option<Decision>,
    pub schedule_1: Option<Decision>,
    pub zappi_mode: Option<Decision>,
    pub eddi_mode: Option<Decision>,
    pub weather_soc: Option<Decision>,
}

impl Default for Decisions {
    fn default() -> (r: Self)
        ensures
            r.grid_setpoint is None,
            r.input_current_limit is None,
            r.schedule_0 is None,
            r.schedule_1 is None,
            r.zappi_mode is None,
            r.eddi_mode is None,
            r.weather_soc is None,
    {
        Decisions {
            grid_setpoint: None,
            input_current_limit: None,
            schedule_0: None,
            schedule_1: None,
            zappi_mode: None,
            eddi_mode: None,
            weather_soc: None,
        }
    }
}

/// Last-published snapshot per sensor and bookkeeping field, so quiet
/// values are not republished every tick. Sensors compare on the encoded
/// wire body; numeric bookkeeping on the bit pattern of the value.
#[derive(Clone, Debug, PartialEq)]
pub struct PublishedCache {
    pub sensors: std::collections::HashMap<SensorId, String>,
    pub bookkeeping_numeric: std::collections::HashMap<BookkeepingId, u64>,
    pub bookkeeping_bool: std::collections::HashMap<BookkeepingId, bool>,
}

impl Default for PublishedCache {
    fn default() -> (r: Self)
        ensures
            r.sensors@.len() == 0,
            r.bookkeeping_numeric@.len() == 0,
            r.bookkeeping_bool@.len() == 0,
    {
        PublishedCache {
            sensors: std::collections::HashMap::new(),
            bookkeeping_numeric: std::collections::HashMap::new(),
            bookkeeping_bool: std::collections::HashMap::new(),
        }
    }
}

/// One per-timer entry.
#[derive(Clone, Copy, Debug, PartialEq, Eq, Structural)]
pub struct TimerEntry {
    /// Expected period between fires; zero for one-shot timers.
    pub period: Duration,
    /// Wall-clock epoch-ms of the last fire (`None` until the first fire).
    pub last_fire_epoch_ms: Option<i64>,
    /// Wall-clock epoch-ms of the projected next fire.
    pub next_fire_epoch_ms: Option<i64>,
    pub status: TimerStatus,
}

/// Per-timer observability snapshot, updated from timer-state events.
#[derive(Clone, Debug, PartialEq)]
pub struct Timers {
    entries: Vec<(TimerId, TimerEntry)>,
}

/// The entry recorded for `id`: the last one in `s` with that key.
pub open spec fn spec_find_timer(s: Seq<(TimerId, TimerEntry)>, id: TimerId) -> Option<TimerEntry>
    decreases s.len(),
{
    if s.len() == 0 {
        None
    } else if s.last().0 == id {
        Some(s.last().1)
    } else {
        spec_find_timer(s.drop_last(), id)
    }
}

/// Replacing the entry found for `id` changes what is found for `id` and
/// nothing else.
proof fn lemma_find_after_update(
    s: Seq<(TimerId, TimerEntry)>,
    i: int,
    id: TimerId,
    e: TimerEntry,
    other: TimerId,
)
    requires
        0 <= i < s.len(),
        s[i].0 == id,
        forall|j: int| i < j < s.len() ==> s[j].0 != id,
    ensures
        spec_find_timer(s.update(i, (id, e)), id) == Some(e),
        other != id ==> spec_find_timer(s.update(i, (id, e)), other) == spec_find_timer(s, other),
    decreases s.len(),
{
    let t = s.update(i, (id, e));
    if i == s.len() - 1 {
        assert(t.drop_last() =~= s.drop_last());
    } else {
        assert(t.drop_last() =~= s.drop_last().update(i, (id, e)));
        lemma_find_after_update(s.drop_last(), i, id, e, other);
    }
}

impl Timers {
    /// What the table records for each timer.
    pub closed spec fn spec_get(&self, id: TimerId) -> Option<TimerEntry> {
        spec_find_timer(self.entries@, id)
    }

    /// An empty table.
    pub fn new() -> (r: Self)
        ensures
            forall|id: TimerId| r.spec_get(id) is None,
    {
        Timers { entries: Vec::new() }
    }

    /// The entry for `id`, if one was ever recorded.
    pub fn get(&self, id: TimerId) -> (r: Option<TimerEntry>)
        ensures
            r == self.spec_get(id),
    {
        let mut i = self.entries.len();
        assert(self.entries@.subrange(0, i as int) =~= self.entries@);
        while i > 0
            invariant
                i <= self.entries@.len(),
                spec_find_timer(self.entries@, id) == spec_find_timer(
                    self.entries@.subrange(0, i as int),
                    id,
                ),
            decreases i,
        {
            let ghost prefix = self.entries@.subrange(0, i as int);
            assert(prefix.drop_last() =~= self.entries@.subrange(0, i - 1));
            if self.entries[i - 1].0 == id {
                return Some(self.entries[i - 1].1);
            }
            i = i - 1;
        }
        None
    }

    /// Store `e` as the entry for `id`, leaving every other timer's entry
    /// unchanged.
    pub fn set(&mut self, id: TimerId, e: TimerEntry)
        ensures
            final(self).spec_get(id) == Some(e),
            forall|other: TimerId|
                other != id ==> final(self).spec_get(other) == old(self).spec_get(other),
    {
        let mut i = self.entries.len();
        while i > 0
            invariant
                i <= self.entries@.len(),
                self.entries@ == old(self).entries@,
                forall|j: int| i <= j < self.entries@.len() ==> self.entries@[j].0 != id,
            decreases i,
        {
            if self.entries[i - 1].0 == id {
                let ghost s = self.entries@;
                self.entries.set(i - 1, (id, e));
                proof {
                    assert forall|other: TimerId| other != id implies spec_find_timer(
                        self.entries@,
                        other,
                    ) == spec_find_timer(s, other) by {
                        lemma_find_after_update(s, i - 1, id, e, other);
                    }
                    lemma_find_after_update(s, i - 1, id, e, id);
                }
                return;
            }
            i = i - 1;
        }
        let ghost s = self.entries@;
        self.entries.push((id, e));
        proof {
            assert(self.entries@.drop_last() =~= s);
        }
    }
}

/// The entry a timer-state event leaves behind: last and next fire times
/// and status are taken from the event; the period is inferred from the
/// spacing between last and next fire when next is later, and otherwise
/// kept from the previous entry (zero for a timer seen for the first time).
pub open spec fn spec_timer_entry_after(
    previous: Option<TimerEntry>,
    entry: TimerEntry,
    last_fire_epoch_ms: i64,
    next_fire_epoch_ms: Option<i64>,
    status: TimerStatus,
) -> bool {
    &&& entry.last_fire_epoch_ms == Some(last_fire_epoch_ms)
    &&& entry.next_fire_epoch_ms == next_fire_epoch_ms
    &&& entry.status == status
    &&& match next_fire_epoch_ms {
        Some(next) if next > last_fire_epoch_ms => entry.period@ == (next - last_fire_epoch_ms)
            * NANOS_PER_MILLI,
        _ => match previous {
            Some(p) => entry.period == p.period,
            None => entry.period@ == 0,
        },
    }
}

/// Upsert the entry for `id` from a timer-state event. The period is
/// preserved across updates unless the event's next fire lies after its
/// last fire, in which case it is inferred from their spacing.
pub fn apply_timer_state(
    timers: &mut Timers,
    id: TimerId,
    last_fire_epoch_ms: i64,
    next_fire_epoch_ms: Option<i64>,
    status: TimerStatus,
)
    requires
        (match next_fire_epoch_ms {
            Some(next) => next > last_fire_epoch_ms ==> next - last_fire_epoch_ms <= i64::MAX,
            None => true,
        }),
    ensures
        final(timers).spec_get(id) matches Some(e) && spec_timer_entry_after(
            old(timers).spec_get(id),
            e,
            last_fire_epoch_ms,
            next_fire_epoch_ms,
            status,
        ),
        forall|other: TimerId|
            other != id ==> final(timers).spec_get(other) == old(timers).spec_get(other),
{
    let previous = timers.get(id);
    let period = match previous {
        Some(p) => p.period,
        None => Duration::zero(),
    };
    let period = match next_fire_epoch_ms {
        Some(next) => {
            if next > last_fire_epoch_ms {
                let spacing: i64 = next - last_fire_epoch_ms;
                let dur_ms: u64 = if spacing >= 0 {
                    spacing as u64
                } else {
                    0
                };
                Duration::from_millis(dur_ms)
            } else {
                period
            }
        },
        None => period,
    };
    let entry = TimerEntry {
        period,
        last_fire_epoch_ms: Some(last_fire_epoch_ms),
        next_fire_epoch_ms,
        status,
    };
    timers.set(id, entry);
}


/// Scalar sensor readings, one observation per sensor that has storage of
/// its own. The actuated-mirror sensors have none: their readings land in
/// the actual half of the entity they mirror.
#[derive(Clone, Copy, Debug, PartialEq)]
pub struct Sensors<V> {
    pub battery_soc: Actual<V>,
    pub battery_soh: Actual<V>,
    pub battery_installed_capacity: Actual<V>,
    pub battery_dc_power: Actual<V>,
    pub mppt_power_0: Actual<V>,
    pub mppt_power_1: Actual<V>,
    pub soltaro_power: Actual<V>,
    pub power_consumption: Actual<V>,
    pub grid_power: Actual<V>,
    pub grid_voltage: Actual<V>,
    pub grid_current: Actual<V>,
    pub consumption_current: Actual<V>,
    pub offgrid_power: Actual<V>,
    pub offgrid_current: Actual<V>,
    pub vebus_input_current: Actual<V>,
    pub evcharger_ac_power: Actual<V>,
    pub evcharger_ac_current: Actual<V>,
    pub ess_state: Actual<V>,
    pub outdoor_temperature: Actual<V>,
    pub session_kwh: Actual<V>,
    pub ev_soc: Actual<V>,
    pub ev_charge_target: Actual<V>,
    pub heat_pump_power: Actual<V>,
    pub cooker_power: Actual<V>,
    pub mppt_0_operation_mode: Actual<V>,
    pub mppt_1_operation_mode: Actual<V>,
}

impl<V> Sensors<V> {
    /// The observation stored for `id`, or `None` for a sensor without
    /// storage here.
    pub open spec fn spec_slot(self, id: SensorId) -> Option<Actual<V>> {
        match id {
            SensorId::BatterySoc => Some(self.battery_soc),
            SensorId::BatterySoh => Some(self.battery_soh),
            SensorId::BatteryInstalledCapacity => Some(self.battery_installed_capacity),
            SensorId::BatteryDcPower => Some(self.battery_dc_power),
            SensorId::MpptPower0 => Some(self.mppt_power_0),
            SensorId::MpptPower1 => Some(self.mppt_power_1),
            SensorId::SoltaroPower => Some(self.soltaro_power),
            SensorId::PowerConsumption => Some(self.power_consumption),
            SensorId::GridPower => Some(self.grid_power),
            SensorId::GridVoltage => Some(self.grid_voltage),
            SensorId::GridCurrent => Some(self.grid_current),
            SensorId::ConsumptionCurrent => Some(self.consumption_current),
            SensorId::OffgridPower => Some(self.offgrid_power),
            SensorId::OffgridCurrent => Some(self.offgrid_current),
            SensorId::VebusInputCurrent => Some(self.vebus_input_current),
            SensorId::EvchargerAcPower => Some(self.evcharger_ac_power),
            SensorId::EvchargerAcCurrent => Some(self.evcharger_ac_current),
            SensorId::EssState => Some(self.ess_state),
            SensorId::OutdoorTemperature => Some(self.outdoor_temperature),
            SensorId::SessionKwh => Some(self.session_kwh),
            SensorId::EvSoc => Some(self.ev_soc),
            SensorId::EvChargeTarget => Some(self.ev_charge_target),
            SensorId::HeatPumpPower => Some(self.heat_pump_power),
            SensorId::CookerPower => Some(self.cooker_power),
            SensorId::Mppt0OperationMode => Some(self.mppt_0_operation_mode),
            SensorId::Mppt1OperationMode => Some(self.mppt_1_operation_mode),
            _ => None,
        }
    }

    /// The observations after a reading of `value` for `id`: the sensor's
    /// own slot takes it; a sensor without a slot here changes nothing.
    pub open spec fn spec_on_reading(self, id: SensorId, value: V, at: Instant) -> Self {
        match id {
            SensorId::BatterySoc => Sensors { battery_soc: self.battery_soc.spec_on_reading(value, at), ..self },
            SensorId::BatterySoh => Sensors { battery_soh: self.battery_soh.spec_on_reading(value, at), ..self },
            SensorId::BatteryInstalledCapacity => Sensors { battery_installed_capacity: self.battery_installed_capacity.spec_on_reading(value, at), ..self },
            SensorId::BatteryDcPower => Sensors { battery_dc_power: self.battery_dc_power.spec_on_reading(value, at), ..self },
            SensorId::MpptPower0 => Sensors { mppt_power_0: self.mppt_power_0.spec_on_reading(value, at), ..self },
            SensorId::MpptPower1 => Sensors { mppt_power_1: self.mppt_power_1.spec_on_reading(value, at), ..self },
            SensorId::SoltaroPower => Sensors { soltaro_power: self.soltaro_power.spec_on_reading(value, at), ..self },
            SensorId::PowerConsumption => Sensors { power_consumption: self.power_consumption.spec_on_reading(value, at), ..self },
            SensorId::GridPower => Sensors { grid_power: self.grid_power.spec_on_reading(value, at), ..self },
            SensorId::GridVoltage => Sensors { grid_voltage: self.grid_voltage.spec_on_reading(value, at), ..self },
            SensorId::GridCurrent => Sensors { grid_current: self.grid_current.spec_on_reading(value, at), ..self },
            SensorId::ConsumptionCurrent => Sensors { consumption_current: self.consumption_current.spec_on_reading(value, at), ..self },
            SensorId::OffgridPower => Sensors { offgrid_power: self.offgrid_power.spec_on_reading(value, at), ..self },
            SensorId::OffgridCurrent => Sensors { offgrid_current: self.offgrid_current.spec_on_reading(value, at), ..self },
            SensorId::VebusInputCurrent => Sensors { vebus_input_current: self.vebus_input_current.spec_on_reading(value, at), ..self },
            SensorId::EvchargerAcPower => Sensors { evcharger_ac_power: self.evcharger_ac_power.spec_on_reading(value, at), ..self },
            SensorId::EvchargerAcCurrent => Sensors { evcharger_ac_current: self.evcharger_ac_current.spec_on_reading(value, at), ..self },
            SensorId::EssState => Sensors { ess_state: self.ess_state.spec_on_reading(value, at), ..self },
            SensorId::OutdoorTemperature => Sensors { outdoor_temperature: self.outdoor_temperature.spec_on_reading(value, at), ..self },
            SensorId::SessionKwh => Sensors { session_kwh: self.session_kwh.spec_on_reading(value, at), ..self },
            SensorId::EvSoc => Sensors { ev_soc: self.ev_soc.spec_on_reading(value, at), ..self },
            SensorId::EvChargeTarget => Sensors { ev_charge_target: self.ev_charge_target.spec_on_reading(value, at), ..self },
            SensorId::HeatPumpPower => Sensors { heat_pump_power: self.heat_pump_power.spec_on_reading(value, at), ..self },
            SensorId::CookerPower => Sensors { cooker_power: self.cooker_power.spec_on_reading(value, at), ..self },
            SensorId::Mppt0OperationMode => Sensors { mppt_0_operation_mode: self.mppt_0_operation_mode.spec_on_reading(value, at), ..self },
            SensorId::Mppt1OperationMode => Sensors { mppt_1_operation_mode: self.mppt_1_operation_mode.spec_on_reading(value, at), ..self },
            _ => self,
        }
    }

    /// A reading lands in its own sensor's slot and nowhere else: the slot
    /// of `id` takes the reading, every other slot keeps its observation,
    /// and a sensor without a slot here changes nothing.
    pub proof fn lemma_reading_lands_in_own_slot(self, id: SensorId, value: V, at: Instant, other: SensorId)
        ensures
            self.spec_slot(id) matches Some(a) ==> self.spec_on_reading(id, value, at).spec_slot(id) == Some(
                a.spec_on_reading(value, at),
            ),
            self.spec_slot(id) is None ==> self.spec_on_reading(id, value, at) == self,
            other != id ==> self.spec_on_reading(id, value, at).spec_slot(other) == self.spec_slot(other),
    {
    }

    /// Record a reading of `value` for `id` in the sensor's own slot.
    pub fn on_reading(&mut self, id: SensorId, value: V, at: Instant)
        ensures
            *final(self) == old(self).spec_on_reading(id, value, at),
    {
        match id {
            SensorId::BatterySoc => self.battery_soc.on_reading(value, at),
            SensorId::BatterySoh => self.battery_soh.on_reading(value, at),
            SensorId::BatteryInstalledCapacity => self.battery_installed_capacity.on_reading(value, at),
            SensorId::BatteryDcPower => self.battery_dc_power.on_reading(value, at),
            SensorId::MpptPower0 => self.mppt_power_0.on_reading(value, at),
            SensorId::MpptPower1 => self.mppt_power_1.on_reading(value, at),
            SensorId::SoltaroPower => self.soltaro_power.on_reading(value, at),
            SensorId::PowerConsumption => self.power_consumption.on_reading(value, at),
            SensorId::GridPower => self.grid_power.on_reading(value, at),
            SensorId::GridVoltage => self.grid_voltage.on_reading(value, at),
            SensorId::GridCurrent => self.grid_current.on_reading(value, at),
            SensorId::ConsumptionCurrent => self.consumption_current.on_reading(value, at),
            SensorId::OffgridPower => self.offgrid_power.on_reading(value, at),
            SensorId::OffgridCurrent => self.offgrid_current.on_reading(value, at),
            SensorId::VebusInputCurrent => self.vebus_input_current.on_reading(value, at),
            SensorId::EvchargerAcPower => self.evcharger_ac_power.on_reading(value, at),
            SensorId::EvchargerAcCurrent => self.evcharger_ac_current.on_reading(value, at),
            SensorId::EssState => self.ess_state.on_reading(value, at),
            SensorId::OutdoorTemperature => self.outdoor_temperature.on_reading(value, at),
            SensorId::SessionKwh => self.session_kwh.on_reading(value, at),
            SensorId::EvSoc => self.ev_soc.on_reading(value, at),
            SensorId::EvChargeTarget => self.ev_charge_target.on_reading(value, at),
            SensorId::HeatPumpPower => self.heat_pump_power.on_reading(value, at),
            SensorId::CookerPower => self.cooker_power.on_reading(value, at),
            SensorId::Mppt0OperationMode => self.mppt_0_operation_mode.on_reading(value, at),
            SensorId::Mppt1OperationMode => self.mppt_1_operation_mode.on_reading(value, at),
            _ => {},
        }
    }

    /// Every sensor `Unknown` since `now`.
    pub fn unknown(now: Instant) -> (r: Self)
        ensures
            forall|id: SensorId| #[trigger] r.spec_slot(id) matches Some(a) ==> a == Actual::<V>::spec_unknown(now),
    {
        Sensors {
            battery_soc: Actual::unknown(now),
            battery_soh: Actual::unknown(now),
            battery_installed_capacity: Actual::unknown(now),
            battery_dc_power: Actual::unknown(now),
            mppt_power_0: Actual::unknown(now),
            mppt_power_1: Actual::unknown(now),
            soltaro_power: Actual::unknown(now),
            power_consumption: Actual::unknown(now),
            grid_power: Actual::unknown(now),
            grid_voltage: Actual::unknown(now),
            grid_current: Actual::unknown(now),
            consumption_current: Actual::unknown(now),
            offgrid_power: Actual::unknown(now),
            offgrid_current: Actual::unknown(now),
            vebus_input_current: Actual::unknown(now),
            evcharger_ac_power: Actual::unknown(now),
            evcharger_ac_current: Actual::unknown(now),
            ess_state: Actual::unknown(now),
            outdoor_temperature: Actual::unknown(now),
            session_kwh: Actual::unknown(now),
            ev_soc: Actual::unknown(now),
            ev_charge_target: Actual::unknown(now),
            heat_pump_power: Actual::unknown(now),
            cooker_power: Actual::unknown(now),
            mppt_0_operation_mode: Actual::unknown(now),
            mppt_1_operation_mode: Actual::unknown(now),
        }
    }
}

impl<V: Copy> Sensors<V> {
    /// The observation for `id`; a sensor without storage here reads as
    /// `Unknown` since the battery SoC observation's instant.
    pub fn by_id(&self, id: SensorId) -> (r: Actual<V>)
        ensures
            r == match self.spec_slot(id) {
                Some(a) => a,
                None => Actual::<V>::spec_unknown(self.battery_soc.since),
            },
    {
        match id {
            SensorId::BatterySoc => self.battery_soc,
            SensorId::BatterySoh => self.battery_soh,
            SensorId::BatteryInstalledCapacity => self.battery_installed_capacity,
            SensorId::BatteryDcPower => self.battery_dc_power,
            SensorId::MpptPower0 => self.mppt_power_0,
            SensorId::MpptPower1 => self.mppt_power_1,
            SensorId::SoltaroPower => self.soltaro_power,
            SensorId::PowerConsumption => self.power_consumption,
            SensorId::GridPower => self.grid_power,
            SensorId::GridVoltage => self.grid_voltage,
            SensorId::GridCurrent => self.grid_current,
            SensorId::ConsumptionCurrent => self.consumption_current,
            SensorId::OffgridPower => self.offgrid_power,
            SensorId::OffgridCurrent => self.offgrid_current,
            SensorId::VebusInputCurrent => self.vebus_input_current,
            SensorId::EvchargerAcPower => self.evcharger_ac_power,
            SensorId::EvchargerAcCurrent => self.evcharger_ac_current,
            SensorId::EssState => self.ess_state,
            SensorId::OutdoorTemperature => self.outdoor_temperature,
            SensorId::SessionKwh => self.session_kwh,
            SensorId::EvSoc => self.ev_soc,
            SensorId::EvChargeTarget => self.ev_charge_target,
            SensorId::HeatPumpPower => self.heat_pump_power,
            SensorId::CookerPower => self.cooker_power,
            SensorId::Mppt0OperationMode => self.mppt_0_operation_mode,
            SensorId::Mppt1OperationMode => self.mppt_1_operation_mode,
            _ => Actual::unknown(self.battery_soc.since),
        }
    }
}

/// Non-scalar sensor state: the myenergi readings and the latest forecast
/// of each provider.
#[derive(Clone, Debug, PartialEq)]
pub struct TypedSensors<Z, E, F> {
    pub zappi_state: Actual<Z>,
    pub eddi_mode: Actual<E>,
    pub forecast_solcast: Option<F>,
    pub forecast_forecast_solar: Option<F>,
    pub forecast_open_meteo: Option<F>,
    /// Locally-computed pessimistic baseline, consulted only when no cloud
    /// provider is fresh.
    pub forecast_baseline: Option<F>,
}

impl<Z, E, F> TypedSensors<Z, E, F> {
    /// The forecast slot of each provider.
    pub open spec fn spec_forecast(self, p: ForecastProvider) -> Option<F> {
        match p {
            ForecastProvider::Solcast => self.forecast_solcast,
            ForecastProvider::ForecastSolar => self.forecast_forecast_solar,
            ForecastProvider::OpenMeteo => self.forecast_open_meteo,
            ForecastProvider::Baseline => self.forecast_baseline,
        }
    }

    /// Both readings `Unknown` since `now`, no forecasts.
    pub fn unknown(now: Instant) -> (r: Self)
        ensures
            r.zappi_state == Actual::<Z>::spec_unknown(now),
            r.eddi_mode == Actual::<E>::spec_unknown(now),
            forall|p: ForecastProvider| #[trigger] r.spec_forecast(p) is None,
    {
        TypedSensors {
            zappi_state: Actual::unknown(now),
            eddi_mode: Actual::unknown(now),
            forecast_solcast: None,
            forecast_forecast_solar: None,
            forecast_open_meteo: None,
            forecast_baseline: None,
        }
    }

    /// The latest forecast of provider `p`, if one has landed.
    pub fn forecast(&self, p: ForecastProvider) -> (r: Option<&F>)
        ensures
            r == match self.spec_forecast(p) {
                Some(f) => Some(&f),
                None => None::<&F>,
            },
    {
        match p {
            ForecastProvider::Solcast => self.forecast_solcast.as_ref(),
            ForecastProvider::ForecastSolar => self.forecast_forecast_solar.as_ref(),
            ForecastProvider::OpenMeteo => self.forecast_open_meteo.as_ref(),
            ForecastProvider::Baseline => self.forecast_baseline.as_ref(),
        }
    }
}

/// The actuated entities: grid setpoint, input current limit, Zappi and
/// Eddi modes, and the two BatteryLife schedules.
#[derive(Clone, Debug, PartialEq)]
pub struct ActuatedSlots<G, C, Z, E, S> {
    pub grid_setpoint: Actuated<G>,
    pub input_current_limit: Actuated<C>,
    pub zappi_mode: Actuated<Z>,
    pub eddi_mode: Actuated<E>,
    pub schedule_0: Actuated<S>,
    pub schedule_1: Actuated<S>,
}

impl<G, C, Z, E, S> ActuatedSlots<G, C, Z, E, S> {
    /// Every entity fresh from boot at `now`.
    pub fn new(now: Instant) -> (r: Self)
        ensures
            r.grid_setpoint == Actuated::<G>::spec_new(now),
            r.input_current_limit == Actuated::<C>::spec_new(now),
            r.zappi_mode == Actuated::<Z>::spec_new(now),
            r.eddi_mode == Actuated::<E>::spec_new(now),
            r.schedule_0 == Actuated::<S>::spec_new(now),
            r.schedule_1 == Actuated::<S>::spec_new(now),
    {
        ActuatedSlots {
            grid_setpoint: Actuated::new(now),
            input_current_limit: Actuated::new(now),
            zappi_mode: Actuated::new(now),
            eddi_mode: Actuated::new(now),
            schedule_0: Actuated::new(now),
            schedule_1: Actuated::new(now),
        }
    }
}

} // verus!
