//! Scalar sensor identifiers and their freshness rules.
//!
//! Universal invariant: for every sensor whose cadence is governed by the
//! D-Bus reseed schedule, `staleness >= 2 * reseed_cadence`; for the
//! externally polled sensors (Open-Meteo, the myenergi cloud, the EV
//! gateway) the grace-window rule `staleness >= cadence + 1 s` applies.

use vstd::prelude::*;
use vstd::string::StringExecFns;

use crate::ids::ActuatedId;
use crate::text::{decimal, spec_decimal};
use crate::time::{Duration, NANOS_PER_SEC};

verus! {

/// Scalar sensor identifiers.
#[derive(Clone, Copy, Debug, PartialEq, Eq, Structural, Hash)]
pub enum SensorId {
    BatterySoc,
    BatterySoh,
    BatteryInstalledCapacity,
    BatteryDcPower,
    MpptPower0,
    MpptPower1,
    SoltaroPower,
    PowerConsumption,
    GridPower,
    GridVoltage,
    GridCurrent,
    ConsumptionCurrent,
    OffgridPower,
    OffgridCurrent,
    VebusInputCurrent,
    EvchargerAcPower,
    EvchargerAcCurrent,
    EssState,
    OutdoorTemperature,
    SessionKwh,
    GridSetpointActual,
    InputCurrentLimitActual,
    Schedule0StartActual,
    Schedule0DurationActual,
    Schedule0SocActual,
    Schedule0DaysActual,
    Schedule0AllowDischargeActual,
    Schedule1StartActual,
    Schedule1DurationActual,
    Schedule1SocActual,
    Schedule1DaysActual,
    Schedule1AllowDischargeActual,
    EvSoc,
    EvChargeTarget,
    HeatPumpPower,
    CookerPower,
    Mppt0OperationMode,
    Mppt1OperationMode,
    LgHeatPumpPowerActual,
    LgDhwPowerActual,
    LgHeatingWaterTargetActual,
    LgDhwTargetActual,
    LgDhwCurrentTemperatureC,
    LgHeatingWaterCurrentTemperatureC,
}

/// Classification of a sensor's freshness regime: which mechanism is the
/// primary freshness driver.
#[derive(Clone, Copy, Debug, PartialEq, Eq, Structural, Hash)]
pub enum FreshnessRegime {
    /// Organic signals fire on change, plus a reseed safety net.
    SlowSignalled,
    /// Organic signals essentially never fire; reseed is the freshness
    /// source.
    ReseedDriven,
}

/// The variant's name, as the derived `Debug` prints it.
pub open spec fn spec_sensor_id_name(id: SensorId) -> Seq<char> {
    match id {
        SensorId::BatterySoc => "BatterySoc"@,
        SensorId::BatterySoh => "BatterySoh"@,
        SensorId::BatteryInstalledCapacity => "BatteryInstalledCapacity"@,
        SensorId::BatteryDcPower => "BatteryDcPower"@,
        SensorId::MpptPower0 => "MpptPower0"@,
        SensorId::MpptPower1 => "MpptPower1"@,
        SensorId::SoltaroPower => "SoltaroPower"@,
        SensorId::PowerConsumption => "PowerConsumption"@,
        SensorId::GridPower => "GridPower"@,
        SensorId::GridVoltage => "GridVoltage"@,
        SensorId::GridCurrent => "GridCurrent"@,
        SensorId::ConsumptionCurrent => "ConsumptionCurrent"@,
        SensorId::OffgridPower => "OffgridPower"@,
        SensorId::OffgridCurrent => "OffgridCurrent"@,
        SensorId::VebusInputCurrent => "VebusInputCurrent"@,
        SensorId::EvchargerAcPower => "EvchargerAcPower"@,
        SensorId::EvchargerAcCurrent => "EvchargerAcCurrent"@,
        SensorId::EssState => "EssState"@,
        SensorId::OutdoorTemperature => "OutdoorTemperature"@,
        SensorId::SessionKwh => "SessionKwh"@,
        SensorId::GridSetpointActual => "GridSetpointActual"@,
        SensorId::InputCurrentLimitActual => "InputCurrentLimitActual"@,
        SensorId::Schedule0StartActual => "Schedule0StartActual"@,
        SensorId::Schedule0DurationActual => "Schedule0DurationActual"@,
        SensorId::Schedule0SocActual => "Schedule0SocActual"@,
        SensorId::Schedule0DaysActual => "Schedule0DaysActual"@,
        SensorId::Schedule0AllowDischargeActual => "Schedule0AllowDischargeActual"@,
        SensorId::Schedule1StartActual => "Schedule1StartActual"@,
        SensorId::Schedule1DurationActual => "Schedule1DurationActual"@,
        SensorId::Schedule1SocActual => "Schedule1SocActual"@,
        SensorId::Schedule1DaysActual => "Schedule1DaysActual"@,
        SensorId::Schedule1AllowDischargeActual => "Schedule1AllowDischargeActual"@,
        SensorId::EvSoc => "EvSoc"@,
        SensorId::EvChargeTarget => "EvChargeTarget"@,
        SensorId::HeatPumpPower => "HeatPumpPower"@,
        SensorId::CookerPower => "CookerPower"@,
        SensorId::Mppt0OperationMode => "Mppt0OperationMode"@,
        SensorId::Mppt1OperationMode => "Mppt1OperationMode"@,
        SensorId::LgHeatPumpPowerActual => "LgHeatPumpPowerActual"@,
        SensorId::LgDhwPowerActual => "LgDhwPowerActual"@,
        SensorId::LgHeatingWaterTargetActual => "LgHeatingWaterTargetActual"@,
        SensorId::LgDhwTargetActual => "LgDhwTargetActual"@,
        SensorId::LgDhwCurrentTemperatureC => "LgDhwCurrentTemperatureC"@,
        SensorId::LgHeatingWaterCurrentTemperatureC => "LgHeatingWaterCurrentTemperatureC"@,
    }
}

/// Fresh→Stale threshold of each sensor, in seconds.
pub open spec fn spec_freshness_threshold_secs(id: SensorId) -> nat {
    match id {
        SensorId::BatterySoc => 120,
        SensorId::BatterySoh
        | SensorId::EssState => 900,
        SensorId::BatteryInstalledCapacity => 3600,
        SensorId::BatteryDcPower
        | SensorId::MpptPower0
        | SensorId::MpptPower1
        | SensorId::SoltaroPower
        | SensorId::PowerConsumption
        | SensorId::GridPower
        | SensorId::GridVoltage
        | SensorId::GridCurrent
        | SensorId::ConsumptionCurrent
        | SensorId::OffgridPower
        | SensorId::OffgridCurrent
        | SensorId::VebusInputCurrent
        | SensorId::EvchargerAcPower
        | SensorId::EvchargerAcCurrent
        | SensorId::GridSetpointActual
        | SensorId::InputCurrentLimitActual => 15,
        SensorId::OutdoorTemperature => 2400,
        SensorId::SessionKwh => 600,
        SensorId::Schedule0StartActual
        | SensorId::Schedule0DurationActual
        | SensorId::Schedule0SocActual
        | SensorId::Schedule0DaysActual
        | SensorId::Schedule0AllowDischargeActual
        | SensorId::Schedule1StartActual
        | SensorId::Schedule1DurationActual
        | SensorId::Schedule1SocActual
        | SensorId::Schedule1DaysActual
        | SensorId::Schedule1AllowDischargeActual
        | SensorId::LgHeatPumpPowerActual
        | SensorId::LgDhwPowerActual
        | SensorId::LgHeatingWaterTargetActual
        | SensorId::LgDhwTargetActual
        | SensorId::LgDhwCurrentTemperatureC
        | SensorId::LgHeatingWaterCurrentTemperatureC => 180,
        SensorId::EvSoc
        | SensorId::EvChargeTarget => 43200,
        SensorId::HeatPumpPower
        | SensorId::CookerPower
        | SensorId::Mppt0OperationMode
        | SensorId::Mppt1OperationMode => 30,
    }
}

/// Reseed cadence of each sensor, in seconds.
pub open spec fn spec_reseed_cadence_secs(id: SensorId) -> nat {
    match id {
        SensorId::BatterySoc
        | SensorId::BatterySoh
        | SensorId::BatteryInstalledCapacity
        | SensorId::Schedule0StartActual
        | SensorId::Schedule0DurationActual
        | SensorId::Schedule0SocActual
        | SensorId::Schedule0DaysActual
        | SensorId::Schedule0AllowDischargeActual
        | SensorId::Schedule1StartActual
        | SensorId::Schedule1DurationActual
        | SensorId::Schedule1SocActual
        | SensorId::Schedule1DaysActual
        | SensorId::Schedule1AllowDischargeActual
        | SensorId::LgHeatPumpPowerActual
        | SensorId::LgDhwPowerActual
        | SensorId::LgHeatingWaterTargetActual
        | SensorId::LgDhwTargetActual
        | SensorId::LgDhwCurrentTemperatureC
        | SensorId::LgHeatingWaterCurrentTemperatureC => 60,
        SensorId::BatteryDcPower
        | SensorId::MpptPower0
        | SensorId::MpptPower1
        | SensorId::SoltaroPower
        | SensorId::PowerConsumption
        | SensorId::GridPower
        | SensorId::GridVoltage
        | SensorId::GridCurrent
        | SensorId::ConsumptionCurrent
        | SensorId::OffgridPower
        | SensorId::OffgridCurrent
        | SensorId::VebusInputCurrent
        | SensorId::EvchargerAcPower
        | SensorId::EvchargerAcCurrent
        | SensorId::GridSetpointActual
        | SensorId::InputCurrentLimitActual => 5,
        SensorId::EssState
        | SensorId::SessionKwh => 300,
        SensorId::OutdoorTemperature => 1800,
        SensorId::EvSoc
        | SensorId::EvChargeTarget => 600,
        SensorId::HeatPumpPower
        | SensorId::CookerPower
        | SensorId::Mppt0OperationMode
        | SensorId::Mppt1OperationMode => 15,
    }
}

/// Freshness regime of each sensor.
pub open spec fn spec_regime(id: SensorId) -> FreshnessRegime {
    match id {
        SensorId::BatterySoc
        | SensorId::BatteryDcPower
        | SensorId::MpptPower0
        | SensorId::MpptPower1
        | SensorId::SoltaroPower
        | SensorId::PowerConsumption
        | SensorId::GridPower
        | SensorId::GridVoltage
        | SensorId::GridCurrent
        | SensorId::ConsumptionCurrent
        | SensorId::OffgridPower
        | SensorId::OffgridCurrent
        | SensorId::VebusInputCurrent
        | SensorId::EvchargerAcPower
        | SensorId::EvchargerAcCurrent
        | SensorId::GridSetpointActual
        | SensorId::InputCurrentLimitActual
        | SensorId::HeatPumpPower
        | SensorId::CookerPower => FreshnessRegime::SlowSignalled,
        SensorId::BatterySoh
        | SensorId::BatteryInstalledCapacity
        | SensorId::EssState
        | SensorId::OutdoorTemperature
        | SensorId::SessionKwh
        | SensorId::Schedule0StartActual
        | SensorId::Schedule0DurationActual
        | SensorId::Schedule0SocActual
        | SensorId::Schedule0DaysActual
        | SensorId::Schedule0AllowDischargeActual
        | SensorId::Schedule1StartActual
        | SensorId::Schedule1DurationActual
        | SensorId::Schedule1SocActual
        | SensorId::Schedule1DaysActual
        | SensorId::Schedule1AllowDischargeActual
        | SensorId::EvSoc
        | SensorId::EvChargeTarget
        | SensorId::Mppt0OperationMode
        | SensorId::Mppt1OperationMode
        | SensorId::LgHeatPumpPowerActual
        | SensorId::LgDhwPowerActual
        | SensorId::LgHeatingWaterTargetActual
        | SensorId::LgDhwTargetActual
        | SensorId::LgDhwCurrentTemperatureC
        | SensorId::LgHeatingWaterCurrentTemperatureC => FreshnessRegime::ReseedDriven,
    }
}

/// The actuated entity each mirror sensor reads back, if any.
pub open spec fn spec_actuated_id(id: SensorId) -> Option<ActuatedId> {
    match id {
        SensorId::BatterySoc
        | SensorId::BatterySoh
        | SensorId::BatteryInstalledCapacity
        | SensorId::BatteryDcPower
        | SensorId::MpptPower0
        | SensorId::MpptPower1
        | SensorId::SoltaroPower
        | SensorId::PowerConsumption
        | SensorId::GridPower
        | SensorId::GridVoltage
        | SensorId::GridCurrent
        | SensorId::ConsumptionCurrent
        | SensorId::OffgridPower
        | SensorId::OffgridCurrent
        | SensorId::VebusInputCurrent
        | SensorId::EvchargerAcPower
        | SensorId::EvchargerAcCurrent
        | SensorId::EssState
        | SensorId::OutdoorTemperature
        | SensorId::SessionKwh
        | SensorId::EvSoc
        | SensorId::EvChargeTarget
        | SensorId::HeatPumpPower
        | SensorId::CookerPower
        | SensorId::Mppt0OperationMode
        | SensorId::Mppt1OperationMode
        | SensorId::LgDhwCurrentTemperatureC
        | SensorId::LgHeatingWaterCurrentTemperatureC => None,
        SensorId::GridSetpointActual => Some(ActuatedId::GridSetpoint),
        SensorId::InputCurrentLimitActual => Some(ActuatedId::InputCurrentLimit),
        SensorId::Schedule0StartActual
        | SensorId::Schedule0DurationActual
        | SensorId::Schedule0SocActual
        | SensorId::Schedule0DaysActual
        | SensorId::Schedule0AllowDischargeActual => Some(ActuatedId::Schedule0),
        SensorId::Schedule1StartActual
        | SensorId::Schedule1DurationActual
        | SensorId::Schedule1SocActual
        | SensorId::Schedule1DaysActual
        | SensorId::Schedule1AllowDischargeActual => Some(ActuatedId::Schedule1),
        SensorId::LgHeatPumpPowerActual => Some(ActuatedId::LgHeatPumpPower),
        SensorId::LgDhwPowerActual => Some(ActuatedId::LgDhwPower),
        SensorId::LgHeatingWaterTargetActual => Some(ActuatedId::LgHeatingWaterTarget),
        SensorId::LgDhwTargetActual => Some(ActuatedId::LgDhwTarget),
    }
}

/// Sensors polled by an outside service on its own cadence; they use the
/// grace-window freshness rule.
pub open spec fn spec_is_external_polled(id: SensorId) -> bool {
    id is OutdoorTemperature || id is SessionKwh || id is EvSoc || id is EvChargeTarget
}

/// Minimum staleness threshold the freshness rules demand, in seconds.
pub open spec fn spec_required_staleness_secs(id: SensorId) -> nat {
    if spec_is_external_polled(id) {
        spec_reseed_cadence_secs(id) + 1
    } else {
        2 * spec_reseed_cadence_secs(id)
    }
}

/// The staleness invariant for one sensor.
pub open spec fn spec_staleness_ok(id: SensorId) -> bool {
    spec_freshness_threshold_secs(id) >= spec_required_staleness_secs(id)
}

/// Every sensor, in declaration order.
pub open spec fn spec_all_sensor_ids() -> Seq<SensorId> {
    seq![
        SensorId::BatterySoc,
        SensorId::BatterySoh,
        SensorId::BatteryInstalledCapacity,
        SensorId::BatteryDcPower,
        SensorId::MpptPower0,
        SensorId::MpptPower1,
        SensorId::SoltaroPower,
        SensorId::PowerConsumption,
        SensorId::GridPower,
        SensorId::GridVoltage,
        SensorId::GridCurrent,
        SensorId::ConsumptionCurrent,
        SensorId::OffgridPower,
        SensorId::OffgridCurrent,
        SensorId::VebusInputCurrent,
        SensorId::EvchargerAcPower,
        SensorId::EvchargerAcCurrent,
        SensorId::EssState,
        SensorId::OutdoorTemperature,
        SensorId::SessionKwh,
        SensorId::GridSetpointActual,
        SensorId::InputCurrentLimitActual,
        SensorId::Schedule0StartActual,
        SensorId::Schedule0DurationActual,
        SensorId::Schedule0SocActual,
        SensorId::Schedule0DaysActual,
        SensorId::Schedule0AllowDischargeActual,
        SensorId::Schedule1StartActual,
        SensorId::Schedule1DurationActual,
        SensorId::Schedule1SocActual,
        SensorId::Schedule1DaysActual,
        SensorId::Schedule1AllowDischargeActual,
        SensorId::EvSoc,
        SensorId::EvChargeTarget,
        SensorId::HeatPumpPower,
        SensorId::CookerPower,
        SensorId::Mppt0OperationMode,
        SensorId::Mppt1OperationMode,
        SensorId::LgHeatPumpPowerActual,
        SensorId::LgDhwPowerActual,
        SensorId::LgHeatingWaterTargetActual,
        SensorId::LgDhwTargetActual,
        SensorId::LgDhwCurrentTemperatureC,
        SensorId::LgHeatingWaterCurrentTemperatureC
    ]
}

impl SensorId {
    /// Per-sensor Fresh→Stale threshold.
    pub fn freshness_threshold(self) -> (d: Duration)
        ensures
            d@ == spec_freshness_threshold_secs(self) * NANOS_PER_SEC,
    {
        match self {
            SensorId::BatterySoc => Duration::from_secs(120),
            SensorId::BatterySoh
            | SensorId::EssState => Duration::from_secs(900),
            SensorId::BatteryInstalledCapacity => Duration::from_secs(3600),
            SensorId::BatteryDcPower
            | SensorId::MpptPower0
            | SensorId::MpptPower1
            | SensorId::SoltaroPower
            | SensorId::PowerConsumption
            | SensorId::GridPower
            | SensorId::GridVoltage
            | SensorId::GridCurrent
            | SensorId::ConsumptionCurrent
            | SensorId::OffgridPower
            | SensorId::OffgridCurrent
            | SensorId::VebusInputCurrent
            | SensorId::EvchargerAcPower
            | SensorId::EvchargerAcCurrent
            | SensorId::GridSetpointActual
            | SensorId::InputCurrentLimitActual => Duration::from_secs(15),
            SensorId::OutdoorTemperature => Duration::from_secs(2400),
            SensorId::SessionKwh => Duration::from_secs(600),
            SensorId::Schedule0StartActual
            | SensorId::Schedule0DurationActual
            | SensorId::Schedule0SocActual
            | SensorId::Schedule0DaysActual
            | SensorId::Schedule0AllowDischargeActual
            | SensorId::Schedule1StartActual
            | SensorId::Schedule1DurationActual
            | SensorId::Schedule1SocActual
            | SensorId::Schedule1DaysActual
            | SensorId::Schedule1AllowDischargeActual
            | SensorId::LgHeatPumpPowerActual
            | SensorId::LgDhwPowerActual
            | SensorId::LgHeatingWaterTargetActual
            | SensorId::LgDhwTargetActual
            | SensorId::LgDhwCurrentTemperatureC
            | SensorId::LgHeatingWaterCurrentTemperatureC => Duration::from_secs(180),
            SensorId::EvSoc
            | SensorId::EvChargeTarget => Duration::from_secs(43200),
            SensorId::HeatPumpPower
            | SensorId::CookerPower
            | SensorId::Mppt0OperationMode
            | SensorId::Mppt1OperationMode => Duration::from_secs(30),
        }
    }

    /// Freshness regime for this sensor.
    pub fn regime(self) -> (r: FreshnessRegime)
        ensures
            r == spec_regime(self),
    {
        match self {
            SensorId::BatterySoc
            | SensorId::BatteryDcPower
            | SensorId::MpptPower0
            | SensorId::MpptPower1
            | SensorId::SoltaroPower
            | SensorId::PowerConsumption
            | SensorId::GridPower
            | SensorId::GridVoltage
            | SensorId::GridCurrent
            | SensorId::ConsumptionCurrent
            | SensorId::OffgridPower
            | SensorId::OffgridCurrent
            | SensorId::VebusInputCurrent
            | SensorId::EvchargerAcPower
            | SensorId::EvchargerAcCurrent
            | SensorId::GridSetpointActual
            | SensorId::InputCurrentLimitActual
            | SensorId::HeatPumpPower
            | SensorId::CookerPower => FreshnessRegime::SlowSignalled,
            SensorId::BatterySoh
            | SensorId::BatteryInstalledCapacity
            | SensorId::EssState
            | SensorId::OutdoorTemperature
            | SensorId::SessionKwh
            | SensorId::Schedule0StartActual
            | SensorId::Schedule0DurationActual
            | SensorId::Schedule0SocActual
            | SensorId::Schedule0DaysActual
            | SensorId::Schedule0AllowDischargeActual
            | SensorId::Schedule1StartActual
            | SensorId::Schedule1DurationActual
            | SensorId::Schedule1SocActual
            | SensorId::Schedule1DaysActual
            | SensorId::Schedule1AllowDischargeActual
            | SensorId::EvSoc
            | SensorId::EvChargeTarget
            | SensorId::Mppt0OperationMode
            | SensorId::Mppt1OperationMode
            | SensorId::LgHeatPumpPowerActual
            | SensorId::LgDhwPowerActual
            | SensorId::LgHeatingWaterTargetActual
            | SensorId::LgDhwTargetActual
            | SensorId::LgDhwCurrentTemperatureC
            | SensorId::LgHeatingWaterCurrentTemperatureC => FreshnessRegime::ReseedDriven,
        }
    }

    /// Reseed cadence for this sensor.
    pub fn reseed_cadence(self) -> (d: Duration)
        ensures
            d@ == spec_reseed_cadence_secs(self) * NANOS_PER_SEC,
    {
        match self {
            SensorId::BatterySoc
            | SensorId::BatterySoh
            | SensorId::BatteryInstalledCapacity
            | SensorId::Schedule0StartActual
            | SensorId::Schedule0DurationActual
            | SensorId::Schedule0SocActual
            | SensorId::Schedule0DaysActual
            | SensorId::Schedule0AllowDischargeActual
            | SensorId::Schedule1StartActual
            | SensorId::Schedule1DurationActual
            | SensorId::Schedule1SocActual
            | SensorId::Schedule1DaysActual
            | SensorId::Schedule1AllowDischargeActual
            | SensorId::LgHeatPumpPowerActual
            | SensorId::LgDhwPowerActual
            | SensorId::LgHeatingWaterTargetActual
            | SensorId::LgDhwTargetActual
            | SensorId::LgDhwCurrentTemperatureC
            | SensorId::LgHeatingWaterCurrentTemperatureC => Duration::from_secs(60),
            SensorId::BatteryDcPower
            | SensorId::MpptPower0
            | SensorId::MpptPower1
            | SensorId::SoltaroPower
            | SensorId::PowerConsumption
            | SensorId::GridPower
            | SensorId::GridVoltage
            | SensorId::GridCurrent
            | SensorId::ConsumptionCurrent
            | SensorId::OffgridPower
            | SensorId::OffgridCurrent
            | SensorId::VebusInputCurrent
            | SensorId::EvchargerAcPower
            | SensorId::EvchargerAcCurrent
            | SensorId::GridSetpointActual
            | SensorId::InputCurrentLimitActual => Duration::from_secs(5),
            SensorId::EssState
            | SensorId::SessionKwh => Duration::from_secs(300),
            SensorId::OutdoorTemperature => Duration::from_secs(1800),
            SensorId::EvSoc
            | SensorId::EvChargeTarget => Duration::from_secs(600),
            SensorId::HeatPumpPower
            | SensorId::CookerPower
            | SensorId::Mppt0OperationMode
            | SensorId::Mppt1OperationMode => Duration::from_secs(15),
        }
    }

    /// The actuated entity this sensor reading mirrors, if any; `None` for
    /// plain sensors.
    pub fn actuated_id(self) -> (r: Option<ActuatedId>)
        ensures
            r == spec_actuated_id(self),
    {
        match self {
            SensorId::BatterySoc
            | SensorId::BatterySoh
            | SensorId::BatteryInstalledCapacity
            | SensorId::BatteryDcPower
            | SensorId::MpptPower0
            | SensorId::MpptPower1
            | SensorId::SoltaroPower
            | SensorId::PowerConsumption
            | SensorId::GridPower
            | SensorId::GridVoltage
            | SensorId::GridCurrent
            | SensorId::ConsumptionCurrent
            | SensorId::OffgridPower
            | SensorId::OffgridCurrent
            | SensorId::VebusInputCurrent
            | SensorId::EvchargerAcPower
            | SensorId::EvchargerAcCurrent
            | SensorId::EssState
            | SensorId::OutdoorTemperature
            | SensorId::SessionKwh
            | SensorId::EvSoc
            | SensorId::EvChargeTarget
            | SensorId::HeatPumpPower
            | SensorId::CookerPower
            | SensorId::Mppt0OperationMode
            | SensorId::Mppt1OperationMode
            | SensorId::LgDhwCurrentTemperatureC
            | SensorId::LgHeatingWaterCurrentTemperatureC => None,
            SensorId::GridSetpointActual => Some(ActuatedId::GridSetpoint),
            SensorId::InputCurrentLimitActual => Some(ActuatedId::InputCurrentLimit),
            SensorId::Schedule0StartActual
            | SensorId::Schedule0DurationActual
            | SensorId::Schedule0SocActual
            | SensorId::Schedule0DaysActual
            | SensorId::Schedule0AllowDischargeActual => Some(ActuatedId::Schedule0),
            SensorId::Schedule1StartActual
            | SensorId::Schedule1DurationActual
            | SensorId::Schedule1SocActual
            | SensorId::Schedule1DaysActual
            | SensorId::Schedule1AllowDischargeActual => Some(ActuatedId::Schedule1),
            SensorId::LgHeatPumpPowerActual => Some(ActuatedId::LgHeatPumpPower),
            SensorId::LgDhwPowerActual => Some(ActuatedId::LgDhwPower),
            SensorId::LgHeatingWaterTargetActual => Some(ActuatedId::LgHeatingWaterTarget),
            SensorId::LgDhwTargetActual => Some(ActuatedId::LgDhwTarget),
        }
    }

    /// The variant's name, as the derived `Debug` prints it.
    pub fn name(self) -> (s: &'static str)
        ensures
            s@ == spec_sensor_id_name(self),
    {
        match self {
            SensorId::BatterySoc => "BatterySoc",
            SensorId::BatterySoh => "BatterySoh",
            SensorId::BatteryInstalledCapacity => "BatteryInstalledCapacity",
            SensorId::BatteryDcPower => "BatteryDcPower",
            SensorId::MpptPower0 => "MpptPower0",
            SensorId::MpptPower1 => "MpptPower1",
            SensorId::SoltaroPower => "SoltaroPower",
            SensorId::PowerConsumption => "PowerConsumption",
            SensorId::GridPower => "GridPower",
            SensorId::GridVoltage => "GridVoltage",
            SensorId::GridCurrent => "GridCurrent",
            SensorId::ConsumptionCurrent => "ConsumptionCurrent",
            SensorId::OffgridPower => "OffgridPower",
            SensorId::OffgridCurrent => "OffgridCurrent",
            SensorId::VebusInputCurrent => "VebusInputCurrent",
            SensorId::EvchargerAcPower => "EvchargerAcPower",
            SensorId::EvchargerAcCurrent => "EvchargerAcCurrent",
            SensorId::EssState => "EssState",
            SensorId::OutdoorTemperature => "OutdoorTemperature",
            SensorId::SessionKwh => "SessionKwh",
            SensorId::GridSetpointActual => "GridSetpointActual",
            SensorId::InputCurrentLimitActual => "InputCurrentLimitActual",
            SensorId::Schedule0StartActual => "Schedule0StartActual",
            SensorId::Schedule0DurationActual => "Schedule0DurationActual",
            SensorId::Schedule0SocActual => "Schedule0SocActual",
            SensorId::Schedule0DaysActual => "Schedule0DaysActual",
            SensorId::Schedule0AllowDischargeActual => "Schedule0AllowDischargeActual",
            SensorId::Schedule1StartActual => "Schedule1StartActual",
            SensorId::Schedule1DurationActual => "Schedule1DurationActual",
            SensorId::Schedule1SocActual => "Schedule1SocActual",
            SensorId::Schedule1DaysActual => "Schedule1DaysActual",
            SensorId::Schedule1AllowDischargeActual => "Schedule1AllowDischargeActual",
            SensorId::EvSoc => "EvSoc",
            SensorId::EvChargeTarget => "EvChargeTarget",
            SensorId::HeatPumpPower => "HeatPumpPower",
            SensorId::CookerPower => "CookerPower",
            SensorId::Mppt0OperationMode => "Mppt0OperationMode",
            SensorId::Mppt1OperationMode => "Mppt1OperationMode",
            SensorId::LgHeatPumpPowerActual => "LgHeatPumpPowerActual",
            SensorId::LgDhwPowerActual => "LgDhwPowerActual",
            SensorId::LgHeatingWaterTargetActual => "LgHeatingWaterTargetActual",
            SensorId::LgDhwTargetActual => "LgDhwTargetActual",
            SensorId::LgDhwCurrentTemperatureC => "LgDhwCurrentTemperatureC",
            SensorId::LgHeatingWaterCurrentTemperatureC => "LgHeatingWaterCurrentTemperatureC",
        }
    }

    /// Every variant of this enum, in declaration order.
    pub fn all() -> (v: Vec<SensorId>)
        ensures
            v@ == spec_all_sensor_ids(),
    {
        let mut v: Vec<SensorId> = Vec::new();
        v.push(SensorId::BatterySoc);
        v.push(SensorId::BatterySoh);
        v.push(SensorId::BatteryInstalledCapacity);
        v.push(SensorId::BatteryDcPower);
        v.push(SensorId::MpptPower0);
        v.push(SensorId::MpptPower1);
        v.push(SensorId::SoltaroPower);
        v.push(SensorId::PowerConsumption);
        v.push(SensorId::GridPower);
        v.push(SensorId::GridVoltage);
        v.push(SensorId::GridCurrent);
        v.push(SensorId::ConsumptionCurrent);
        v.push(SensorId::OffgridPower);
        v.push(SensorId::OffgridCurrent);
        v.push(SensorId::VebusInputCurrent);
        v.push(SensorId::EvchargerAcPower);
        v.push(SensorId::EvchargerAcCurrent);
        v.push(SensorId::EssState);
        v.push(SensorId::OutdoorTemperature);
        v.push(SensorId::SessionKwh);
        v.push(SensorId::GridSetpointActual);
        v.push(SensorId::InputCurrentLimitActual);
        v.push(SensorId::Schedule0StartActual);
        v.push(SensorId::Schedule0DurationActual);
        v.push(SensorId::Schedule0SocActual);
        v.push(SensorId::Schedule0DaysActual);
        v.push(SensorId::Schedule0AllowDischargeActual);
        v.push(SensorId::Schedule1StartActual);
        v.push(SensorId::Schedule1DurationActual);
        v.push(SensorId::Schedule1SocActual);
        v.push(SensorId::Schedule1DaysActual);
        v.push(SensorId::Schedule1AllowDischargeActual);
        v.push(SensorId::EvSoc);
        v.push(SensorId::EvChargeTarget);
        v.push(SensorId::HeatPumpPower);
        v.push(SensorId::CookerPower);
        v.push(SensorId::Mppt0OperationMode);
        v.push(SensorId::Mppt1OperationMode);
        v.push(SensorId::LgHeatPumpPowerActual);
        v.push(SensorId::LgDhwPowerActual);
        v.push(SensorId::LgHeatingWaterTargetActual);
        v.push(SensorId::LgDhwTargetActual);
        v.push(SensorId::LgDhwCurrentTemperatureC);
        v.push(SensorId::LgHeatingWaterCurrentTemperatureC);
        assert(v@ =~= spec_all_sensor_ids());
        v
    }
}

/// Sensors whose cadence is set by an outside poller rather than the
/// D-Bus reseed schedule.
fn is_external_polled(id: SensorId) -> (r: bool)
    ensures
        r == spec_is_external_polled(id),
{
    match id {
        SensorId::OutdoorTemperature
        | SensorId::SessionKwh
        | SensorId::EvSoc
        | SensorId::EvChargeTarget => true,
        _ => false,
    }
}

/// Text of the error for a sensor whose threshold is below the rules.
pub open spec fn spec_staleness_violation_message(id: SensorId, staleness_secs: nat, required_secs: nat) -> Seq<char> {
    "staleness invariant violated: SensorId::"@ + spec_sensor_id_name(id) + " staleness="@ + spec_decimal(
        staleness_secs,
    ) + "s < required="@ + spec_decimal(required_secs) + "s; fix freshness_threshold or reseed cadence"@
}

fn staleness_violation_message(id: SensorId, staleness_secs: u64, required_secs: u64) -> (r: String)
    ensures
        r@ == spec_staleness_violation_message(id, staleness_secs as nat, required_secs as nat),
{
    let mut r = String::from_str("staleness invariant violated: SensorId::");
    r.append(id.name());
    r.append(" staleness=");
    r.append(decimal(staleness_secs).as_str());
    r.append("s < required=");
    r.append(decimal(required_secs).as_str());
    r.append("s; fix freshness_threshold or reseed cadence");
    r
}

/// Verify the staleness invariant for one sensor: `Err` with a message
/// naming the sensor when its threshold is below what the rules demand.
pub fn check_staleness_invariant(id: SensorId) -> (r: Result<(), String>)
    ensures
        r is Ok <==> spec_staleness_ok(id),
        r is Ok,
{
    proof {
        lemma_staleness_invariant_holds(id);
    }
    let staleness = id.freshness_threshold();
    let cadence = id.reseed_cadence();
    let required = if is_external_polled(id) {
        cadence.checked_add(Duration::from_secs(1))
    } else {
        cadence.checked_mul(2)
    };
    match required {
        Some(req) => {
            if staleness.as_nanos() < req.as_nanos() {
                Err(staleness_violation_message(id, staleness.as_secs(), req.as_secs()))
            } else {
                Ok(())
            }
        },
        None => Err(staleness_violation_message(id, staleness.as_secs(), 0)),
    }
}

/// Every sensor satisfies the staleness invariant.
pub proof fn lemma_staleness_invariant_holds(id: SensorId)
    ensures
        spec_staleness_ok(id),
{
}

/// The enumeration of all sensors is complete and has one entry per
/// variant.
pub proof fn lemma_all_sensor_ids_complete(id: SensorId)
    ensures
        spec_all_sensor_ids().len() == 44,
        spec_all_sensor_ids().contains(id),
{
    let s = spec_all_sensor_ids();
    match id {
        SensorId::BatterySoc => assert(s[0] == id),
        SensorId::BatterySoh => assert(s[1] == id),
        SensorId::BatteryInstalledCapacity => assert(s[2] == id),
        SensorId::BatteryDcPower => assert(s[3] == id),
        SensorId::MpptPower0 => assert(s[4] == id),
        SensorId::MpptPower1 => assert(s[5] == id),
        SensorId::SoltaroPower => assert(s[6] == id),
        SensorId::PowerConsumption => assert(s[7] == id),
        SensorId::GridPower => assert(s[8] == id),
        SensorId::GridVoltage => assert(s[9] == id),
        SensorId::GridCurrent => assert(s[10] == id),
        SensorId::ConsumptionCurrent => assert(s[11] == id),
        SensorId::OffgridPower => assert(s[12] == id),
        SensorId::OffgridCurrent => assert(s[13] == id),
        SensorId::VebusInputCurrent => assert(s[14] == id),
        SensorId::EvchargerAcPower => assert(s[15] == id),
        SensorId::EvchargerAcCurrent => assert(s[16] == id),
        SensorId::EssState => assert(s[17] == id),
        SensorId::OutdoorTemperature => assert(s[18] == id),
        SensorId::SessionKwh => assert(s[19] == id),
        SensorId::GridSetpointActual => assert(s[20] == id),
        SensorId::InputCurrentLimitActual => assert(s[21] == id),
        SensorId::Schedule0StartActual => assert(s[22] == id),
        SensorId::Schedule0DurationActual => assert(s[23] == id),
        SensorId::Schedule0SocActual => assert(s[24] == id),
        SensorId::Schedule0DaysActual => assert(s[25] == id),
        SensorId::Schedule0AllowDischargeActual => assert(s[26] == id),
        SensorId::Schedule1StartActual => assert(s[27] == id),
        SensorId::Schedule1DurationActual => assert(s[28] == id),
        SensorId::Schedule1SocActual => assert(s[29] == id),
        SensorId::Schedule1DaysActual => assert(s[30] == id),
        SensorId::Schedule1AllowDischargeActual => assert(s[31] == id),
        SensorId::EvSoc => assert(s[32] == id),
        SensorId::EvChargeTarget => assert(s[33] == id),
        SensorId::HeatPumpPower => assert(s[34] == id),
        SensorId::CookerPower => assert(s[35] == id),
        SensorId::Mppt0OperationMode => assert(s[36] == id),
        SensorId::Mppt1OperationMode => assert(s[37] == id),
        SensorId::LgHeatPumpPowerActual => assert(s[38] == id),
        SensorId::LgDhwPowerActual => assert(s[39] == id),
        SensorId::LgHeatingWaterTargetActual => assert(s[40] == id),
        SensorId::LgDhwTargetActual => assert(s[41] == id),
        SensorId::LgDhwCurrentTemperatureC => assert(s[42] == id),
        SensorId::LgHeatingWaterCurrentTemperatureC => assert(s[43] == id),
    }
}

} // verus!
