use victron_controller_core::ids::ActuatedId;
use victron_controller_core::sensor::{check_staleness_invariant, FreshnessRegime, SensorId};
use victron_controller_core::time::Duration;

/// Every `SensorId` must satisfy the universal `staleness >= 2 × cadence`
/// rule, or `cadence + 1 s` for the externally polled sensors; each
/// cadence and regime is pinned against the audit table.
#[test]
#[allow(clippy::match_same_arms)]
fn freshness_threshold_invariant_holds_for_every_sensor() {
    for id in SensorId::all() {
        let expected_cadence = match id {
            // Fast-organic — 5 s.
            SensorId::PowerConsumption
            | SensorId::ConsumptionCurrent
            | SensorId::GridPower
            | SensorId::GridVoltage
            | SensorId::GridCurrent
            | SensorId::BatteryDcPower
            | SensorId::SoltaroPower
            | SensorId::OffgridPower
            | SensorId::OffgridCurrent
            | SensorId::VebusInputCurrent
            | SensorId::EvchargerAcPower
            | SensorId::EvchargerAcCurrent
            | SensorId::MpptPower0
            | SensorId::MpptPower1 => Duration::from_secs(5),
            // Battery service — 60 s.
            SensorId::BatterySoc
            | SensorId::BatterySoh
            | SensorId::BatteryInstalledCapacity => Duration::from_secs(60),
            // Settings (ESS) — 300 s.
            SensorId::EssState => Duration::from_secs(300),
            // Open-Meteo — 30 min.
            SensorId::OutdoorTemperature => Duration::from_secs(30 * 60),
            // myenergi cloud — 5 min.
            SensorId::SessionKwh => Duration::from_secs(300),
            SensorId::GridSetpointActual | SensorId::InputCurrentLimitActual => {
                Duration::from_secs(5)
            }
            SensorId::Schedule0StartActual
            | SensorId::Schedule0DurationActual
            | SensorId::Schedule0SocActual
            | SensorId::Schedule0DaysActual
            | SensorId::Schedule0AllowDischargeActual
            | SensorId::Schedule1StartActual
            | SensorId::Schedule1DurationActual
            | SensorId::Schedule1SocActual
            | SensorId::Schedule1DaysActual
            | SensorId::Schedule1AllowDischargeActual => Duration::from_secs(60),
            SensorId::EvSoc | SensorId::EvChargeTarget => Duration::from_secs(10 * 60),
            SensorId::HeatPumpPower
            | SensorId::CookerPower
            | SensorId::Mppt0OperationMode
            | SensorId::Mppt1OperationMode => Duration::from_secs(15),
            SensorId::LgHeatPumpPowerActual
            | SensorId::LgDhwPowerActual
            | SensorId::LgHeatingWaterTargetActual
            | SensorId::LgDhwTargetActual
            | SensorId::LgDhwCurrentTemperatureC
            | SensorId::LgHeatingWaterCurrentTemperatureC => Duration::from_secs(60),
        };
        assert_eq!(
            id.reseed_cadence(),
            expected_cadence,
            "SensorId::{id:?} cadence mismatch with audit table"
        );

        let expected_regime = match id {
            SensorId::PowerConsumption
            | SensorId::ConsumptionCurrent
            | SensorId::GridPower
            | SensorId::GridVoltage
            | SensorId::GridCurrent
            | SensorId::BatteryDcPower
            | SensorId::BatterySoc
            | SensorId::SoltaroPower
            | SensorId::OffgridPower
            | SensorId::OffgridCurrent
            | SensorId::VebusInputCurrent
            | SensorId::EvchargerAcPower
            | SensorId::EvchargerAcCurrent
            | SensorId::MpptPower0
            | SensorId::MpptPower1
            | SensorId::GridSetpointActual
            | SensorId::InputCurrentLimitActual => FreshnessRegime::SlowSignalled,
            SensorId::BatterySoh
            | SensorId::BatteryInstalledCapacity
            | SensorId::EssState
            | SensorId::OutdoorTemperature
            | SensorId::SessionKwh
            | SensorId::Schedule0StartActual
            | SensorId::Schedule0DurationActual
            | SensorId::Schedule0SocActual
            | SensorId::Schedule0DaysActual
            | SensorId::Schedule0AllowDischargeActual
            | SensorId::Schedule1StartActual
            | SensorId::Schedule1DurationActual
            | SensorId::Schedule1SocActual
            | SensorId::Schedule1DaysActual
            | SensorId::Schedule1AllowDischargeActual
            | SensorId::EvSoc
            | SensorId::EvChargeTarget
            | SensorId::Mppt0OperationMode
            | SensorId::Mppt1OperationMode
            | SensorId::LgHeatPumpPowerActual
            | SensorId::LgDhwPowerActual
            | SensorId::LgHeatingWaterTargetActual
            | SensorId::LgDhwTargetActual
            | SensorId::LgDhwCurrentTemperatureC
            | SensorId::LgHeatingWaterCurrentTemperatureC => FreshnessRegime::ReseedDriven,
            SensorId::HeatPumpPower | SensorId::CookerPower => FreshnessRegime::SlowSignalled,
        };
        assert_eq!(
            id.regime(),
            expected_regime,
            "SensorId::{id:?} regime mismatch with audit table"
        );

        let staleness = id.freshness_threshold();
        let cadence = id.reseed_cadence();
        let required = if matches!(
            id,
            SensorId::OutdoorTemperature
                | SensorId::SessionKwh
                | SensorId::EvSoc
                | SensorId::EvChargeTarget,
        ) {
            cadence.checked_add(Duration::from_secs(1)).unwrap()
        } else {
            cadence.checked_mul(2).unwrap()
        };
        assert!(
            staleness >= required,
            "SensorId::{id:?} staleness {staleness:?} < required {required:?}",
        );

        // Belt-and-braces: the shared helper agrees.
        check_staleness_invariant(id).unwrap_or_else(|e| panic!("{e}"));
    }
}

/// Explicit per-variant assertion of `SensorId::actuated_id()`.
#[test]
#[allow(clippy::match_same_arms)]
fn sensor_id_actuated_id_mapping() {
    for id in SensorId::all() {
        let expected: Option<ActuatedId> = match id {
            SensorId::GridSetpointActual => Some(ActuatedId::GridSetpoint),
            SensorId::InputCurrentLimitActual => Some(ActuatedId::InputCurrentLimit),
            SensorId::Schedule0StartActual
            | SensorId::Schedule0DurationActual
            | SensorId::Schedule0SocActual
            | SensorId::Schedule0DaysActual
            | SensorId::Schedule0AllowDischargeActual => Some(ActuatedId::Schedule0),
            SensorId::Schedule1StartActual
            | SensorId::Schedule1DurationActual
            | SensorId::Schedule1SocActual
            | SensorId::Schedule1DaysActual
            | SensorId::Schedule1AllowDischargeActual => Some(ActuatedId::Schedule1),
            SensorId::BatterySoc
            | SensorId::BatterySoh
            | SensorId::BatteryInstalledCapacity
            | SensorId::BatteryDcPower
            | SensorId::MpptPower0
            | SensorId::MpptPower1
            | SensorId::SoltaroPower
            | SensorId::PowerConsumption
            | SensorId::GridPower
            | SensorId::GridVoltage
            | SensorId::GridCurrent
            | SensorId::ConsumptionCurrent
            | SensorId::OffgridPower
            | SensorId::OffgridCurrent
            | SensorId::VebusInputCurrent
            | SensorId::EvchargerAcPower
            | SensorId::EvchargerAcCurrent
            | SensorId::EssState
            | SensorId::OutdoorTemperature
            | SensorId::SessionKwh
            | SensorId::EvSoc
            | SensorId::EvChargeTarget
            | SensorId::HeatPumpPower
            | SensorId::CookerPower
            | SensorId::Mppt0OperationMode
            | SensorId::Mppt1OperationMode
            | SensorId::LgDhwCurrentTemperatureC
            | SensorId::LgHeatingWaterCurrentTemperatureC => None,
            SensorId::LgHeatPumpPowerActual => Some(ActuatedId::LgHeatPumpPower),
            SensorId::LgDhwPowerActual => Some(ActuatedId::LgDhwPower),
            SensorId::LgHeatingWaterTargetActual => Some(ActuatedId::LgHeatingWaterTarget),
            SensorId::LgDhwTargetActual => Some(ActuatedId::LgDhwTarget),
        };
        assert_eq!(
            id.actuated_id(),
            expected,
            "SensorId::{id:?}.actuated_id() mismatch",
        );
    }
}

/// The universal rule for the fast-organic slice (cadence ≤ 15 s).
#[test]
fn fast_organic_sensors_satisfy_universal_rule() {
    for id in SensorId::all() {
        let cadence = id.reseed_cadence();
        if cadence > Duration::from_secs(15) {
            continue;
        }
        let staleness = id.freshness_threshold();
        let required = cadence.checked_mul(2).unwrap();
        assert!(
            staleness >= required,
            "SensorId::{id:?} (cadence={cadence:?}) staleness {staleness:?} \
             < 2× cadence {required:?}",
        );
    }
}

#[test]
fn sensor_catalogue_lists_every_variant_once() {
    let all = SensorId::all();
    assert_eq!(all.len(), 44);
    for (i, a) in all.iter().enumerate() {
        for b in &all[i + 1..] {
            assert_ne!(a, b);
        }
    }
}

#[test]
fn threshold_and_cadence_exact_values() {
    assert_eq!(SensorId::EvSoc.freshness_threshold().as_secs(), 43_200);
    assert_eq!(SensorId::OutdoorTemperature.freshness_threshold().as_secs(), 2_400);
    assert_eq!(SensorId::BatterySoc.freshness_threshold().as_secs(), 120);
    assert_eq!(SensorId::EssState.reseed_cadence().as_secs(), 300);
    assert_eq!(SensorId::GridPower.freshness_threshold().as_nanos(), 15_000_000_000);
}
