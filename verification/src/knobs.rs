//! User-controllable settings: their storage, how a write lands on them,
//! and the full list published at boot.
//!
//! Knob values that the shell keeps as floats, and the three setting
//! enums it defines (discharge time, debug full-charge, forecast
//! disagreement strategy), are type parameters here: `F`, `D`, `G`, `S`.

use vstd::prelude::*;

use vstd::std_specs::cmp::PartialEqSpec;

use crate::ids::KnobId;
use crate::weather_soc_addr::{CellField, EnergyBucket, TempCol};

verus! {

/// Whether a weather-driven output follows the planner or a forced knob.
#[derive(Clone, Copy, Debug, PartialEq, Eq, Structural, Hash)]
pub enum Mode {
    Forced,
    Weather,
}

/// Tri-state EV extended-charge mode.
#[derive(Clone, Copy, Debug, PartialEq, Eq, Structural, Hash)]
pub enum ExtendedChargeMode {
    Auto,
    Forced,
    Disabled,
}

/// Tri-state battery extended-charge mode.
#[derive(Clone, Copy, Debug, PartialEq, Eq, Structural, Hash)]
pub enum ChargeBatteryExtendedMode {
    Auto,
    Forced,
    Disabled,
}

/// A knob value, by shape.
#[derive(Clone, Copy, Debug, PartialEq)]
pub enum KnobValue<F, D, G, S> {
    Bool(bool),
    Float(F),
    Uint32(u32),
    DischargeTime(D),
    DebugFullCharge(G),
    ForecastDisagreementStrategy(S),
    ChargeBatteryExtendedMode(ChargeBatteryExtendedMode),
    ExtendedChargeMode(ExtendedChargeMode),
    Mode(Mode),
}

/// One cell of the weather-SoC lookup table.
#[derive(Clone, Copy, Debug, PartialEq)]
pub struct WeatherSocCell<F> {
    pub export_soc_threshold: F,
    pub battery_soc_target: F,
    pub discharge_soc_target: F,
    pub extended: bool,
}

/// The 6×2 weather-SoC lookup table: one cell per energy bucket and
/// temperature column.
#[derive(Clone, Copy, Debug, PartialEq)]
pub struct WeatherSocTable<F> {
    pub very_sunny_warm: WeatherSocCell<F>,
    pub very_sunny_cold: WeatherSocCell<F>,
    pub sunny_warm: WeatherSocCell<F>,
    pub sunny_cold: WeatherSocCell<F>,
    pub mid_warm: WeatherSocCell<F>,
    pub mid_cold: WeatherSocCell<F>,
    pub low_warm: WeatherSocCell<F>,
    pub low_cold: WeatherSocCell<F>,
    pub dim_warm: WeatherSocCell<F>,
    pub dim_cold: WeatherSocCell<F>,
    pub very_dim_warm: WeatherSocCell<F>,
    pub very_dim_cold: WeatherSocCell<F>,
}

impl<F> WeatherSocTable<F> {
    pub open spec fn spec_cell(self, bucket: EnergyBucket, temp: TempCol) -> WeatherSocCell<F> {
        match (bucket, temp) {
            (EnergyBucket::VerySunny, TempCol::Warm) => self.very_sunny_warm,
            (EnergyBucket::VerySunny, TempCol::Cold) => self.very_sunny_cold,
            (EnergyBucket::Sunny, TempCol::Warm) => self.sunny_warm,
            (EnergyBucket::Sunny, TempCol::Cold) => self.sunny_cold,
            (EnergyBucket::Mid, TempCol::Warm) => self.mid_warm,
            (EnergyBucket::Mid, TempCol::Cold) => self.mid_cold,
            (EnergyBucket::Low, TempCol::Warm) => self.low_warm,
            (EnergyBucket::Low, TempCol::Cold) => self.low_cold,
            (EnergyBucket::Dim, TempCol::Warm) => self.dim_warm,
            (EnergyBucket::Dim, TempCol::Cold) => self.dim_cold,
            (EnergyBucket::VeryDim, TempCol::Warm) => self.very_dim_warm,
            (EnergyBucket::VeryDim, TempCol::Cold) => self.very_dim_cold,
        }
    }

    pub open spec fn spec_with_cell(self, bucket: EnergyBucket, temp: TempCol, cell: WeatherSocCell<F>) -> Self {
        match (bucket, temp) {
            (EnergyBucket::VerySunny, TempCol::Warm) => WeatherSocTable { very_sunny_warm: cell, ..self },
            (EnergyBucket::VerySunny, TempCol::Cold) => WeatherSocTable { very_sunny_cold: cell, ..self },
            (EnergyBucket::Sunny, TempCol::Warm) => WeatherSocTable { sunny_warm: cell, ..self },
            (EnergyBucket::Sunny, TempCol::Cold) => WeatherSocTable { sunny_cold: cell, ..self },
            (EnergyBucket::Mid, TempCol::Warm) => WeatherSocTable { mid_warm: cell, ..self },
            (EnergyBucket::Mid, TempCol::Cold) => WeatherSocTable { mid_cold: cell, ..self },
            (EnergyBucket::Low, TempCol::Warm) => WeatherSocTable { low_warm: cell, ..self },
            (EnergyBucket::Low, TempCol::Cold) => WeatherSocTable { low_cold: cell, ..self },
            (EnergyBucket::Dim, TempCol::Warm) => WeatherSocTable { dim_warm: cell, ..self },
            (EnergyBucket::Dim, TempCol::Cold) => WeatherSocTable { dim_cold: cell, ..self },
            (EnergyBucket::VeryDim, TempCol::Warm) => WeatherSocTable { very_dim_warm: cell, ..self },
            (EnergyBucket::VeryDim, TempCol::Cold) => WeatherSocTable { very_dim_cold: cell, ..self },
        }
    }
}

impl<F: Copy> WeatherSocTable<F> {
    /// The cell at `(bucket, temp)`.
    pub fn cell(&self, bucket: EnergyBucket, temp: TempCol) -> (c: WeatherSocCell<F>)
        ensures
            c == self.spec_cell(bucket, temp),
    {
        match (bucket, temp) {
            (EnergyBucket::VerySunny, TempCol::Warm) => self.very_sunny_warm,
            (EnergyBucket::VerySunny, TempCol::Cold) => self.very_sunny_cold,
            (EnergyBucket::Sunny, TempCol::Warm) => self.sunny_warm,
            (EnergyBucket::Sunny, TempCol::Cold) => self.sunny_cold,
            (EnergyBucket::Mid, TempCol::Warm) => self.mid_warm,
            (EnergyBucket::Mid, TempCol::Cold) => self.mid_cold,
            (EnergyBucket::Low, TempCol::Warm) => self.low_warm,
            (EnergyBucket::Low, TempCol::Cold) => self.low_cold,
            (EnergyBucket::Dim, TempCol::Warm) => self.dim_warm,
            (EnergyBucket::Dim, TempCol::Cold) => self.dim_cold,
            (EnergyBucket::VeryDim, TempCol::Warm) => self.very_dim_warm,
            (EnergyBucket::VeryDim, TempCol::Cold) => self.very_dim_cold,
        }
    }

    /// Replace the cell at `(bucket, temp)`.
    pub fn set_cell(&mut self, bucket: EnergyBucket, temp: TempCol, cell: WeatherSocCell<F>)
        ensures
            *final(self) == old(self).spec_with_cell(bucket, temp, cell),
    {
        match (bucket, temp) {
            (EnergyBucket::VerySunny, TempCol::Warm) => self.very_sunny_warm = cell,
            (EnergyBucket::VerySunny, TempCol::Cold) => self.very_sunny_cold = cell,
            (EnergyBucket::Sunny, TempCol::Warm) => self.sunny_warm = cell,
            (EnergyBucket::Sunny, TempCol::Cold) => self.sunny_cold = cell,
            (EnergyBucket::Mid, TempCol::Warm) => self.mid_warm = cell,
            (EnergyBucket::Mid, TempCol::Cold) => self.mid_cold = cell,
            (EnergyBucket::Low, TempCol::Warm) => self.low_warm = cell,
            (EnergyBucket::Low, TempCol::Cold) => self.low_cold = cell,
            (EnergyBucket::Dim, TempCol::Warm) => self.dim_warm = cell,
            (EnergyBucket::Dim, TempCol::Cold) => self.dim_cold = cell,
            (EnergyBucket::VeryDim, TempCol::Warm) => self.very_dim_warm = cell,
            (EnergyBucket::VeryDim, TempCol::Cold) => self.very_dim_cold = cell,
        }
    }
}

/// Every user-controllable setting.
#[derive(Clone, Copy, Debug, PartialEq)]
pub struct Knobs<F, D, G, S> {
    pub force_disable_export: bool,
    pub export_soc_threshold: F,
    pub discharge_soc_target: F,
    pub battery_soc_target: F,
    pub full_charge_discharge_soc_target: F,
    pub full_charge_export_soc_threshold: F,
    pub discharge_time: D,
    pub debug_full_charge: G,
    pub pessimism_multiplier_modifier: F,
    pub disable_night_grid_discharge: bool,
    pub charge_car_boost: bool,
    pub charge_car_extended_mode: ExtendedChargeMode,
    pub zappi_current_target: F,
    pub zappi_limit: F,
    pub zappi_emergency_margin: F,
    pub grid_export_limit_w: u32,
    pub grid_import_limit_w: u32,
    pub allow_battery_to_car: bool,
    pub eddi_enable_soc: F,
    pub eddi_disable_soc: F,
    pub eddi_dwell_s: u32,
    pub weathersoc_winter_temperature_threshold: F,
    pub weathersoc_low_energy_threshold: F,
    pub weathersoc_ok_energy_threshold: F,
    pub weathersoc_high_energy_threshold: F,
    pub weathersoc_too_much_energy_threshold: F,
    pub weathersoc_very_sunny_threshold: F,
    pub forecast_disagreement_strategy: S,
    pub charge_battery_extended_mode: ChargeBatteryExtendedMode,
    pub export_soc_threshold_mode: Mode,
    pub discharge_soc_target_mode: Mode,
    pub battery_soc_target_mode: Mode,
    pub disable_night_grid_discharge_mode: Mode,
    pub inverter_safe_discharge_enable: bool,
    pub baseline_winter_start_mm_dd: u32,
    pub baseline_winter_end_mm_dd: u32,
    pub baseline_wh_per_hour_winter: F,
    pub baseline_wh_per_hour_summer: F,
    pub keep_batteries_charged_during_full_charge: bool,
    pub sunrise_sunset_offset_min: u32,
    pub full_charge_defer_to_next_sunday: bool,
    pub full_charge_snap_back_max_weekday: u32,
    pub zappi_battery_drain_threshold_w: u32,
    pub zappi_battery_drain_relax_step_w: u32,
    pub zappi_battery_drain_hard_clamp_w: u32,
    pub zappi_battery_drain_kp: F,
    /// Reserved PI reference (W); written through a float knob, rounded.
    pub zappi_battery_drain_target_w: i32,
    pub zappi_battery_drain_mppt_probe_w: u32,
    pub actuator_retry_s: u32,
    pub weather_soc_table: WeatherSocTable<F>,
}

/// A cell field's value, by shape.
pub open spec fn spec_cell_value<F, D, G, S>(cell: WeatherSocCell<F>, field: CellField) -> KnobValue<F, D, G, S> {
    match field {
        CellField::ExportSocThreshold => KnobValue::Float(cell.export_soc_threshold),
        CellField::BatterySocTarget => KnobValue::Float(cell.battery_soc_target),
        CellField::DischargeSocTarget => KnobValue::Float(cell.discharge_soc_target),
        CellField::Extended => KnobValue::Bool(cell.extended),
    }
}

/// The value a knob holds, for every knob stored as the value a write
/// carries. The drain target (stored rounded to whole watts) and the
/// heat-pump knobs (not stored here) have none.
pub open spec fn spec_knob_value<F, D, G, S>(k: Knobs<F, D, G, S>, id: KnobId) -> Option<KnobValue<F, D, G, S>> {
    match id {
        KnobId::ForceDisableExport => Some(KnobValue::Bool(k.force_disable_export)),
        KnobId::ExportSocThreshold => Some(KnobValue::Float(k.export_soc_threshold)),
        KnobId::DischargeSocTarget => Some(KnobValue::Float(k.discharge_soc_target)),
        KnobId::BatterySocTarget => Some(KnobValue::Float(k.battery_soc_target)),
        KnobId::FullChargeDischargeSocTarget => Some(KnobValue::Float(k.full_charge_discharge_soc_target)),
        KnobId::FullChargeExportSocThreshold => Some(KnobValue::Float(k.full_charge_export_soc_threshold)),
        KnobId::DischargeTime => Some(KnobValue::DischargeTime(k.discharge_time)),
        KnobId::DebugFullCharge => Some(KnobValue::DebugFullCharge(k.debug_full_charge)),
        KnobId::PessimismMultiplierModifier => Some(KnobValue::Float(k.pessimism_multiplier_modifier)),
        KnobId::DisableNightGridDischarge => Some(KnobValue::Bool(k.disable_night_grid_discharge)),
        KnobId::ChargeCarBoost => Some(KnobValue::Bool(k.charge_car_boost)),
        KnobId::ChargeCarExtendedMode => Some(KnobValue::ExtendedChargeMode(k.charge_car_extended_mode)),
        KnobId::ZappiCurrentTarget => Some(KnobValue::Float(k.zappi_current_target)),
        KnobId::ZappiLimit => Some(KnobValue::Float(k.zappi_limit)),
        KnobId::ZappiEmergencyMargin => Some(KnobValue::Float(k.zappi_emergency_margin)),
        KnobId::GridExportLimitW => Some(KnobValue::Uint32(k.grid_export_limit_w)),
        KnobId::GridImportLimitW => Some(KnobValue::Uint32(k.grid_import_limit_w)),
        KnobId::AllowBatteryToCar => Some(KnobValue::Bool(k.allow_battery_to_car)),
        KnobId::EddiEnableSoc => Some(KnobValue::Float(k.eddi_enable_soc)),
        KnobId::EddiDisableSoc => Some(KnobValue::Float(k.eddi_disable_soc)),
        KnobId::EddiDwellS => Some(KnobValue::Uint32(k.eddi_dwell_s)),
        KnobId::WeathersocWinterTemperatureThreshold => Some(KnobValue::Float(k.weathersoc_winter_temperature_threshold)),
        KnobId::WeathersocLowEnergyThreshold => Some(KnobValue::Float(k.weathersoc_low_energy_threshold)),
        KnobId::WeathersocOkEnergyThreshold => Some(KnobValue::Float(k.weathersoc_ok_energy_threshold)),
        KnobId::WeathersocHighEnergyThreshold => Some(KnobValue::Float(k.weathersoc_high_energy_threshold)),
        KnobId::WeathersocTooMuchEnergyThreshold => Some(KnobValue::Float(k.weathersoc_too_much_energy_threshold)),
        KnobId::WeathersocVerySunnyThreshold => Some(KnobValue::Float(k.weathersoc_very_sunny_threshold)),
        KnobId::ForecastDisagreementStrategy => Some(KnobValue::ForecastDisagreementStrategy(k.forecast_disagreement_strategy)),
        KnobId::ChargeBatteryExtendedMode => Some(KnobValue::ChargeBatteryExtendedMode(k.charge_battery_extended_mode)),
        KnobId::ExportSocThresholdMode => Some(KnobValue::Mode(k.export_soc_threshold_mode)),
        KnobId::DischargeSocTargetMode => Some(KnobValue::Mode(k.discharge_soc_target_mode)),
        KnobId::BatterySocTargetMode => Some(KnobValue::Mode(k.battery_soc_target_mode)),
        KnobId::DisableNightGridDischargeMode => Some(KnobValue::Mode(k.disable_night_grid_discharge_mode)),
        KnobId::InverterSafeDischargeEnable => Some(KnobValue::Bool(k.inverter_safe_discharge_enable)),
        KnobId::BaselineWinterStartMmDd => Some(KnobValue::Uint32(k.baseline_winter_start_mm_dd)),
        KnobId::BaselineWinterEndMmDd => Some(KnobValue::Uint32(k.baseline_winter_end_mm_dd)),
        KnobId::BaselineWhPerHourWinter => Some(KnobValue::Float(k.baseline_wh_per_hour_winter)),
        KnobId::BaselineWhPerHourSummer => Some(KnobValue::Float(k.baseline_wh_per_hour_summer)),
        KnobId::KeepBatteriesChargedDuringFullCharge => Some(KnobValue::Bool(k.keep_batteries_charged_during_full_charge)),
        KnobId::SunriseSunsetOffsetMin => Some(KnobValue::Uint32(k.sunrise_sunset_offset_min)),
        KnobId::FullChargeDeferToNextSunday => Some(KnobValue::Bool(k.full_charge_defer_to_next_sunday)),
        KnobId::FullChargeSnapBackMaxWeekday => Some(KnobValue::Uint32(k.full_charge_snap_back_max_weekday)),
        KnobId::ZappiBatteryDrainThresholdW => Some(KnobValue::Uint32(k.zappi_battery_drain_threshold_w)),
        KnobId::ZappiBatteryDrainRelaxStepW => Some(KnobValue::Uint32(k.zappi_battery_drain_relax_step_w)),
        KnobId::ZappiBatteryDrainHardClampW => Some(KnobValue::Uint32(k.zappi_battery_drain_hard_clamp_w)),
        KnobId::ZappiBatteryDrainKp => Some(KnobValue::Float(k.zappi_battery_drain_kp)),
        KnobId::ZappiBatteryDrainMpptProbeW => Some(KnobValue::Uint32(k.zappi_battery_drain_mppt_probe_w)),
        KnobId::ActuatorRetryS => Some(KnobValue::Uint32(k.actuator_retry_s)),
        KnobId::WeathersocTableCell { bucket, temp, field } => Some(
            spec_cell_value(k.weather_soc_table.spec_cell(bucket, temp), field),
        ),
        _ => None,
    }
}

/// Whether a write of `value` to knob `id` has the shape the knob takes.
pub open spec fn spec_knob_accepts<F, D, G, S>(id: KnobId, value: KnobValue<F, D, G, S>) -> bool {
    match id {
        KnobId::ForceDisableExport => value is Bool,
        KnobId::ExportSocThreshold => value is Float,
        KnobId::DischargeSocTarget => value is Float,
        KnobId::BatterySocTarget => value is Float,
        KnobId::FullChargeDischargeSocTarget => value is Float,
        KnobId::FullChargeExportSocThreshold => value is Float,
        KnobId::DischargeTime => value is DischargeTime,
        KnobId::DebugFullCharge => value is DebugFullCharge,
        KnobId::PessimismMultiplierModifier => value is Float,
        KnobId::DisableNightGridDischarge => value is Bool,
        KnobId::ChargeCarBoost => value is Bool,
        KnobId::ChargeCarExtendedMode => value is ExtendedChargeMode,
        KnobId::ZappiCurrentTarget => value is Float,
        KnobId::ZappiLimit => value is Float,
        KnobId::ZappiEmergencyMargin => value is Float,
        KnobId::GridExportLimitW => value is Uint32,
        KnobId::GridImportLimitW => value is Uint32,
        KnobId::AllowBatteryToCar => value is Bool,
        KnobId::EddiEnableSoc => value is Float,
        KnobId::EddiDisableSoc => value is Float,
        KnobId::EddiDwellS => value is Uint32,
        KnobId::WeathersocWinterTemperatureThreshold => value is Float,
        KnobId::WeathersocLowEnergyThreshold => value is Float,
        KnobId::WeathersocOkEnergyThreshold => value is Float,
        KnobId::WeathersocHighEnergyThreshold => value is Float,
        KnobId::WeathersocTooMuchEnergyThreshold => value is Float,
        KnobId::WeathersocVerySunnyThreshold => value is Float,
        KnobId::ForecastDisagreementStrategy => value is ForecastDisagreementStrategy,
        KnobId::ChargeBatteryExtendedMode => value is ChargeBatteryExtendedMode,
        KnobId::ExportSocThresholdMode => value is Mode,
        KnobId::DischargeSocTargetMode => value is Mode,
        KnobId::BatterySocTargetMode => value is Mode,
        KnobId::DisableNightGridDischargeMode => value is Mode,
        KnobId::InverterSafeDischargeEnable => value is Bool,
        KnobId::BaselineWinterStartMmDd => value is Uint32,
        KnobId::BaselineWinterEndMmDd => value is Uint32,
        KnobId::BaselineWhPerHourWinter => value is Float,
        KnobId::BaselineWhPerHourSummer => value is Float,
        KnobId::KeepBatteriesChargedDuringFullCharge => value is Bool,
        KnobId::SunriseSunsetOffsetMin => value is Uint32,
        KnobId::FullChargeDeferToNextSunday => value is Bool,
        KnobId::FullChargeSnapBackMaxWeekday => value is Uint32,
        KnobId::ZappiBatteryDrainThresholdW => value is Uint32,
        KnobId::ZappiBatteryDrainRelaxStepW => value is Uint32,
        KnobId::ZappiBatteryDrainHardClampW => value is Uint32,
        KnobId::ZappiBatteryDrainKp => value is Float,
        KnobId::ZappiBatteryDrainMpptProbeW => value is Uint32,
        KnobId::ActuatorRetryS => value is Uint32,
        KnobId::ZappiBatteryDrainTargetW => value is Float,
        KnobId::WeathersocTableCell { field, .. } => if field is Extended {
            value is Bool
        } else {
            value is Float
        },
        _ => false,
    }
}


/// The settings after an accepted write of `value` to `id` (the drain
/// target aside, whose stored value is rounded by the caller's rule).
pub open spec fn spec_set_knob<F, D, G, S>(k: Knobs<F, D, G, S>, id: KnobId, value: KnobValue<F, D, G, S>) -> Knobs<
    F,
    D,
    G,
    S,
> {
    match id {
        KnobId::ForceDisableExport => match value {
            KnobValue::Bool(v) => Knobs { force_disable_export: v, ..k },
            _ => k,
        },
        KnobId::ExportSocThreshold => match value {
            KnobValue::Float(v) => Knobs { export_soc_threshold: v, ..k },
            _ => k,
        },
        KnobId::DischargeSocTarget => match value {
            KnobValue::Float(v) => Knobs { discharge_soc_target: v, ..k },
            _ => k,
        },
        KnobId::BatterySocTarget => match value {
            KnobValue::Float(v) => Knobs { battery_soc_target: v, ..k },
            _ => k,
        },
        KnobId::FullChargeDischargeSocTarget => match value {
            KnobValue::Float(v) => Knobs { full_charge_discharge_soc_target: v, ..k },
            _ => k,
        },
        KnobId::FullChargeExportSocThreshold => match value {
            KnobValue::Float(v) => Knobs { full_charge_export_soc_threshold: v, ..k },
            _ => k,
        },
        KnobId::DischargeTime => match value {
            KnobValue::DischargeTime(v) => Knobs { discharge_time: v, ..k },
            _ => k,
        },
        KnobId::DebugFullCharge => match value {
            KnobValue::DebugFullCharge(v) => Knobs { debug_full_charge: v, ..k },
            _ => k,
        },
        KnobId::PessimismMultiplierModifier => match value {
            KnobValue::Float(v) => Knobs { pessimism_multiplier_modifier: v, ..k },
            _ => k,
        },
        KnobId::DisableNightGridDischarge => match value {
            KnobValue::Bool(v) => Knobs { disable_night_grid_discharge: v, ..k },
            _ => k,
        },
        KnobId::ChargeCarBoost => match value {
            KnobValue::Bool(v) => Knobs { charge_car_boost: v, ..k },
            _ => k,
        },
        KnobId::ChargeCarExtendedMode => match value {
            KnobValue::ExtendedChargeMode(v) => Knobs { charge_car_extended_mode: v, ..k },
            _ => k,
        },
        KnobId::ZappiCurrentTarget => match value {
            KnobValue::Float(v) => Knobs { zappi_current_target: v, ..k },
            _ => k,
        },
        KnobId::ZappiLimit => match value {
            KnobValue::Float(v) => Knobs { zappi_limit: v, ..k },
            _ => k,
        },
        KnobId::ZappiEmergencyMargin => match value {
            KnobValue::Float(v) => Knobs { zappi_emergency_margin: v, ..k },
            _ => k,
        },
        KnobId::GridExportLimitW => match value {
            KnobValue::Uint32(v) => Knobs { grid_export_limit_w: v, ..k },
            _ => k,
        },
        KnobId::GridImportLimitW => match value {
            KnobValue::Uint32(v) => Knobs { grid_import_limit_w: v, ..k },
            _ => k,
        },
        KnobId::AllowBatteryToCar => match value {
            KnobValue::Bool(v) => Knobs { allow_battery_to_car: v, ..k },
            _ => k,
        },
        KnobId::EddiEnableSoc => match value {
            KnobValue::Float(v) => Knobs { eddi_enable_soc: v, ..k },
            _ => k,
        },
        KnobId::EddiDisableSoc => match value {
            KnobValue::Float(v) => Knobs { eddi_disable_soc: v, ..k },
            _ => k,
        },
        KnobId::EddiDwellS => match value {
            KnobValue::Uint32(v) => Knobs { eddi_dwell_s: v, ..k },
            _ => k,
        },
        KnobId::WeathersocWinterTemperatureThreshold => match value {
            KnobValue::Float(v) => Knobs { weathersoc_winter_temperature_threshold: v, ..k },
            _ => k,
        },
        KnobId::WeathersocLowEnergyThreshold => match value {
            KnobValue::Float(v) => Knobs { weathersoc_low_energy_threshold: v, ..k },
            _ => k,
        },
        KnobId::WeathersocOkEnergyThreshold => match value {
            KnobValue::Float(v) => Knobs { weathersoc_ok_energy_threshold: v, ..k },
            _ => k,
        },
        KnobId::WeathersocHighEnergyThreshold => match value {
            KnobValue::Float(v) => Knobs { weathersoc_high_energy_threshold: v, ..k },
            _ => k,
        },
        KnobId::WeathersocTooMuchEnergyThreshold => match value {
            KnobValue::Float(v) => Knobs { weathersoc_too_much_energy_threshold: v, ..k },
            _ => k,
        },
        KnobId::WeathersocVerySunnyThreshold => match value {
            KnobValue::Float(v) => Knobs { weathersoc_very_sunny_threshold: v, ..k },
            _ => k,
        },
        KnobId::ForecastDisagreementStrategy => match value {
            KnobValue::ForecastDisagreementStrategy(v) => Knobs { forecast_disagreement_strategy: v, ..k },
            _ => k,
        },
        KnobId::ChargeBatteryExtendedMode => match value {
            KnobValue::ChargeBatteryExtendedMode(v) => Knobs { charge_battery_extended_mode: v, ..k },
            _ => k,
        },
        KnobId::ExportSocThresholdMode => match value {
            KnobValue::Mode(v) => Knobs { export_soc_threshold_mode: v, ..k },
            _ => k,
        },
        KnobId::DischargeSocTargetMode => match value {
            KnobValue::Mode(v) => Knobs { discharge_soc_target_mode: v, ..k },
            _ => k,
        },
        KnobId::BatterySocTargetMode => match value {
            KnobValue::Mode(v) => Knobs { battery_soc_target_mode: v, ..k },
            _ => k,
        },
        KnobId::DisableNightGridDischargeMode => match value {
            KnobValue::Mode(v) => Knobs { disable_night_grid_discharge_mode: v, ..k },
            _ => k,
        },
        KnobId::InverterSafeDischargeEnable => match value {
            KnobValue::Bool(v) => Knobs { inverter_safe_discharge_enable: v, ..k },
            _ => k,
        },
        KnobId::BaselineWinterStartMmDd => match value {
            KnobValue::Uint32(v) => Knobs { baseline_winter_start_mm_dd: v, ..k },
            _ => k,
        },
        KnobId::BaselineWinterEndMmDd => match value {
            KnobValue::Uint32(v) => Knobs { baseline_winter_end_mm_dd: v, ..k },
            _ => k,
        },
        KnobId::BaselineWhPerHourWinter => match value {
            KnobValue::Float(v) => Knobs { baseline_wh_per_hour_winter: v, ..k },
            _ => k,
        },
        KnobId::BaselineWhPerHourSummer => match value {
            KnobValue::Float(v) => Knobs { baseline_wh_per_hour_summer: v, ..k },
            _ => k,
        },
        KnobId::KeepBatteriesChargedDuringFullCharge => match value {
            KnobValue::Bool(v) => Knobs { keep_batteries_charged_during_full_charge: v, ..k },
            _ => k,
        },
        KnobId::SunriseSunsetOffsetMin => match value {
            KnobValue::Uint32(v) => Knobs { sunrise_sunset_offset_min: v, ..k },
            _ => k,
        },
        KnobId::FullChargeDeferToNextSunday => match value {
            KnobValue::Bool(v) => Knobs { full_charge_defer_to_next_sunday: v, ..k },
            _ => k,
        },
        KnobId::FullChargeSnapBackMaxWeekday => match value {
            KnobValue::Uint32(v) => Knobs { full_charge_snap_back_max_weekday: v, ..k },
            _ => k,
        },
        KnobId::ZappiBatteryDrainThresholdW => match value {
            KnobValue::Uint32(v) => Knobs { zappi_battery_drain_threshold_w: v, ..k },
            _ => k,
        },
        KnobId::ZappiBatteryDrainRelaxStepW => match value {
            KnobValue::Uint32(v) => Knobs { zappi_battery_drain_relax_step_w: v, ..k },
            _ => k,
        },
        KnobId::ZappiBatteryDrainHardClampW => match value {
            KnobValue::Uint32(v) => Knobs { zappi_battery_drain_hard_clamp_w: v, ..k },
            _ => k,
        },
        KnobId::ZappiBatteryDrainKp => match value {
            KnobValue::Float(v) => Knobs { zappi_battery_drain_kp: v, ..k },
            _ => k,
        },
        KnobId::ZappiBatteryDrainMpptProbeW => match value {
            KnobValue::Uint32(v) => Knobs { zappi_battery_drain_mppt_probe_w: v, ..k },
            _ => k,
        },
        KnobId::ActuatorRetryS => match value {
            KnobValue::Uint32(v) => Knobs { actuator_retry_s: v, ..k },
            _ => k,
        },
        KnobId::WeathersocTableCell { bucket, temp, field } => {
            let cell = k.weather_soc_table.spec_cell(bucket, temp);
            let new_cell = match (field, value) {
                (CellField::ExportSocThreshold, KnobValue::Float(v)) => WeatherSocCell { export_soc_threshold: v, ..cell },
                (CellField::BatterySocTarget, KnobValue::Float(v)) => WeatherSocCell { battery_soc_target: v, ..cell },
                (CellField::DischargeSocTarget, KnobValue::Float(v)) => WeatherSocCell { discharge_soc_target: v, ..cell },
                (CellField::Extended, KnobValue::Bool(v)) => WeatherSocCell { extended: v, ..cell },
                _ => cell,
            };
            Knobs { weather_soc_table: k.weather_soc_table.spec_with_cell(bucket, temp, new_cell), ..k }
        },
        _ => k,
    }
}

/// A knob write reads back: after an accepted write of `value` to `id`
/// (the rounded drain target aside), `id` holds exactly `value`, every
/// other knob holds what it held, and the drain target is untouched.
pub proof fn lemma_knob_write_reads_back<F, D, G, S>(
    k: Knobs<F, D, G, S>,
    id: KnobId,
    value: KnobValue<F, D, G, S>,
    other: KnobId,
)
    requires
        spec_knob_accepts(id, value),
        !(id is ZappiBatteryDrainTargetW),
    ensures
        spec_knob_value(spec_set_knob(k, id, value), id) == Some(value),
        other != id ==> spec_knob_value(spec_set_knob(k, id, value), other) == spec_knob_value(k, other),
        spec_set_knob(k, id, value).zappi_battery_drain_target_w == k.zappi_battery_drain_target_w,
{
    if id is WeathersocTableCell {
        lemma_cell_write_reads_back(k, id, value, other);
    } else {
        lemma_scalar_write_reads_back(k, id, value, other);
    }
}

proof fn lemma_scalar_write_reads_back<F, D, G, S>(
    k: Knobs<F, D, G, S>,
    id: KnobId,
    value: KnobValue<F, D, G, S>,
    other: KnobId,
)
    requires
        spec_knob_accepts(id, value),
        !(id is ZappiBatteryDrainTargetW),
        !(id is WeathersocTableCell),
    ensures
        spec_knob_value(spec_set_knob(k, id, value), id) == Some(value),
        other != id ==> spec_knob_value(spec_set_knob(k, id, value), other) == spec_knob_value(k, other),
        spec_set_knob(k, id, value).zappi_battery_drain_target_w == k.zappi_battery_drain_target_w,
{
    match value {
        KnobValue::Bool(_) => lemma_bool_write_reads_back(k, id, value, other),
        KnobValue::Float(_) => lemma_float_write_reads_back(k, id, value, other),
        KnobValue::Uint32(_) => lemma_uint32_write_reads_back(k, id, value, other),
        KnobValue::DischargeTime(_) => lemma_discharge_time_write_reads_back(k, id, value, other),
        KnobValue::DebugFullCharge(_) => lemma_debug_full_charge_write_reads_back(k, id, value, other),
        KnobValue::ForecastDisagreementStrategy(_) => lemma_forecast_disagreement_strategy_write_reads_back(k, id, value, other),
        KnobValue::ChargeBatteryExtendedMode(_) => lemma_charge_battery_extended_mode_write_reads_back(k, id, value, other),
        KnobValue::ExtendedChargeMode(_) => lemma_extended_charge_mode_write_reads_back(k, id, value, other),
        KnobValue::Mode(_) => lemma_mode_write_reads_back(k, id, value, other),
    }
}

#[verifier::rlimit(50)]
proof fn lemma_bool_write_reads_back<F, D, G, S>(
    k: Knobs<F, D, G, S>,
    id: KnobId,
    value: KnobValue<F, D, G, S>,
    other: KnobId,
)
    requires
        spec_knob_accepts(id, value),
        value is Bool,
        !(id is ZappiBatteryDrainTargetW),
        !(id is WeathersocTableCell),
    ensures
        spec_knob_value(spec_set_knob(k, id, value), id) == Some(value),
        other != id ==> spec_knob_value(spec_set_knob(k, id, value), other) == spec_knob_value(k, other),
        spec_set_knob(k, id, value).zappi_battery_drain_target_w == k.zappi_battery_drain_target_w,
{
    let v = value->Bool_0;
    match id {
        KnobId::ForceDisableExport => lemma_write_force_disable_export(k, v, other),
        KnobId::DisableNightGridDischarge => lemma_write_disable_night_grid_discharge(k, v, other),
        KnobId::ChargeCarBoost => lemma_write_charge_car_boost(k, v, other),
        KnobId::AllowBatteryToCar => lemma_write_allow_battery_to_car(k, v, other),
        KnobId::InverterSafeDischargeEnable => lemma_write_inverter_safe_discharge_enable(k, v, other),
        KnobId::KeepBatteriesChargedDuringFullCharge => lemma_write_keep_batteries_charged_during_full_charge(k, v, other),
        KnobId::FullChargeDeferToNextSunday => lemma_write_full_charge_defer_to_next_sunday(k, v, other),
        _ => {},
    }
}

#[verifier::rlimit(50)]
proof fn lemma_float_write_reads_back<F, D, G, S>(
    k: Knobs<F, D, G, S>,
    id: KnobId,
    value: KnobValue<F, D, G, S>,
    other: KnobId,
)
    requires
        spec_knob_accepts(id, value),
        value is Float,
        !(id is ZappiBatteryDrainTargetW),
        !(id is WeathersocTableCell),
    ensures
        spec_knob_value(spec_set_knob(k, id, value), id) == Some(value),
        other != id ==> spec_knob_value(spec_set_knob(k, id, value), other) == spec_knob_value(k, other),
        spec_set_knob(k, id, value).zappi_battery_drain_target_w == k.zappi_battery_drain_target_w,
{
    let v = value->Float_0;
    match id {
        KnobId::ExportSocThreshold => lemma_write_export_soc_threshold(k, v, other),
        KnobId::DischargeSocTarget => lemma_write_discharge_soc_target(k, v, other),
        KnobId::BatterySocTarget => lemma_write_battery_soc_target(k, v, other),
        KnobId::FullChargeDischargeSocTarget => lemma_write_full_charge_discharge_soc_target(k, v, other),
        KnobId::FullChargeExportSocThreshold => lemma_write_full_charge_export_soc_threshold(k, v, other),
        KnobId::PessimismMultiplierModifier => lemma_write_pessimism_multiplier_modifier(k, v, other),
        KnobId::ZappiCurrentTarget => lemma_write_zappi_current_target(k, v, other),
        KnobId::ZappiLimit => lemma_write_zappi_limit(k, v, other),
        KnobId::ZappiEmergencyMargin => lemma_write_zappi_emergency_margin(k, v, other),
        KnobId::EddiEnableSoc => lemma_write_eddi_enable_soc(k, v, other),
        KnobId::EddiDisableSoc => lemma_write_eddi_disable_soc(k, v, other),
        KnobId::WeathersocWinterTemperatureThreshold => lemma_write_weathersoc_winter_temperature_threshold(k, v, other),
        KnobId::WeathersocLowEnergyThreshold => lemma_write_weathersoc_low_energy_threshold(k, v, other),
        KnobId::WeathersocOkEnergyThreshold => lemma_write_weathersoc_ok_energy_threshold(k, v, other),
        KnobId::WeathersocHighEnergyThreshold => lemma_write_weathersoc_high_energy_threshold(k, v, other),
        KnobId::WeathersocTooMuchEnergyThreshold => lemma_write_weathersoc_too_much_energy_threshold(k, v, other),
        KnobId::WeathersocVerySunnyThreshold => lemma_write_weathersoc_very_sunny_threshold(k, v, other),
        KnobId::BaselineWhPerHourWinter => lemma_write_baseline_wh_per_hour_winter(k, v, other),
        KnobId::BaselineWhPerHourSummer => lemma_write_baseline_wh_per_hour_summer(k, v, other),
        KnobId::ZappiBatteryDrainKp => lemma_write_zappi_battery_drain_kp(k, v, other),
        _ => {},
    }
}

#[verifier::rlimit(50)]
proof fn lemma_uint32_write_reads_back<F, D, G, S>(
    k: Knobs<F, D, G, S>,
    id: KnobId,
    value: KnobValue<F, D, G, S>,
    other: KnobId,
)
    requires
        spec_knob_accepts(id, value),
        value is Uint32,
        !(id is ZappiBatteryDrainTargetW),
        !(id is WeathersocTableCell),
    ensures
        spec_knob_value(spec_set_knob(k, id, value), id) == Some(value),
        other != id ==> spec_knob_value(spec_set_knob(k, id, value), other) == spec_knob_value(k, other),
        spec_set_knob(k, id, value).zappi_battery_drain_target_w == k.zappi_battery_drain_target_w,
{
    let v = value->Uint32_0;
    match id {
        KnobId::GridExportLimitW => lemma_write_grid_export_limit_w(k, v, other),
        KnobId::GridImportLimitW => lemma_write_grid_import_limit_w(k, v, other),
        KnobId::EddiDwellS => lemma_write_eddi_dwell_s(k, v, other),
        KnobId::BaselineWinterStartMmDd => lemma_write_baseline_winter_start_mm_dd(k, v, other),
        KnobId::BaselineWinterEndMmDd => lemma_write_baseline_winter_end_mm_dd(k, v, other),
        KnobId::SunriseSunsetOffsetMin => lemma_write_sunrise_sunset_offset_min(k, v, other),
        KnobId::FullChargeSnapBackMaxWeekday => lemma_write_full_charge_snap_back_max_weekday(k, v, other),
        KnobId::ZappiBatteryDrainThresholdW => lemma_write_zappi_battery_drain_threshold_w(k, v, other),
        KnobId::ZappiBatteryDrainRelaxStepW => lemma_write_zappi_battery_drain_relax_step_w(k, v, other),
        KnobId::ZappiBatteryDrainHardClampW => lemma_write_zappi_battery_drain_hard_clamp_w(k, v, other),
        KnobId::ZappiBatteryDrainMpptProbeW => lemma_write_zappi_battery_drain_mppt_probe_w(k, v, other),
        KnobId::ActuatorRetryS => lemma_write_actuator_retry_s(k, v, other),
        _ => {},
    }
}

#[verifier::rlimit(50)]
proof fn lemma_discharge_time_write_reads_back<F, D, G, S>(
    k: Knobs<F, D, G, S>,
    id: KnobId,
    value: KnobValue<F, D, G, S>,
    other: KnobId,
)
    requires
        spec_knob_accepts(id, value),
        value is DischargeTime,
        !(id is ZappiBatteryDrainTargetW),
        !(id is WeathersocTableCell),
    ensures
        spec_knob_value(spec_set_knob(k, id, value), id) == Some(value),
        other != id ==> spec_knob_value(spec_set_knob(k, id, value), other) == spec_knob_value(k, other),
        spec_set_knob(k, id, value).zappi_battery_drain_target_w == k.zappi_battery_drain_target_w,
{
    let v = value->DischargeTime_0;
    match id {
        KnobId::DischargeTime => lemma_write_discharge_time(k, v, other),
        _ => {},
    }
}

#[verifier::rlimit(50)]
proof fn lemma_debug_full_charge_write_reads_back<F, D, G, S>(
    k: Knobs<F, D, G, S>,
    id: KnobId,
    value: KnobValue<F, D, G, S>,
    other: KnobId,
)
    requires
        spec_knob_accepts(id, value),
        value is DebugFullCharge,
        !(id is ZappiBatteryDrainTargetW),
        !(id is WeathersocTableCell),
    ensures
        spec_knob_value(spec_set_knob(k, id, value), id) == Some(value),
        other != id ==> spec_knob_value(spec_set_knob(k, id, value), other) == spec_knob_value(k, other),
        spec_set_knob(k, id, value).zappi_battery_drain_target_w == k.zappi_battery_drain_target_w,
{
    let v = value->DebugFullCharge_0;
    match id {
        KnobId::DebugFullCharge => lemma_write_debug_full_charge(k, v, other),
        _ => {},
    }
}

#[verifier::rlimit(50)]
proof fn lemma_forecast_disagreement_strategy_write_reads_back<F, D, G, S>(
    k: Knobs<F, D, G, S>,
    id: KnobId,
    value: KnobValue<F, D, G, S>,
    other: KnobId,
)
    requires
        spec_knob_accepts(id, value),
        value is ForecastDisagreementStrategy,
        !(id is ZappiBatteryDrainTargetW),
        !(id is WeathersocTableCell),
    ensures
        spec_knob_value(spec_set_knob(k, id, value), id) == Some(value),
        other != id ==> spec_knob_value(spec_set_knob(k, id, value), other) == spec_knob_value(k, other),
        spec_set_knob(k, id, value).zappi_battery_drain_target_w == k.zappi_battery_drain_target_w,
{
    let v = value->ForecastDisagreementStrategy_0;
    match id {
        KnobId::ForecastDisagreementStrategy => lemma_write_forecast_disagreement_strategy(k, v, other),
        _ => {},
    }
}

#[verifier::rlimit(50)]
proof fn lemma_charge_battery_extended_mode_write_reads_back<F, D, G, S>(
    k: Knobs<F, D, G, S>,
    id: KnobId,
    value: KnobValue<F, D, G, S>,
    other: KnobId,
)
    requires
        spec_knob_accepts(id, value),
        value is ChargeBatteryExtendedMode,
        !(id is ZappiBatteryDrainTargetW),
        !(id is WeathersocTableCell),
    ensures
        spec_knob_value(spec_set_knob(k, id, value), id) == Some(value),
        other != id ==> spec_knob_value(spec_set_knob(k, id, value), other) == spec_knob_value(k, other),
        spec_set_knob(k, id, value).zappi_battery_drain_target_w == k.zappi_battery_drain_target_w,
{
    let v = value->ChargeBatteryExtendedMode_0;
    match id {
        KnobId::ChargeBatteryExtendedMode => lemma_write_charge_battery_extended_mode(k, v, other),
        _ => {},
    }
}

#[verifier::rlimit(50)]
proof fn lemma_extended_charge_mode_write_reads_back<F, D, G, S>(
    k: Knobs<F, D, G, S>,
    id: KnobId,
    value: KnobValue<F, D, G, S>,
    other: KnobId,
)
    requires
        spec_knob_accepts(id, value),
        value is ExtendedChargeMode,
        !(id is ZappiBatteryDrainTargetW),
        !(id is WeathersocTableCell),
    ensures
        spec_knob_value(spec_set_knob(k, id, value), id) == Some(value),
        other != id ==> spec_knob_value(spec_set_knob(k, id, value), other) == spec_knob_value(k, other),
        spec_set_knob(k, id, value).zappi_battery_drain_target_w == k.zappi_battery_drain_target_w,
{
    let v = value->ExtendedChargeMode_0;
    match id {
        KnobId::ChargeCarExtendedMode => lemma_write_charge_car_extended_mode(k, v, other),
        _ => {},
    }
}

#[verifier::rlimit(50)]
proof fn lemma_mode_write_reads_back<F, D, G, S>(
    k: Knobs<F, D, G, S>,
    id: KnobId,
    value: KnobValue<F, D, G, S>,
    other: KnobId,
)
    requires
        spec_knob_accepts(id, value),
        value is Mode,
        !(id is ZappiBatteryDrainTargetW),
        !(id is WeathersocTableCell),
    ensures
        spec_knob_value(spec_set_knob(k, id, value), id) == Some(value),
        other != id ==> spec_knob_value(spec_set_knob(k, id, value), other) == spec_knob_value(k, other),
        spec_set_knob(k, id, value).zappi_battery_drain_target_w == k.zappi_battery_drain_target_w,
{
    let v = value->Mode_0;
    match id {
        KnobId::ExportSocThresholdMode => lemma_write_export_soc_threshold_mode(k, v, other),
        KnobId::DischargeSocTargetMode => lemma_write_discharge_soc_target_mode(k, v, other),
        KnobId::BatterySocTargetMode => lemma_write_battery_soc_target_mode(k, v, other),
        KnobId::DisableNightGridDischargeMode => lemma_write_disable_night_grid_discharge_mode(k, v, other),
        _ => {},
    }
}

proof fn lemma_write_force_disable_export<F, D, G, S>(k: Knobs<F, D, G, S>, v: bool, other: KnobId)
    ensures
        spec_knob_value(spec_set_knob(k, KnobId::ForceDisableExport, KnobValue::<F, D, G, S>::Bool(v)), KnobId::ForceDisableExport) == Some(
            KnobValue::<F, D, G, S>::Bool(v),
        ),
        other != KnobId::ForceDisableExport ==> spec_knob_value(spec_set_knob(k, KnobId::ForceDisableExport, KnobValue::<F, D, G, S>::Bool(v)), other)
            == spec_knob_value(k, other),
        spec_set_knob(k, KnobId::ForceDisableExport, KnobValue::<F, D, G, S>::Bool(v)).zappi_battery_drain_target_w
            == k.zappi_battery_drain_target_w,
{
}

proof fn lemma_write_export_soc_threshold<F, D, G, S>(k: Knobs<F, D, G, S>, v: F, other: KnobId)
    ensures
        spec_knob_value(spec_set_knob(k, KnobId::ExportSocThreshold, KnobValue::<F, D, G, S>::Float(v)), KnobId::ExportSocThreshold) == Some(
            KnobValue::<F, D, G, S>::Float(v),
        ),
        other != KnobId::ExportSocThreshold ==> spec_knob_value(spec_set_knob(k, KnobId::ExportSocThreshold, KnobValue::<F, D, G, S>::Float(v)), other)
            == spec_knob_value(k, other),
        spec_set_knob(k, KnobId::ExportSocThreshold, KnobValue::<F, D, G, S>::Float(v)).zappi_battery_drain_target_w
            == k.zappi_battery_drain_target_w,
{
}

proof fn lemma_write_discharge_soc_target<F, D, G, S>(k: Knobs<F, D, G, S>, v: F, other: KnobId)
    ensures
        spec_knob_value(spec_set_knob(k, KnobId::DischargeSocTarget, KnobValue::<F, D, G, S>::Float(v)), KnobId::DischargeSocTarget) == Some(
            KnobValue::<F, D, G, S>::Float(v),
        ),
        other != KnobId::DischargeSocTarget ==> spec_knob_value(spec_set_knob(k, KnobId::DischargeSocTarget, KnobValue::<F, D, G, S>::Float(v)), other)
            == spec_knob_value(k, other),
        spec_set_knob(k, KnobId::DischargeSocTarget, KnobValue::<F, D, G, S>::Float(v)).zappi_battery_drain_target_w
            == k.zappi_battery_drain_target_w,
{
}

proof fn lemma_write_battery_soc_target<F, D, G, S>(k: Knobs<F, D, G, S>, v: F, other: KnobId)
    ensures
        spec_knob_value(spec_set_knob(k, KnobId::BatterySocTarget, KnobValue::<F, D, G, S>::Float(v)), KnobId::BatterySocTarget) == Some(
            KnobValue::<F, D, G, S>::Float(v),
        ),
        other != KnobId::BatterySocTarget ==> spec_knob_value(spec_set_knob(k, KnobId::BatterySocTarget, KnobValue::<F, D, G, S>::Float(v)), other)
            == spec_knob_value(k, other),
        spec_set_knob(k, KnobId::BatterySocTarget, KnobValue::<F, D, G, S>::Float(v)).zappi_battery_drain_target_w
            == k.zappi_battery_drain_target_w,
{
}

proof fn lemma_write_full_charge_discharge_soc_target<F, D, G, S>(k: Knobs<F, D, G, S>, v: F, other: KnobId)
    ensures
        spec_knob_value(spec_set_knob(k, KnobId::FullChargeDischargeSocTarget, KnobValue::<F, D, G, S>::Float(v)), KnobId::FullChargeDischargeSocTarget) == Some(
            KnobValue::<F, D, G, S>::Float(v),
        ),
        other != KnobId::FullChargeDischargeSocTarget ==> spec_knob_value(spec_set_knob(k, KnobId::FullChargeDischargeSocTarget, KnobValue::<F, D, G, S>::Float(v)), other)
            == spec_knob_value(k, other),
        spec_set_knob(k, KnobId::FullChargeDischargeSocTarget, KnobValue::<F, D, G, S>::Float(v)).zappi_battery_drain_target_w
            == k.zappi_battery_drain_target_w,
{
}

proof fn lemma_write_full_charge_export_soc_threshold<F, D, G, S>(k: Knobs<F, D, G, S>, v: F, other: KnobId)
    ensures
        spec_knob_value(spec_set_knob(k, KnobId::FullChargeExportSocThreshold, KnobValue::<F, D, G, S>::Float(v)), KnobId::FullChargeExportSocThreshold) == Some(
            KnobValue::<F, D, G, S>::Float(v),
        ),
        other != KnobId::FullChargeExportSocThreshold ==> spec_knob_value(spec_set_knob(k, KnobId::FullChargeExportSocThreshold, KnobValue::<F, D, G, S>::Float(v)), other)
            == spec_knob_value(k, other),
        spec_set_knob(k, KnobId::FullChargeExportSocThreshold, KnobValue::<F, D, G, S>::Float(v)).zappi_battery_drain_target_w
            == k.zappi_battery_drain_target_w,
{
}

proof fn lemma_write_discharge_time<F, D, G, S>(k: Knobs<F, D, G, S>, v: D, other: KnobId)
    ensures
        spec_knob_value(spec_set_knob(k, KnobId::DischargeTime, KnobValue::<F, D, G, S>::DischargeTime(v)), KnobId::DischargeTime) == Some(
            KnobValue::<F, D, G, S>::DischargeTime(v),
        ),
        other != KnobId::DischargeTime ==> spec_knob_value(spec_set_knob(k, KnobId::DischargeTime, KnobValue::<F, D, G, S>::DischargeTime(v)), other)
            == spec_knob_value(k, other),
        spec_set_knob(k, KnobId::DischargeTime, KnobValue::<F, D, G, S>::DischargeTime(v)).zappi_battery_drain_target_w
            == k.zappi_battery_drain_target_w,
{
}

proof fn lemma_write_debug_full_charge<F, D, G, S>(k: Knobs<F, D, G, S>, v: G, other: KnobId)
    ensures
        spec_knob_value(spec_set_knob(k, KnobId::DebugFullCharge, KnobValue::<F, D, G, S>::DebugFullCharge(v)), KnobId::DebugFullCharge) == Some(
            KnobValue::<F, D, G, S>::DebugFullCharge(v),
        ),
        other != KnobId::DebugFullCharge ==> spec_knob_value(spec_set_knob(k, KnobId::DebugFullCharge, KnobValue::<F, D, G, S>::DebugFullCharge(v)), other)
            == spec_knob_value(k, other),
        spec_set_knob(k, KnobId::DebugFullCharge, KnobValue::<F, D, G, S>::DebugFullCharge(v)).zappi_battery_drain_target_w
            == k.zappi_battery_drain_target_w,
{
}

proof fn lemma_write_pessimism_multiplier_modifier<F, D, G, S>(k: Knobs<F, D, G, S>, v: F, other: KnobId)
    ensures
        spec_knob_value(spec_set_knob(k, KnobId::PessimismMultiplierModifier, KnobValue::<F, D, G, S>::Float(v)), KnobId::PessimismMultiplierModifier) == Some(
            KnobValue::<F, D, G, S>::Float(v),
        ),
        other != KnobId::PessimismMultiplierModifier ==> spec_knob_value(spec_set_knob(k, KnobId::PessimismMultiplierModifier, KnobValue::<F, D, G, S>::Float(v)), other)
            == spec_knob_value(k, other),
        spec_set_knob(k, KnobId::PessimismMultiplierModifier, KnobValue::<F, D, G, S>::Float(v)).zappi_battery_drain_target_w
            == k.zappi_battery_drain_target_w,
{
}

proof fn lemma_write_disable_night_grid_discharge<F, D, G, S>(k: Knobs<F, D, G, S>, v: bool, other: KnobId)
    ensures
        spec_knob_value(spec_set_knob(k, KnobId::DisableNightGridDischarge, KnobValue::<F, D, G, S>::Bool(v)), KnobId::DisableNightGridDischarge) == Some(
            KnobValue::<F, D, G, S>::Bool(v),
        ),
        other != KnobId::DisableNightGridDischarge ==> spec_knob_value(spec_set_knob(k, KnobId::DisableNightGridDischarge, KnobValue::<F, D, G, S>::Bool(v)), other)
            == spec_knob_value(k, other),
        spec_set_knob(k, KnobId::DisableNightGridDischarge, KnobValue::<F, D, G, S>::Bool(v)).zappi_battery_drain_target_w
            == k.zappi_battery_drain_target_w,
{
}

proof fn lemma_write_charge_car_boost<F, D, G, S>(k: Knobs<F, D, G, S>, v: bool, other: KnobId)
    ensures
        spec_knob_value(spec_set_knob(k, KnobId::ChargeCarBoost, KnobValue::<F, D, G, S>::Bool(v)), KnobId::ChargeCarBoost) == Some(
            KnobValue::<F, D, G, S>::Bool(v),
        ),
        other != KnobId::ChargeCarBoost ==> spec_knob_value(spec_set_knob(k, KnobId::ChargeCarBoost, KnobValue::<F, D, G, S>::Bool(v)), other)
            == spec_knob_value(k, other),
        spec_set_knob(k, KnobId::ChargeCarBoost, KnobValue::<F, D, G, S>::Bool(v)).zappi_battery_drain_target_w
            == k.zappi_battery_drain_target_w,
{
}

proof fn lemma_write_charge_car_extended_mode<F, D, G, S>(k: Knobs<F, D, G, S>, v: ExtendedChargeMode, other: KnobId)
    ensures
        spec_knob_value(spec_set_knob(k, KnobId::ChargeCarExtendedMode, KnobValue::<F, D, G, S>::ExtendedChargeMode(v)), KnobId::ChargeCarExtendedMode) == Some(
            KnobValue::<F, D, G, S>::ExtendedChargeMode(v),
        ),
        other != KnobId::ChargeCarExtendedMode ==> spec_knob_value(spec_set_knob(k, KnobId::ChargeCarExtendedMode, KnobValue::<F, D, G, S>::ExtendedChargeMode(v)), other)
            == spec_knob_value(k, other),
        spec_set_knob(k, KnobId::ChargeCarExtendedMode, KnobValue::<F, D, G, S>::ExtendedChargeMode(v)).zappi_battery_drain_target_w
            == k.zappi_battery_drain_target_w,
{
}

proof fn lemma_write_zappi_current_target<F, D, G, S>(k: Knobs<F, D, G, S>, v: F, other: KnobId)
    ensures
        spec_knob_value(spec_set_knob(k, KnobId::ZappiCurrentTarget, KnobValue::<F, D, G, S>::Float(v)), KnobId::ZappiCurrentTarget) == Some(
            KnobValue::<F, D, G, S>::Float(v),
        ),
        other != KnobId::ZappiCurrentTarget ==> spec_knob_value(spec_set_knob(k, KnobId::ZappiCurrentTarget, KnobValue::<F, D, G, S>::Float(v)), other)
            == spec_knob_value(k, other),
        spec_set_knob(k, KnobId::ZappiCurrentTarget, KnobValue::<F, D, G, S>::Float(v)).zappi_battery_drain_target_w
            == k.zappi_battery_drain_target_w,
{
}

proof fn lemma_write_zappi_limit<F, D, G, S>(k: Knobs<F, D, G, S>, v: F, other: KnobId)
    ensures
        spec_knob_value(spec_set_knob(k, KnobId::ZappiLimit, KnobValue::<F, D, G, S>::Float(v)), KnobId::ZappiLimit) == Some(
            KnobValue::<F, D, G, S>::Float(v),
        ),
        other != KnobId::ZappiLimit ==> spec_knob_value(spec_set_knob(k, KnobId::ZappiLimit, KnobValue::<F, D, G, S>::Float(v)), other)
            == spec_knob_value(k, other),
        spec_set_knob(k, KnobId::ZappiLimit, KnobValue::<F, D, G, S>::Float(v)).zappi_battery_drain_target_w
            == k.zappi_battery_drain_target_w,
{
}

proof fn lemma_write_zappi_emergency_margin<F, D, G, S>(k: Knobs<F, D, G, S>, v: F, other: KnobId)
    ensures
        spec_knob_value(spec_set_knob(k, KnobId::ZappiEmergencyMargin, KnobValue::<F, D, G, S>::Float(v)), KnobId::ZappiEmergencyMargin) == Some(
            KnobValue::<F, D, G, S>::Float(v),
        ),
        other != KnobId::ZappiEmergencyMargin ==> spec_knob_value(spec_set_knob(k, KnobId::ZappiEmergencyMargin, KnobValue::<F, D, G, S>::Float(v)), other)
            == spec_knob_value(k, other),
        spec_set_knob(k, KnobId::ZappiEmergencyMargin, KnobValue::<F, D, G, S>::Float(v)).zappi_battery_drain_target_w
            == k.zappi_battery_drain_target_w,
{
}

proof fn lemma_write_grid_export_limit_w<F, D, G, S>(k: Knobs<F, D, G, S>, v: u32, other: KnobId)
    ensures
        spec_knob_value(spec_set_knob(k, KnobId::GridExportLimitW, KnobValue::<F, D, G, S>::Uint32(v)), KnobId::GridExportLimitW) == Some(
            KnobValue::<F, D, G, S>::Uint32(v),
        ),
        other != KnobId::GridExportLimitW ==> spec_knob_value(spec_set_knob(k, KnobId::GridExportLimitW, KnobValue::<F, D, G, S>::Uint32(v)), other)
            == spec_knob_value(k, other),
        spec_set_knob(k, KnobId::GridExportLimitW, KnobValue::<F, D, G, S>::Uint32(v)).zappi_battery_drain_target_w
            == k.zappi_battery_drain_target_w,
{
}

proof fn lemma_write_grid_import_limit_w<F, D, G, S>(k: Knobs<F, D, G, S>, v: u32, other: KnobId)
    ensures
        spec_knob_value(spec_set_knob(k, KnobId::GridImportLimitW, KnobValue::<F, D, G, S>::Uint32(v)), KnobId::GridImportLimitW) == Some(
            KnobValue::<F, D, G, S>::Uint32(v),
        ),
        other != KnobId::GridImportLimitW ==> spec_knob_value(spec_set_knob(k, KnobId::GridImportLimitW, KnobValue::<F, D, G, S>::Uint32(v)), other)
            == spec_knob_value(k, other),
        spec_set_knob(k, KnobId::GridImportLimitW, KnobValue::<F, D, G, S>::Uint32(v)).zappi_battery_drain_target_w
            == k.zappi_battery_drain_target_w,
{
}

proof fn lemma_write_allow_battery_to_car<F, D, G, S>(k: Knobs<F, D, G, S>, v: bool, other: KnobId)
    ensures
        spec_knob_value(spec_set_knob(k, KnobId::AllowBatteryToCar, KnobValue::<F, D, G, S>::Bool(v)), KnobId::AllowBatteryToCar) == Some(
            KnobValue::<F, D, G, S>::Bool(v),
        ),
        other != KnobId::AllowBatteryToCar ==> spec_knob_value(spec_set_knob(k, KnobId::AllowBatteryToCar, KnobValue::<F, D, G, S>::Bool(v)), other)
            == spec_knob_value(k, other),
        spec_set_knob(k, KnobId::AllowBatteryToCar, KnobValue::<F, D, G, S>::Bool(v)).zappi_battery_drain_target_w
            == k.zappi_battery_drain_target_w,
{
}

proof fn lemma_write_eddi_enable_soc<F, D, G, S>(k: Knobs<F, D, G, S>, v: F, other: KnobId)
    ensures
        spec_knob_value(spec_set_knob(k, KnobId::EddiEnableSoc, KnobValue::<F, D, G, S>::Float(v)), KnobId::EddiEnableSoc) == Some(
            KnobValue::<F, D, G, S>::Float(v),
        ),
        other != KnobId::EddiEnableSoc ==> spec_knob_value(spec_set_knob(k, KnobId::EddiEnableSoc, KnobValue::<F, D, G, S>::Float(v)), other)
            == spec_knob_value(k, other),
        spec_set_knob(k, KnobId::EddiEnableSoc, KnobValue::<F, D, G, S>::Float(v)).zappi_battery_drain_target_w
            == k.zappi_battery_drain_target_w,
{
}

proof fn lemma_write_eddi_disable_soc<F, D, G, S>(k: Knobs<F, D, G, S>, v: F, other: KnobId)
    ensures
        spec_knob_value(spec_set_knob(k, KnobId::EddiDisableSoc, KnobValue::<F, D, G, S>::Float(v)), KnobId::EddiDisableSoc) == Some(
            KnobValue::<F, D, G, S>::Float(v),
        ),
        other != KnobId::EddiDisableSoc ==> spec_knob_value(spec_set_knob(k, KnobId::EddiDisableSoc, KnobValue::<F, D, G, S>::Float(v)), other)
            == spec_knob_value(k, other),
        spec_set_knob(k, KnobId::EddiDisableSoc, KnobValue::<F, D, G, S>::Float(v)).zappi_battery_drain_target_w
            == k.zappi_battery_drain_target_w,
{
}

proof fn lemma_write_eddi_dwell_s<F, D, G, S>(k: Knobs<F, D, G, S>, v: u32, other: KnobId)
    ensures
        spec_knob_value(spec_set_knob(k, KnobId::EddiDwellS, KnobValue::<F, D, G, S>::Uint32(v)), KnobId::EddiDwellS) == Some(
            KnobValue::<F, D, G, S>::Uint32(v),
        ),
        other != KnobId::EddiDwellS ==> spec_knob_value(spec_set_knob(k, KnobId::EddiDwellS, KnobValue::<F, D, G, S>::Uint32(v)), other)
            == spec_knob_value(k, other),
        spec_set_knob(k, KnobId::EddiDwellS, KnobValue::<F, D, G, S>::Uint32(v)).zappi_battery_drain_target_w
            == k.zappi_battery_drain_target_w,
{
}

proof fn lemma_write_weathersoc_winter_temperature_threshold<F, D, G, S>(k: Knobs<F, D, G, S>, v: F, other: KnobId)
    ensures
        spec_knob_value(spec_set_knob(k, KnobId::WeathersocWinterTemperatureThreshold, KnobValue::<F, D, G, S>::Float(v)), KnobId::WeathersocWinterTemperatureThreshold) == Some(
            KnobValue::<F, D, G, S>::Float(v),
        ),
        other != KnobId::WeathersocWinterTemperatureThreshold ==> spec_knob_value(spec_set_knob(k, KnobId::WeathersocWinterTemperatureThreshold, KnobValue::<F, D, G, S>::Float(v)), other)
            == spec_knob_value(k, other),
        spec_set_knob(k, KnobId::WeathersocWinterTemperatureThreshold, KnobValue::<F, D, G, S>::Float(v)).zappi_battery_drain_target_w
            == k.zappi_battery_drain_target_w,
{
}

proof fn lemma_write_weathersoc_low_energy_threshold<F, D, G, S>(k: Knobs<F, D, G, S>, v: F, other: KnobId)
    ensures
        spec_knob_value(spec_set_knob(k, KnobId::WeathersocLowEnergyThreshold, KnobValue::<F, D, G, S>::Float(v)), KnobId::WeathersocLowEnergyThreshold) == Some(
            KnobValue::<F, D, G, S>::Float(v),
        ),
        other != KnobId::WeathersocLowEnergyThreshold ==> spec_knob_value(spec_set_knob(k, KnobId::WeathersocLowEnergyThreshold, KnobValue::<F, D, G, S>::Float(v)), other)
            == spec_knob_value(k, other),
        spec_set_knob(k, KnobId::WeathersocLowEnergyThreshold, KnobValue::<F, D, G, S>::Float(v)).zappi_battery_drain_target_w
            == k.zappi_battery_drain_target_w,
{
}

proof fn lemma_write_weathersoc_ok_energy_threshold<F, D, G, S>(k: Knobs<F, D, G, S>, v: F, other: KnobId)
    ensures
        spec_knob_value(spec_set_knob(k, KnobId::WeathersocOkEnergyThreshold, KnobValue::<F, D, G, S>::Float(v)), KnobId::WeathersocOkEnergyThreshold) == Some(
            KnobValue::<F, D, G, S>::Float(v),
        ),
        other != KnobId::WeathersocOkEnergyThreshold ==> spec_knob_value(spec_set_knob(k, KnobId::WeathersocOkEnergyThreshold, KnobValue::<F, D, G, S>::Float(v)), other)
            == spec_knob_value(k, other),
        spec_set_knob(k, KnobId::WeathersocOkEnergyThreshold, KnobValue::<F, D, G, S>::Float(v)).zappi_battery_drain_target_w
            == k.zappi_battery_drain_target_w,
{
}

proof fn lemma_write_weathersoc_high_energy_threshold<F, D, G, S>(k: Knobs<F, D, G, S>, v: F, other: KnobId)
    ensures
        spec_knob_value(spec_set_knob(k, KnobId::WeathersocHighEnergyThreshold, KnobValue::<F, D, G, S>::Float(v)), KnobId::WeathersocHighEnergyThreshold) == Some(
            KnobValue::<F, D, G, S>::Float(v),
        ),
        other != KnobId::WeathersocHighEnergyThreshold ==> spec_knob_value(spec_set_knob(k, KnobId::WeathersocHighEnergyThreshold, KnobValue::<F, D, G, S>::Float(v)), other)
            == spec_knob_value(k, other),
        spec_set_knob(k, KnobId::WeathersocHighEnergyThreshold, KnobValue::<F, D, G, S>::Float(v)).zappi_battery_drain_target_w
            == k.zappi_battery_drain_target_w,
{
}

proof fn lemma_write_weathersoc_too_much_energy_threshold<F, D, G, S>(k: Knobs<F, D, G, S>, v: F, other: KnobId)
    ensures
        spec_knob_value(spec_set_knob(k, KnobId::WeathersocTooMuchEnergyThreshold, KnobValue::<F, D, G, S>::Float(v)), KnobId::WeathersocTooMuchEnergyThreshold) == Some(
            KnobValue::<F, D, G, S>::Float(v),
        ),
        other != KnobId::WeathersocTooMuchEnergyThreshold ==> spec_knob_value(spec_set_knob(k, KnobId::WeathersocTooMuchEnergyThreshold, KnobValue::<F, D, G, S>::Float(v)), other)
            == spec_knob_value(k, other),
        spec_set_knob(k, KnobId::WeathersocTooMuchEnergyThreshold, KnobValue::<F, D, G, S>::Float(v)).zappi_battery_drain_target_w
            == k.zappi_battery_drain_target_w,
{
}

proof fn lemma_write_weathersoc_very_sunny_threshold<F, D, G, S>(k: Knobs<F, D, G, S>, v: F, other: KnobId)
    ensures
        spec_knob_value(spec_set_knob(k, KnobId::WeathersocVerySunnyThreshold, KnobValue::<F, D, G, S>::Float(v)), KnobId::WeathersocVerySunnyThreshold) == Some(
            KnobValue::<F, D, G, S>::Float(v),
        ),
        other != KnobId::WeathersocVerySunnyThreshold ==> spec_knob_value(spec_set_knob(k, KnobId::WeathersocVerySunnyThreshold, KnobValue::<F, D, G, S>::Float(v)), other)
            == spec_knob_value(k, other),
        spec_set_knob(k, KnobId::WeathersocVerySunnyThreshold, KnobValue::<F, D, G, S>::Float(v)).zappi_battery_drain_target_w
            == k.zappi_battery_drain_target_w,
{
}

proof fn lemma_write_forecast_disagreement_strategy<F, D, G, S>(k: Knobs<F, D, G, S>, v: S, other: KnobId)
    ensures
        spec_knob_value(spec_set_knob(k, KnobId::ForecastDisagreementStrategy, KnobValue::<F, D, G, S>::ForecastDisagreementStrategy(v)), KnobId::ForecastDisagreementStrategy) == Some(
            KnobValue::<F, D, G, S>::ForecastDisagreementStrategy(v),
        ),
        other != KnobId::ForecastDisagreementStrategy ==> spec_knob_value(spec_set_knob(k, KnobId::ForecastDisagreementStrategy, KnobValue::<F, D, G, S>::ForecastDisagreementStrategy(v)), other)
            == spec_knob_value(k, other),
        spec_set_knob(k, KnobId::ForecastDisagreementStrategy, KnobValue::<F, D, G, S>::ForecastDisagreementStrategy(v)).zappi_battery_drain_target_w
            == k.zappi_battery_drain_target_w,
{
}

proof fn lemma_write_charge_battery_extended_mode<F, D, G, S>(k: Knobs<F, D, G, S>, v: ChargeBatteryExtendedMode, other: KnobId)
    ensures
        spec_knob_value(spec_set_knob(k, KnobId::ChargeBatteryExtendedMode, KnobValue::<F, D, G, S>::ChargeBatteryExtendedMode(v)), KnobId::ChargeBatteryExtendedMode) == Some(
            KnobValue::<F, D, G, S>::ChargeBatteryExtendedMode(v),
        ),
        other != KnobId::ChargeBatteryExtendedMode ==> spec_knob_value(spec_set_knob(k, KnobId::ChargeBatteryExtendedMode, KnobValue::<F, D, G, S>::ChargeBatteryExtendedMode(v)), other)
            == spec_knob_value(k, other),
        spec_set_knob(k, KnobId::ChargeBatteryExtendedMode, KnobValue::<F, D, G, S>::ChargeBatteryExtendedMode(v)).zappi_battery_drain_target_w
            == k.zappi_battery_drain_target_w,
{
}

proof fn lemma_write_export_soc_threshold_mode<F, D, G, S>(k: Knobs<F, D, G, S>, v: Mode, other: KnobId)
    ensures
        spec_knob_value(spec_set_knob(k, KnobId::ExportSocThresholdMode, KnobValue::<F, D, G, S>::Mode(v)), KnobId::ExportSocThresholdMode) == Some(
            KnobValue::<F, D, G, S>::Mode(v),
        ),
        other != KnobId::ExportSocThresholdMode ==> spec_knob_value(spec_set_knob(k, KnobId::ExportSocThresholdMode, KnobValue::<F, D, G, S>::Mode(v)), other)
            == spec_knob_value(k, other),
        spec_set_knob(k, KnobId::ExportSocThresholdMode, KnobValue::<F, D, G, S>::Mode(v)).zappi_battery_drain_target_w
            == k.zappi_battery_drain_target_w,
{
}

proof fn lemma_write_discharge_soc_target_mode<F, D, G, S>(k: Knobs<F, D, G, S>, v: Mode, other: KnobId)
    ensures
        spec_knob_value(spec_set_knob(k, KnobId::DischargeSocTargetMode, KnobValue::<F, D, G, S>::Mode(v)), KnobId::DischargeSocTargetMode) == Some(
            KnobValue::<F, D, G, S>::Mode(v),
        ),
        other != KnobId::DischargeSocTargetMode ==> spec_knob_value(spec_set_knob(k, KnobId::DischargeSocTargetMode, KnobValue::<F, D, G, S>::Mode(v)), other)
            == spec_knob_value(k, other),
        spec_set_knob(k, KnobId::DischargeSocTargetMode, KnobValue::<F, D, G, S>::Mode(v)).zappi_battery_drain_target_w
            == k.zappi_battery_drain_target_w,
{
}

proof fn lemma_write_battery_soc_target_mode<F, D, G, S>(k: Knobs<F, D, G, S>, v: Mode, other: KnobId)
    ensures
        spec_knob_value(spec_set_knob(k, KnobId::BatterySocTargetMode, KnobValue::<F, D, G, S>::Mode(v)), KnobId::BatterySocTargetMode) == Some(
            KnobValue::<F, D, G, S>::Mode(v),
        ),
        other != KnobId::BatterySocTargetMode ==> spec_knob_value(spec_set_knob(k, KnobId::BatterySocTargetMode, KnobValue::<F, D, G, S>::Mode(v)), other)
            == spec_knob_value(k, other),
        spec_set_knob(k, KnobId::BatterySocTargetMode, KnobValue::<F, D, G, S>::Mode(v)).zappi_battery_drain_target_w
            == k.zappi_battery_drain_target_w,
{
}

proof fn lemma_write_disable_night_grid_discharge_mode<F, D, G, S>(k: Knobs<F, D, G, S>, v: Mode, other: KnobId)
    ensures
        spec_knob_value(spec_set_knob(k, KnobId::DisableNightGridDischargeMode, KnobValue::<F, D, G, S>::Mode(v)), KnobId::DisableNightGridDischargeMode) == Some(
            KnobValue::<F, D, G, S>::Mode(v),
        ),
        other != KnobId::DisableNightGridDischargeMode ==> spec_knob_value(spec_set_knob(k, KnobId::DisableNightGridDischargeMode, KnobValue::<F, D, G, S>::Mode(v)), other)
            == spec_knob_value(k, other),
        spec_set_knob(k, KnobId::DisableNightGridDischargeMode, KnobValue::<F, D, G, S>::Mode(v)).zappi_battery_drain_target_w
            == k.zappi_battery_drain_target_w,
{
}

proof fn lemma_write_inverter_safe_discharge_enable<F, D, G, S>(k: Knobs<F, D, G, S>, v: bool, other: KnobId)
    ensures
        spec_knob_value(spec_set_knob(k, KnobId::InverterSafeDischargeEnable, KnobValue::<F, D, G, S>::Bool(v)), KnobId::InverterSafeDischargeEnable) == Some(
            KnobValue::<F, D, G, S>::Bool(v),
        ),
        other != KnobId::InverterSafeDischargeEnable ==> spec_knob_value(spec_set_knob(k, KnobId::InverterSafeDischargeEnable, KnobValue::<F, D, G, S>::Bool(v)), other)
            == spec_knob_value(k, other),
        spec_set_knob(k, KnobId::InverterSafeDischargeEnable, KnobValue::<F, D, G, S>::Bool(v)).zappi_battery_drain_target_w
            == k.zappi_battery_drain_target_w,
{
}

proof fn lemma_write_baseline_winter_start_mm_dd<F, D, G, S>(k: Knobs<F, D, G, S>, v: u32, other: KnobId)
    ensures
        spec_knob_value(spec_set_knob(k, KnobId::BaselineWinterStartMmDd, KnobValue::<F, D, G, S>::Uint32(v)), KnobId::BaselineWinterStartMmDd) == Some(
            KnobValue::<F, D, G, S>::Uint32(v),
        ),
        other != KnobId::BaselineWinterStartMmDd ==> spec_knob_value(spec_set_knob(k, KnobId::BaselineWinterStartMmDd, KnobValue::<F, D, G, S>::Uint32(v)), other)
            == spec_knob_value(k, other),
        spec_set_knob(k, KnobId::BaselineWinterStartMmDd, KnobValue::<F, D, G, S>::Uint32(v)).zappi_battery_drain_target_w
            == k.zappi_battery_drain_target_w,
{
}

proof fn lemma_write_baseline_winter_end_mm_dd<F, D, G, S>(k: Knobs<F, D, G, S>, v: u32, other: KnobId)
    ensures
        spec_knob_value(spec_set_knob(k, KnobId::BaselineWinterEndMmDd, KnobValue::<F, D, G, S>::Uint32(v)), KnobId::BaselineWinterEndMmDd) == Some(
            KnobValue::<F, D, G, S>::Uint32(v),
        ),
        other != KnobId::BaselineWinterEndMmDd ==> spec_knob_value(spec_set_knob(k, KnobId::BaselineWinterEndMmDd, KnobValue::<F, D, G, S>::Uint32(v)), other)
            == spec_knob_value(k, other),
        spec_set_knob(k, KnobId::BaselineWinterEndMmDd, KnobValue::<F, D, G, S>::Uint32(v)).zappi_battery_drain_target_w
            == k.zappi_battery_drain_target_w,
{
}

proof fn lemma_write_baseline_wh_per_hour_winter<F, D, G, S>(k: Knobs<F, D, G, S>, v: F, other: KnobId)
    ensures
        spec_knob_value(spec_set_knob(k, KnobId::BaselineWhPerHourWinter, KnobValue::<F, D, G, S>::Float(v)), KnobId::BaselineWhPerHourWinter) == Some(
            KnobValue::<F, D, G, S>::Float(v),
        ),
        other != KnobId::BaselineWhPerHourWinter ==> spec_knob_value(spec_set_knob(k, KnobId::BaselineWhPerHourWinter, KnobValue::<F, D, G, S>::Float(v)), other)
            == spec_knob_value(k, other),
        spec_set_knob(k, KnobId::BaselineWhPerHourWinter, KnobValue::<F, D, G, S>::Float(v)).zappi_battery_drain_target_w
            == k.zappi_battery_drain_target_w,
{
}

proof fn lemma_write_baseline_wh_per_hour_summer<F, D, G, S>(k: Knobs<F, D, G, S>, v: F, other: KnobId)
    ensures
        spec_knob_value(spec_set_knob(k, KnobId::BaselineWhPerHourSummer, KnobValue::<F, D, G, S>::Float(v)), KnobId::BaselineWhPerHourSummer) == Some(
            KnobValue::<F, D, G, S>::Float(v),
        ),
        other != KnobId::BaselineWhPerHourSummer ==> spec_knob_value(spec_set_knob(k, KnobId::BaselineWhPerHourSummer, KnobValue::<F, D, G, S>::Float(v)), other)
            == spec_knob_value(k, other),
        spec_set_knob(k, KnobId::BaselineWhPerHourSummer, KnobValue::<F, D, G, S>::Float(v)).zappi_battery_drain_target_w
            == k.zappi_battery_drain_target_w,
{
}

proof fn lemma_write_keep_batteries_charged_during_full_charge<F, D, G, S>(k: Knobs<F, D, G, S>, v: bool, other: KnobId)
    ensures
        spec_knob_value(spec_set_knob(k, KnobId::KeepBatteriesChargedDuringFullCharge, KnobValue::<F, D, G, S>::Bool(v)), KnobId::KeepBatteriesChargedDuringFullCharge) == Some(
            KnobValue::<F, D, G, S>::Bool(v),
        ),
        other != KnobId::KeepBatteriesChargedDuringFullCharge ==> spec_knob_value(spec_set_knob(k, KnobId::KeepBatteriesChargedDuringFullCharge, KnobValue::<F, D, G, S>::Bool(v)), other)
            == spec_knob_value(k, other),
        spec_set_knob(k, KnobId::KeepBatteriesChargedDuringFullCharge, KnobValue::<F, D, G, S>::Bool(v)).zappi_battery_drain_target_w
            == k.zappi_battery_drain_target_w,
{
}

proof fn lemma_write_sunrise_sunset_offset_min<F, D, G, S>(k: Knobs<F, D, G, S>, v: u32, other: KnobId)
    ensures
        spec_knob_value(spec_set_knob(k, KnobId::SunriseSunsetOffsetMin, KnobValue::<F, D, G, S>::Uint32(v)), KnobId::SunriseSunsetOffsetMin) == Some(
            KnobValue::<F, D, G, S>::Uint32(v),
        ),
        other != KnobId::SunriseSunsetOffsetMin ==> spec_knob_value(spec_set_knob(k, KnobId::SunriseSunsetOffsetMin, KnobValue::<F, D, G, S>::Uint32(v)), other)
            == spec_knob_value(k, other),
        spec_set_knob(k, KnobId::SunriseSunsetOffsetMin, KnobValue::<F, D, G, S>::Uint32(v)).zappi_battery_drain_target_w
            == k.zappi_battery_drain_target_w,
{
}

proof fn lemma_write_full_charge_defer_to_next_sunday<F, D, G, S>(k: Knobs<F, D, G, S>, v: bool, other: KnobId)
    ensures
        spec_knob_value(spec_set_knob(k, KnobId::FullChargeDeferToNextSunday, KnobValue::<F, D, G, S>::Bool(v)), KnobId::FullChargeDeferToNextSunday) == Some(
            KnobValue::<F, D, G, S>::Bool(v),
        ),
        other != KnobId::FullChargeDeferToNextSunday ==> spec_knob_value(spec_set_knob(k, KnobId::FullChargeDeferToNextSunday, KnobValue::<F, D, G, S>::Bool(v)), other)
            == spec_knob_value(k, other),
        spec_set_knob(k, KnobId::FullChargeDeferToNextSunday, KnobValue::<F, D, G, S>::Bool(v)).zappi_battery_drain_target_w
            == k.zappi_battery_drain_target_w,
{
}

proof fn lemma_write_full_charge_snap_back_max_weekday<F, D, G, S>(k: Knobs<F, D, G, S>, v: u32, other: KnobId)
    ensures
        spec_knob_value(spec_set_knob(k, KnobId::FullChargeSnapBackMaxWeekday, KnobValue::<F, D, G, S>::Uint32(v)), KnobId::FullChargeSnapBackMaxWeekday) == Some(
            KnobValue::<F, D, G, S>::Uint32(v),
        ),
        other != KnobId::FullChargeSnapBackMaxWeekday ==> spec_knob_value(spec_set_knob(k, KnobId::FullChargeSnapBackMaxWeekday, KnobValue::<F, D, G, S>::Uint32(v)), other)
            == spec_knob_value(k, other),
        spec_set_knob(k, KnobId::FullChargeSnapBackMaxWeekday, KnobValue::<F, D, G, S>::Uint32(v)).zappi_battery_drain_target_w
            == k.zappi_battery_drain_target_w,
{
}

proof fn lemma_write_zappi_battery_drain_threshold_w<F, D, G, S>(k: Knobs<F, D, G, S>, v: u32, other: KnobId)
    ensures
        spec_knob_value(spec_set_knob(k, KnobId::ZappiBatteryDrainThresholdW, KnobValue::<F, D, G, S>::Uint32(v)), KnobId::ZappiBatteryDrainThresholdW) == Some(
            KnobValue::<F, D, G, S>::Uint32(v),
        ),
        other != KnobId::ZappiBatteryDrainThresholdW ==> spec_knob_value(spec_set_knob(k, KnobId::ZappiBatteryDrainThresholdW, KnobValue::<F, D, G, S>::Uint32(v)), other)
            == spec_knob_value(k, other),
        spec_set_knob(k, KnobId::ZappiBatteryDrainThresholdW, KnobValue::<F, D, G, S>::Uint32(v)).zappi_battery_drain_target_w
            == k.zappi_battery_drain_target_w,
{
}

proof fn lemma_write_zappi_battery_drain_relax_step_w<F, D, G, S>(k: Knobs<F, D, G, S>, v: u32, other: KnobId)
    ensures
        spec_knob_value(spec_set_knob(k, KnobId::ZappiBatteryDrainRelaxStepW, KnobValue::<F, D, G, S>::Uint32(v)), KnobId::ZappiBatteryDrainRelaxStepW) == Some(
            KnobValue::<F, D, G, S>::Uint32(v),
        ),
        other != KnobId::ZappiBatteryDrainRelaxStepW ==> spec_knob_value(spec_set_knob(k, KnobId::ZappiBatteryDrainRelaxStepW, KnobValue::<F, D, G, S>::Uint32(v)), other)
            == spec_knob_value(k, other),
        spec_set_knob(k, KnobId::ZappiBatteryDrainRelaxStepW, KnobValue::<F, D, G, S>::Uint32(v)).zappi_battery_drain_target_w
            == k.zappi_battery_drain_target_w,
{
}

proof fn lemma_write_zappi_battery_drain_hard_clamp_w<F, D, G, S>(k: Knobs<F, D, G, S>, v: u32, other: KnobId)
    ensures
        spec_knob_value(spec_set_knob(k, KnobId::ZappiBatteryDrainHardClampW, KnobValue::<F, D, G, S>::Uint32(v)), KnobId::ZappiBatteryDrainHardClampW) == Some(
            KnobValue::<F, D, G, S>::Uint32(v),
        ),
        other != KnobId::ZappiBatteryDrainHardClampW ==> spec_knob_value(spec_set_knob(k, KnobId::ZappiBatteryDrainHardClampW, KnobValue::<F, D, G, S>::Uint32(v)), other)
            == spec_knob_value(k, other),
        spec_set_knob(k, KnobId::ZappiBatteryDrainHardClampW, KnobValue::<F, D, G, S>::Uint32(v)).zappi_battery_drain_target_w
            == k.zappi_battery_drain_target_w,
{
}

proof fn lemma_write_zappi_battery_drain_kp<F, D, G, S>(k: Knobs<F, D, G, S>, v: F, other: KnobId)
    ensures
        spec_knob_value(spec_set_knob(k, KnobId::ZappiBatteryDrainKp, KnobValue::<F, D, G, S>::Float(v)), KnobId::ZappiBatteryDrainKp) == Some(
            KnobValue::<F, D, G, S>::Float(v),
        ),
        other != KnobId::ZappiBatteryDrainKp ==> spec_knob_value(spec_set_knob(k, KnobId::ZappiBatteryDrainKp, KnobValue::<F, D, G, S>::Float(v)), other)
            == spec_knob_value(k, other),
        spec_set_knob(k, KnobId::ZappiBatteryDrainKp, KnobValue::<F, D, G, S>::Float(v)).zappi_battery_drain_target_w
            == k.zappi_battery_drain_target_w,
{
}

proof fn lemma_write_zappi_battery_drain_mppt_probe_w<F, D, G, S>(k: Knobs<F, D, G, S>, v: u32, other: KnobId)
    ensures
        spec_knob_value(spec_set_knob(k, KnobId::ZappiBatteryDrainMpptProbeW, KnobValue::<F, D, G, S>::Uint32(v)), KnobId::ZappiBatteryDrainMpptProbeW) == Some(
            KnobValue::<F, D, G, S>::Uint32(v),
        ),
        other != KnobId::ZappiBatteryDrainMpptProbeW ==> spec_knob_value(spec_set_knob(k, KnobId::ZappiBatteryDrainMpptProbeW, KnobValue::<F, D, G, S>::Uint32(v)), other)
            == spec_knob_value(k, other),
        spec_set_knob(k, KnobId::ZappiBatteryDrainMpptProbeW, KnobValue::<F, D, G, S>::Uint32(v)).zappi_battery_drain_target_w
            == k.zappi_battery_drain_target_w,
{
}

proof fn lemma_write_actuator_retry_s<F, D, G, S>(k: Knobs<F, D, G, S>, v: u32, other: KnobId)
    ensures
        spec_knob_value(spec_set_knob(k, KnobId::ActuatorRetryS, KnobValue::<F, D, G, S>::Uint32(v)), KnobId::ActuatorRetryS) == Some(
            KnobValue::<F, D, G, S>::Uint32(v),
        ),
        other != KnobId::ActuatorRetryS ==> spec_knob_value(spec_set_knob(k, KnobId::ActuatorRetryS, KnobValue::<F, D, G, S>::Uint32(v)), other)
            == spec_knob_value(k, other),
        spec_set_knob(k, KnobId::ActuatorRetryS, KnobValue::<F, D, G, S>::Uint32(v)).zappi_battery_drain_target_w
            == k.zappi_battery_drain_target_w,
{
}

/// The read-back law over every knob at once: with `apply_knob`'s
/// `*final(knobs) == spec_set_knob(*old(knobs), id, value)`, an accepted
/// write (the rounded drain target aside) leaves `id` holding `value`,
/// every other knob holding what it held, and the drain target as it was.
pub proof fn lemma_knob_write_frame<F, D, G, S>(k: Knobs<F, D, G, S>, id: KnobId, value: KnobValue<F, D, G, S>)
    requires
        spec_knob_accepts(id, value),
        !(id is ZappiBatteryDrainTargetW),
    ensures
        spec_knob_value(spec_set_knob(k, id, value), id) == Some(value),
        forall|other: KnobId|
            other != id ==> #[trigger] spec_knob_value(spec_set_knob(k, id, value), other) == spec_knob_value(k, other),
        spec_set_knob(k, id, value).zappi_battery_drain_target_w == k.zappi_battery_drain_target_w,
{
    lemma_knob_write_reads_back(k, id, value, id);
    assert forall|other: KnobId| other != id implies #[trigger] spec_knob_value(spec_set_knob(k, id, value), other)
        == spec_knob_value(k, other) by {
        lemma_knob_write_reads_back(k, id, value, other);
    }
}

#[verifier::rlimit(50)]
proof fn lemma_cell_write_reads_back<F, D, G, S>(
    k: Knobs<F, D, G, S>,
    id: KnobId,
    value: KnobValue<F, D, G, S>,
    other: KnobId,
)
    requires
        spec_knob_accepts(id, value),
        id is WeathersocTableCell,
    ensures
        spec_knob_value(spec_set_knob(k, id, value), id) == Some(value),
        other != id ==> spec_knob_value(spec_set_knob(k, id, value), other) == spec_knob_value(k, other),
        spec_set_knob(k, id, value).zappi_battery_drain_target_w == k.zappi_battery_drain_target_w,
{
}

/// Two values are the same value: same shape, and equal by each type's
/// `==`.
pub open spec fn spec_same_value<F: PartialEq, D: PartialEq, G: PartialEq, S: PartialEq>(
    a: KnobValue<F, D, G, S>,
    b: KnobValue<F, D, G, S>,
) -> bool {
    match (a, b) {
        (KnobValue::Bool(x), KnobValue::Bool(y)) => x == y,
        (KnobValue::Float(x), KnobValue::Float(y)) => x.eq_spec(&y),
        (KnobValue::Uint32(x), KnobValue::Uint32(y)) => x == y,
        (KnobValue::DischargeTime(x), KnobValue::DischargeTime(y)) => x.eq_spec(&y),
        (KnobValue::DebugFullCharge(x), KnobValue::DebugFullCharge(y)) => x.eq_spec(&y),
        (KnobValue::ForecastDisagreementStrategy(x), KnobValue::ForecastDisagreementStrategy(y)) => x.eq_spec(&y),
        (KnobValue::ChargeBatteryExtendedMode(x), KnobValue::ChargeBatteryExtendedMode(y)) => x == y,
        (KnobValue::ExtendedChargeMode(x), KnobValue::ExtendedChargeMode(y)) => x == y,
        (KnobValue::Mode(x), KnobValue::Mode(y)) => x == y,
        _ => false,
    }
}

/// The four value types' `==` follow their specs.
pub open spec fn spec_eqs_obeyed<F: PartialEq, D: PartialEq, G: PartialEq, S: PartialEq>() -> bool {
    F::obeys_eq_spec() && D::obeys_eq_spec() && G::obeys_eq_spec() && S::obeys_eq_spec()
}

/// What a knob write did.
#[derive(Clone, Copy, Debug, PartialEq, Eq, Structural)]
pub enum KnobWrite {
    /// The stored value changed; the caller publishes it.
    Changed,
    /// The value was already stored; nothing to publish.
    Unchanged,
    /// The value's shape does not fit the knob; dropped, and the caller
    /// logs a warning.
    Mismatched,
}

/// A write of a Bool value to a knob stored as given: `Some` with
/// whether it changed when the knob takes that shape, `None` (and no
/// change) otherwise.
#[verifier::rlimit(40)]
fn write_bool<F: PartialEq + Copy, D: PartialEq + Copy, G: PartialEq + Copy, S: PartialEq + Copy>(id: KnobId, v: bool, knobs: &mut Knobs<F, D, G, S>) -> (r: Option<bool>)
    requires
        !(id is WeathersocTableCell),
        !(id is ZappiBatteryDrainTargetW),
    ensures
        spec_knob_accepts(id, KnobValue::<F, D, G, S>::Bool(v)) ==> {
            &&& r is Some
            &&& *final(knobs) == spec_set_knob(*old(knobs), id, KnobValue::<F, D, G, S>::Bool(v))
            &&& (r->0 <==> !spec_same_value(spec_knob_value(*old(knobs), id)->0, KnobValue::<F, D, G, S>::Bool(v)))
        },
        !spec_knob_accepts(id, KnobValue::<F, D, G, S>::Bool(v)) ==> r is None && *final(knobs) == *old(knobs),
{
    match id {
        KnobId::ForceDisableExport => {
            let c = knobs.force_disable_export != v;
            knobs.force_disable_export = v;
            Some(c)
        },
        KnobId::DisableNightGridDischarge => {
            let c = knobs.disable_night_grid_discharge != v;
            knobs.disable_night_grid_discharge = v;
            Some(c)
        },
        KnobId::ChargeCarBoost => {
            let c = knobs.charge_car_boost != v;
            knobs.charge_car_boost = v;
            Some(c)
        },
        KnobId::AllowBatteryToCar => {
            let c = knobs.allow_battery_to_car != v;
            knobs.allow_battery_to_car = v;
            Some(c)
        },
        KnobId::InverterSafeDischargeEnable => {
            let c = knobs.inverter_safe_discharge_enable != v;
            knobs.inverter_safe_discharge_enable = v;
            Some(c)
        },
        KnobId::KeepBatteriesChargedDuringFullCharge => {
            let c = knobs.keep_batteries_charged_during_full_charge != v;
            knobs.keep_batteries_charged_during_full_charge = v;
            Some(c)
        },
        KnobId::FullChargeDeferToNextSunday => {
            let c = knobs.full_charge_defer_to_next_sunday != v;
            knobs.full_charge_defer_to_next_sunday = v;
            Some(c)
        },
        _ => None,
    }
}

/// A write of a Float value to a knob stored as given: `Some` with
/// whether it changed when the knob takes that shape, `None` (and no
/// change) otherwise.
#[verifier::rlimit(40)]
fn write_float<F: PartialEq + Copy, D: PartialEq + Copy, G: PartialEq + Copy, S: PartialEq + Copy>(id: KnobId, v: F, knobs: &mut Knobs<F, D, G, S>) -> (r: Option<bool>)
    requires
        !(id is WeathersocTableCell),
        !(id is ZappiBatteryDrainTargetW),
    ensures
        spec_knob_accepts(id, KnobValue::<F, D, G, S>::Float(v)) ==> {
            &&& r is Some
            &&& *final(knobs) == spec_set_knob(*old(knobs), id, KnobValue::<F, D, G, S>::Float(v))
            &&& F::obeys_eq_spec() ==> (r->0 <==> !spec_same_value(spec_knob_value(*old(knobs), id)->0, KnobValue::<F, D, G, S>::Float(v)))
        },
        !spec_knob_accepts(id, KnobValue::<F, D, G, S>::Float(v)) ==> r is None && *final(knobs) == *old(knobs),
{
    match id {
        KnobId::ExportSocThreshold => {
            let c = !knobs.export_soc_threshold.eq(&v);
            knobs.export_soc_threshold = v;
            Some(c)
        },
        KnobId::DischargeSocTarget => {
            let c = !knobs.discharge_soc_target.eq(&v);
            knobs.discharge_soc_target = v;
            Some(c)
        },
        KnobId::BatterySocTarget => {
            let c = !knobs.battery_soc_target.eq(&v);
            knobs.battery_soc_target = v;
            Some(c)
        },
        KnobId::FullChargeDischargeSocTarget => {
            let c = !knobs.full_charge_discharge_soc_target.eq(&v);
            knobs.full_charge_discharge_soc_target = v;
            Some(c)
        },
        KnobId::FullChargeExportSocThreshold => {
            let c = !knobs.full_charge_export_soc_threshold.eq(&v);
            knobs.full_charge_export_soc_threshold = v;
            Some(c)
        },
        KnobId::PessimismMultiplierModifier => {
            let c = !knobs.pessimism_multiplier_modifier.eq(&v);
            knobs.pessimism_multiplier_modifier = v;
            Some(c)
        },
        KnobId::ZappiCurrentTarget => {
            let c = !knobs.zappi_current_target.eq(&v);
            knobs.zappi_current_target = v;
            Some(c)
        },
        KnobId::ZappiLimit => {
            let c = !knobs.zappi_limit.eq(&v);
            knobs.zappi_limit = v;
            Some(c)
        },
        KnobId::ZappiEmergencyMargin => {
            let c = !knobs.zappi_emergency_margin.eq(&v);
            knobs.zappi_emergency_margin = v;
            Some(c)
        },
        KnobId::EddiEnableSoc => {
            let c = !knobs.eddi_enable_soc.eq(&v);
            knobs.eddi_enable_soc = v;
            Some(c)
        },
        KnobId::EddiDisableSoc => {
            let c = !knobs.eddi_disable_soc.eq(&v);
            knobs.eddi_disable_soc = v;
            Some(c)
        },
        KnobId::WeathersocWinterTemperatureThreshold => {
            let c = !knobs.weathersoc_winter_temperature_threshold.eq(&v);
            knobs.weathersoc_winter_temperature_threshold = v;
            Some(c)
        },
        KnobId::WeathersocLowEnergyThreshold => {
            let c = !knobs.weathersoc_low_energy_threshold.eq(&v);
            knobs.weathersoc_low_energy_threshold = v;
            Some(c)
        },
        KnobId::WeathersocOkEnergyThreshold => {
            let c = !knobs.weathersoc_ok_energy_threshold.eq(&v);
            knobs.weathersoc_ok_energy_threshold = v;
            Some(c)
        },
        KnobId::WeathersocHighEnergyThreshold => {
            let c = !knobs.weathersoc_high_energy_threshold.eq(&v);
            knobs.weathersoc_high_energy_threshold = v;
            Some(c)
        },
        KnobId::WeathersocTooMuchEnergyThreshold => {
            let c = !knobs.weathersoc_too_much_energy_threshold.eq(&v);
            knobs.weathersoc_too_much_energy_threshold = v;
            Some(c)
        },
        KnobId::WeathersocVerySunnyThreshold => {
            let c = !knobs.weathersoc_very_sunny_threshold.eq(&v);
            knobs.weathersoc_very_sunny_threshold = v;
            Some(c)
        },
        KnobId::BaselineWhPerHourWinter => {
            let c = !knobs.baseline_wh_per_hour_winter.eq(&v);
            knobs.baseline_wh_per_hour_winter = v;
            Some(c)
        },
        KnobId::BaselineWhPerHourSummer => {
            let c = !knobs.baseline_wh_per_hour_summer.eq(&v);
            knobs.baseline_wh_per_hour_summer = v;
            Some(c)
        },
        KnobId::ZappiBatteryDrainKp => {
            let c = !knobs.zappi_battery_drain_kp.eq(&v);
            knobs.zappi_battery_drain_kp = v;
            Some(c)
        },
        _ => None,
    }
}

/// A write of a Uint32 value to a knob stored as given: `Some` with
/// whether it changed when the knob takes that shape, `None` (and no
/// change) otherwise.
#[verifier::rlimit(40)]
fn write_uint32<F: PartialEq + Copy, D: PartialEq + Copy, G: PartialEq + Copy, S: PartialEq + Copy>(id: KnobId, v: u32, knobs: &mut Knobs<F, D, G, S>) -> (r: Option<bool>)
    requires
        !(id is WeathersocTableCell),
        !(id is ZappiBatteryDrainTargetW),
    ensures
        spec_knob_accepts(id, KnobValue::<F, D, G, S>::Uint32(v)) ==> {
            &&& r is Some
            &&& *final(knobs) == spec_set_knob(*old(knobs), id, KnobValue::<F, D, G, S>::Uint32(v))
            &&& (r->0 <==> !spec_same_value(spec_knob_value(*old(knobs), id)->0, KnobValue::<F, D, G, S>::Uint32(v)))
        },
        !spec_knob_accepts(id, KnobValue::<F, D, G, S>::Uint32(v)) ==> r is None && *final(knobs) == *old(knobs),
{
    match id {
        KnobId::GridExportLimitW => {
            let c = knobs.grid_export_limit_w != v;
            knobs.grid_export_limit_w = v;
            Some(c)
        },
        KnobId::GridImportLimitW => {
            let c = knobs.grid_import_limit_w != v;
            knobs.grid_import_limit_w = v;
            Some(c)
        },
        KnobId::EddiDwellS => {
            let c = knobs.eddi_dwell_s != v;
            knobs.eddi_dwell_s = v;
            Some(c)
        },
        KnobId::BaselineWinterStartMmDd => {
            let c = knobs.baseline_winter_start_mm_dd != v;
            knobs.baseline_winter_start_mm_dd = v;
            Some(c)
        },
        KnobId::BaselineWinterEndMmDd => {
            let c = knobs.baseline_winter_end_mm_dd != v;
            knobs.baseline_winter_end_mm_dd = v;
            Some(c)
        },
        KnobId::SunriseSunsetOffsetMin => {
            let c = knobs.sunrise_sunset_offset_min != v;
            knobs.sunrise_sunset_offset_min = v;
            Some(c)
        },
        KnobId::FullChargeSnapBackMaxWeekday => {
            let c = knobs.full_charge_snap_back_max_weekday != v;
            knobs.full_charge_snap_back_max_weekday = v;
            Some(c)
        },
        KnobId::ZappiBatteryDrainThresholdW => {
            let c = knobs.zappi_battery_drain_threshold_w != v;
            knobs.zappi_battery_drain_threshold_w = v;
            Some(c)
        },
        KnobId::ZappiBatteryDrainRelaxStepW => {
            let c = knobs.zappi_battery_drain_relax_step_w != v;
            knobs.zappi_battery_drain_relax_step_w = v;
            Some(c)
        },
        KnobId::ZappiBatteryDrainHardClampW => {
            let c = knobs.zappi_battery_drain_hard_clamp_w != v;
            knobs.zappi_battery_drain_hard_clamp_w = v;
            Some(c)
        },
        KnobId::ZappiBatteryDrainMpptProbeW => {
            let c = knobs.zappi_battery_drain_mppt_probe_w != v;
            knobs.zappi_battery_drain_mppt_probe_w = v;
            Some(c)
        },
        KnobId::ActuatorRetryS => {
            let c = knobs.actuator_retry_s != v;
            knobs.actuator_retry_s = v;
            Some(c)
        },
        _ => None,
    }
}

/// A write of a DischargeTime value to a knob stored as given: `Some` with
/// whether it changed when the knob takes that shape, `None` (and no
/// change) otherwise.
#[verifier::rlimit(40)]
fn write_discharge_time<F: PartialEq + Copy, D: PartialEq + Copy, G: PartialEq + Copy, S: PartialEq + Copy>(id: KnobId, v: D, knobs: &mut Knobs<F, D, G, S>) -> (r: Option<bool>)
    requires
        !(id is WeathersocTableCell),
        !(id is ZappiBatteryDrainTargetW),
    ensures
        spec_knob_accepts(id, KnobValue::<F, D, G, S>::DischargeTime(v)) ==> {
            &&& r is Some
            &&& *final(knobs) == spec_set_knob(*old(knobs), id, KnobValue::<F, D, G, S>::DischargeTime(v))
            &&& D::obeys_eq_spec() ==> (r->0 <==> !spec_same_value(spec_knob_value(*old(knobs), id)->0, KnobValue::<F, D, G, S>::DischargeTime(v)))
        },
        !spec_knob_accepts(id, KnobValue::<F, D, G, S>::DischargeTime(v)) ==> r is None && *final(knobs) == *old(knobs),
{
    match id {
        KnobId::DischargeTime => {
            let c = !knobs.discharge_time.eq(&v);
            knobs.discharge_time = v;
            Some(c)
        },
        _ => None,
    }
}

/// A write of a DebugFullCharge value to a knob stored as given: `Some` with
/// whether it changed when the knob takes that shape, `None` (and no
/// change) otherwise.
#[verifier::rlimit(40)]
fn write_debug_full_charge<F: PartialEq + Copy, D: PartialEq + Copy, G: PartialEq + Copy, S: PartialEq + Copy>(id: KnobId, v: G, knobs: &mut Knobs<F, D, G, S>) -> (r: Option<bool>)
    requires
        !(id is WeathersocTableCell),
        !(id is ZappiBatteryDrainTargetW),
    ensures
        spec_knob_accepts(id, KnobValue::<F, D, G, S>::DebugFullCharge(v)) ==> {
            &&& r is Some
            &&& *final(knobs) == spec_set_knob(*old(knobs), id, KnobValue::<F, D, G, S>::DebugFullCharge(v))
            &&& G::obeys_eq_spec() ==> (r->0 <==> !spec_same_value(spec_knob_value(*old(knobs), id)->0, KnobValue::<F, D, G, S>::DebugFullCharge(v)))
        },
        !spec_knob_accepts(id, KnobValue::<F, D, G, S>::DebugFullCharge(v)) ==> r is None && *final(knobs) == *old(knobs),
{
    match id {
        KnobId::DebugFullCharge => {
            let c = !knobs.debug_full_charge.eq(&v);
            knobs.debug_full_charge = v;
            Some(c)
        },
        _ => None,
    }
}

/// A write of a ForecastDisagreementStrategy value to a knob stored as given: `Some` with
/// whether it changed when the knob takes that shape, `None` (and no
/// change) otherwise.
#[verifier::rlimit(40)]
fn write_forecast_disagreement_strategy<F: PartialEq + Copy, D: PartialEq + Copy, G: PartialEq + Copy, S: PartialEq + Copy>(id: KnobId, v: S, knobs: &mut Knobs<F, D, G, S>) -> (r: Option<bool>)
    requires
        !(id is WeathersocTableCell),
        !(id is ZappiBatteryDrainTargetW),
    ensures
        spec_knob_accepts(id, KnobValue::<F, D, G, S>::ForecastDisagreementStrategy(v)) ==> {
            &&& r is Some
            &&& *final(knobs) == spec_set_knob(*old(knobs), id, KnobValue::<F, D, G, S>::ForecastDisagreementStrategy(v))
            &&& S::obeys_eq_spec() ==> (r->0 <==> !spec_same_value(spec_knob_value(*old(knobs), id)->0, KnobValue::<F, D, G, S>::ForecastDisagreementStrategy(v)))
        },
        !spec_knob_accepts(id, KnobValue::<F, D, G, S>::ForecastDisagreementStrategy(v)) ==> r is None && *final(knobs) == *old(knobs),
{
    match id {
        KnobId::ForecastDisagreementStrategy => {
            let c = !knobs.forecast_disagreement_strategy.eq(&v);
            knobs.forecast_disagreement_strategy = v;
            Some(c)
        },
        _ => None,
    }
}

/// A write of a ChargeBatteryExtendedMode value to a knob stored as given: `Some` with
/// whether it changed when the knob takes that shape, `None` (and no
/// change) otherwise.
#[verifier::rlimit(40)]
fn write_charge_battery_extended_mode<F: PartialEq + Copy, D: PartialEq + Copy, G: PartialEq + Copy, S: PartialEq + Copy>(id: KnobId, v: ChargeBatteryExtendedMode, knobs: &mut Knobs<F, D, G, S>) -> (r: Option<bool>)
    requires
        !(id is WeathersocTableCell),
        !(id is ZappiBatteryDrainTargetW),
    ensures
        spec_knob_accepts(id, KnobValue::<F, D, G, S>::ChargeBatteryExtendedMode(v)) ==> {
            &&& r is Some
            &&& *final(knobs) == spec_set_knob(*old(knobs), id, KnobValue::<F, D, G, S>::ChargeBatteryExtendedMode(v))
            &&& (r->0 <==> !spec_same_value(spec_knob_value(*old(knobs), id)->0, KnobValue::<F, D, G, S>::ChargeBatteryExtendedMode(v)))
        },
        !spec_knob_accepts(id, KnobValue::<F, D, G, S>::ChargeBatteryExtendedMode(v)) ==> r is None && *final(knobs) == *old(knobs),
{
    match id {
        KnobId::ChargeBatteryExtendedMode => {
            let c = knobs.charge_battery_extended_mode != v;
            knobs.charge_battery_extended_mode = v;
            Some(c)
        },
        _ => None,
    }
}

/// A write of a ExtendedChargeMode value to a knob stored as given: `Some` with
/// whether it changed when the knob takes that shape, `None` (and no
/// change) otherwise.
#[verifier::rlimit(40)]
fn write_extended_charge_mode<F: PartialEq + Copy, D: PartialEq + Copy, G: PartialEq + Copy, S: PartialEq + Copy>(id: KnobId, v: ExtendedChargeMode, knobs: &mut Knobs<F, D, G, S>) -> (r: Option<bool>)
    requires
        !(id is WeathersocTableCell),
        !(id is ZappiBatteryDrainTargetW),
    ensures
        spec_knob_accepts(id, KnobValue::<F, D, G, S>::ExtendedChargeMode(v)) ==> {
            &&& r is Some
            &&& *final(knobs) == spec_set_knob(*old(knobs), id, KnobValue::<F, D, G, S>::ExtendedChargeMode(v))
            &&& (r->0 <==> !spec_same_value(spec_knob_value(*old(knobs), id)->0, KnobValue::<F, D, G, S>::ExtendedChargeMode(v)))
        },
        !spec_knob_accepts(id, KnobValue::<F, D, G, S>::ExtendedChargeMode(v)) ==> r is None && *final(knobs) == *old(knobs),
{
    match id {
        KnobId::ChargeCarExtendedMode => {
            let c = knobs.charge_car_extended_mode != v;
            knobs.charge_car_extended_mode = v;
            Some(c)
        },
        _ => None,
    }
}

/// A write of a Mode value to a knob stored as given: `Some` with
/// whether it changed when the knob takes that shape, `None` (and no
/// change) otherwise.
#[verifier::rlimit(40)]
fn write_mode<F: PartialEq + Copy, D: PartialEq + Copy, G: PartialEq + Copy, S: PartialEq + Copy>(id: KnobId, v: Mode, knobs: &mut Knobs<F, D, G, S>) -> (r: Option<bool>)
    requires
        !(id is WeathersocTableCell),
        !(id is ZappiBatteryDrainTargetW),
    ensures
        spec_knob_accepts(id, KnobValue::<F, D, G, S>::Mode(v)) ==> {
            &&& r is Some
            &&& *final(knobs) == spec_set_knob(*old(knobs), id, KnobValue::<F, D, G, S>::Mode(v))
            &&& (r->0 <==> !spec_same_value(spec_knob_value(*old(knobs), id)->0, KnobValue::<F, D, G, S>::Mode(v)))
        },
        !spec_knob_accepts(id, KnobValue::<F, D, G, S>::Mode(v)) ==> r is None && *final(knobs) == *old(knobs),
{
    match id {
        KnobId::ExportSocThresholdMode => {
            let c = knobs.export_soc_threshold_mode != v;
            knobs.export_soc_threshold_mode = v;
            Some(c)
        },
        KnobId::DischargeSocTargetMode => {
            let c = knobs.discharge_soc_target_mode != v;
            knobs.discharge_soc_target_mode = v;
            Some(c)
        },
        KnobId::BatterySocTargetMode => {
            let c = knobs.battery_soc_target_mode != v;
            knobs.battery_soc_target_mode = v;
            Some(c)
        },
        KnobId::DisableNightGridDischargeMode => {
            let c = knobs.disable_night_grid_discharge_mode != v;
            knobs.disable_night_grid_discharge_mode = v;
            Some(c)
        },
        _ => None,
    }
}

/// A write to one weather-SoC table cell field.
fn write_cell<F: PartialEq + Copy, D: PartialEq + Copy, G: PartialEq + Copy, S: PartialEq + Copy>(
    bucket: EnergyBucket,
    temp: TempCol,
    field: CellField,
    value: KnobValue<F, D, G, S>,
    knobs: &mut Knobs<F, D, G, S>,
) -> (r: Option<bool>)
    ensures
        spec_knob_accepts(KnobId::WeathersocTableCell { bucket, temp, field }, value) ==> {
            &&& r is Some
            &&& *final(knobs) == spec_set_knob(*old(knobs), KnobId::WeathersocTableCell { bucket, temp, field }, value)
            &&& F::obeys_eq_spec() ==> (r->0 <==> !spec_same_value(
                spec_knob_value(*old(knobs), KnobId::WeathersocTableCell { bucket, temp, field })->0,
                value,
            ))
        },
        !spec_knob_accepts(KnobId::WeathersocTableCell { bucket, temp, field }, value) ==> r is None && *final(knobs)
            == *old(knobs),
{
    let mut cell = knobs.weather_soc_table.cell(bucket, temp);
    let c = match (field, value) {
        (CellField::ExportSocThreshold, KnobValue::Float(v)) => {
            let c = !cell.export_soc_threshold.eq(&v);
            cell.export_soc_threshold = v;
            c
        },
        (CellField::BatterySocTarget, KnobValue::Float(v)) => {
            let c = !cell.battery_soc_target.eq(&v);
            cell.battery_soc_target = v;
            c
        },
        (CellField::DischargeSocTarget, KnobValue::Float(v)) => {
            let c = !cell.discharge_soc_target.eq(&v);
            cell.discharge_soc_target = v;
            c
        },
        (CellField::Extended, KnobValue::Bool(v)) => {
            let c = cell.extended != v;
            cell.extended = v;
            c
        },
        _ => {
            return None;
        },
    };
    knobs.weather_soc_table.set_cell(bucket, temp, cell);
    Some(c)
}

/// Apply a write of `value` to knob `id`. A value of the shape the knob
/// takes is stored and the result says whether it differs from what was
/// there, so that callers publish only real changes; any other write
/// changes nothing. The drain target is stored as `round(value)`.
#[verifier::spinoff_prover]
#[verifier::rlimit(60)]
pub fn apply_knob<F: PartialEq + Copy, D: PartialEq + Copy, G: PartialEq + Copy, S: PartialEq + Copy, R: Fn(F) -> i32>(
    id: KnobId,
    value: KnobValue<F, D, G, S>,
    knobs: &mut Knobs<F, D, G, S>,
    round: R,
) -> (r: KnobWrite)
    requires
        forall|v: F| round.requires((v,)),
    ensures
        spec_knob_accepts(id, value) && !(id is ZappiBatteryDrainTargetW) ==> {
            &&& *final(knobs) == spec_set_knob(*old(knobs), id, value)
            &&& !(r is Mismatched)
            &&& spec_eqs_obeyed::<F, D, G, S>() ==> ((r is Changed) <==> !spec_same_value(
                spec_knob_value(*old(knobs), id)->0,
                value,
            ))
        },
        id is ZappiBatteryDrainTargetW && value is Float ==> exists|w: i32| {
            &&& round.ensures((value->Float_0,), w)
            &&& *final(knobs) == (Knobs { zappi_battery_drain_target_w: w, ..*old(knobs) })
            &&& (r is Changed) <==> old(knobs).zappi_battery_drain_target_w != w
        },
        !spec_knob_accepts(id, value) ==> *final(knobs) == *old(knobs) && r is Mismatched,
{
    let written = match id {
        KnobId::WeathersocTableCell { bucket, temp, field } => write_cell(bucket, temp, field, value, knobs),
        KnobId::ZappiBatteryDrainTargetW => match value {
            KnobValue::Float(v) => {
                let w = round(v);
                let c = knobs.zappi_battery_drain_target_w != w;
                knobs.zappi_battery_drain_target_w = w;
                Some(c)
            },
            _ => None,
        },
        _ => match value {
            KnobValue::Bool(v) => write_bool(id, v, knobs),
            KnobValue::Float(v) => write_float(id, v, knobs),
            KnobValue::Uint32(v) => write_uint32(id, v, knobs),
            KnobValue::DischargeTime(v) => write_discharge_time(id, v, knobs),
            KnobValue::DebugFullCharge(v) => write_debug_full_charge(id, v, knobs),
            KnobValue::ForecastDisagreementStrategy(v) => write_forecast_disagreement_strategy(id, v, knobs),
            KnobValue::ChargeBatteryExtendedMode(v) => write_charge_battery_extended_mode(id, v, knobs),
            KnobValue::ExtendedChargeMode(v) => write_extended_charge_mode(id, v, knobs),
            KnobValue::Mode(v) => write_mode(id, v, knobs),
        },
    };
    match written {
        Some(true) => KnobWrite::Changed,
        Some(false) => KnobWrite::Unchanged,
        None => KnobWrite::Mismatched,
    }
}

/// How many knob payloads the boot-time publish carries.
pub const PUBLISHED_KNOB_COUNT: usize = 95;

/// The knob at position `i` of the boot-time publish: the scalar knobs in
/// their fixed order, then every weather-SoC table cell field, bucket by
/// bucket, warm column before cold, fields in declaration order.
pub open spec fn spec_published_knob(i: int) -> KnobId {
    if i == 0 {
        KnobId::ForceDisableExport

    } else if i == 1 {
        KnobId::ExportSocThreshold

    } else if i == 2 {
        KnobId::DischargeSocTarget

    } else if i == 3 {
        KnobId::BatterySocTarget

    } else if i == 4 {
        KnobId::FullChargeDischargeSocTarget

    } else if i == 5 {
        KnobId::FullChargeExportSocThreshold

    } else if i == 6 {
        KnobId::DischargeTime

    } else if i == 7 {
        KnobId::DebugFullCharge

    } else if i == 8 {
        KnobId::PessimismMultiplierModifier

    } else if i == 9 {
        KnobId::DisableNightGridDischarge

    } else if i == 10 {
        KnobId::ChargeCarBoost

    } else if i == 11 {
        KnobId::ChargeCarExtendedMode

    } else if i == 12 {
        KnobId::ZappiCurrentTarget

    } else if i == 13 {
        KnobId::ZappiLimit

    } else if i == 14 {
        KnobId::ZappiEmergencyMargin

    } else if i == 15 {
        KnobId::GridExportLimitW

    } else if i == 16 {
        KnobId::GridImportLimitW

    } else if i == 17 {
        KnobId::AllowBatteryToCar

    } else if i == 18 {
        KnobId::EddiEnableSoc

    } else if i == 19 {
        KnobId::EddiDisableSoc

    } else if i == 20 {
        KnobId::EddiDwellS

    } else if i == 21 {
        KnobId::WeathersocWinterTemperatureThreshold

    } else if i == 22 {
        KnobId::WeathersocLowEnergyThreshold

    } else if i == 23 {
        KnobId::WeathersocOkEnergyThreshold

    } else if i == 24 {
        KnobId::WeathersocHighEnergyThreshold

    } else if i == 25 {
        KnobId::WeathersocTooMuchEnergyThreshold

    } else if i == 26 {
        KnobId::WeathersocVerySunnyThreshold

    } else if i == 27 {
        KnobId::ForecastDisagreementStrategy

    } else if i == 28 {
        KnobId::ChargeBatteryExtendedMode

    } else if i == 29 {
        KnobId::ExportSocThresholdMode

    } else if i == 30 {
        KnobId::DischargeSocTargetMode

    } else if i == 31 {
        KnobId::BatterySocTargetMode

    } else if i == 32 {
        KnobId::DisableNightGridDischargeMode

    } else if i == 33 {
        KnobId::InverterSafeDischargeEnable

    } else if i == 34 {
        KnobId::BaselineWinterStartMmDd

    } else if i == 35 {
        KnobId::BaselineWinterEndMmDd

    } else if i == 36 {
        KnobId::BaselineWhPerHourWinter

    } else if i == 37 {
        KnobId::BaselineWhPerHourSummer

    } else if i == 38 {
        KnobId::FullChargeDeferToNextSunday

    } else if i == 39 {
        KnobId::FullChargeSnapBackMaxWeekday

    } else if i == 40 {
        KnobId::ZappiBatteryDrainThresholdW

    } else if i == 41 {
        KnobId::ZappiBatteryDrainRelaxStepW

    } else if i == 42 {
        KnobId::ZappiBatteryDrainKp

    } else if i == 43 {
        KnobId::ZappiBatteryDrainTargetW

    } else if i == 44 {
        KnobId::ZappiBatteryDrainHardClampW

    } else if i == 45 {
        KnobId::ZappiBatteryDrainMpptProbeW

    } else if i == 46 {
        KnobId::ActuatorRetryS

    } else if i == 47 {
        KnobId::WeathersocTableCell { bucket: EnergyBucket::VerySunny, temp: TempCol::Warm, field: CellField::ExportSocThreshold }

    } else if i == 48 {
        KnobId::WeathersocTableCell { bucket: EnergyBucket::VerySunny, temp: TempCol::Warm, field: CellField::BatterySocTarget }

    } else if i == 49 {
        KnobId::WeathersocTableCell { bucket: EnergyBucket::VerySunny, temp: TempCol::Warm, field: CellField::DischargeSocTarget }

    } else if i == 50 {
        KnobId::WeathersocTableCell { bucket: EnergyBucket::VerySunny, temp: TempCol::Warm, field: CellField::Extended }

    } else if i == 51 {
        KnobId::WeathersocTableCell { bucket: EnergyBucket::VerySunny, temp: TempCol::Cold, field: CellField::ExportSocThreshold }

    } else if i == 52 {
        KnobId::WeathersocTableCell { bucket: EnergyBucket::VerySunny, temp: TempCol::Cold, field: CellField::BatterySocTarget }

    } else if i == 53 {
        KnobId::WeathersocTableCell { bucket: EnergyBucket::VerySunny, temp: TempCol::Cold, field: CellField::DischargeSocTarget }

    } else if i == 54 {
        KnobId::WeathersocTableCell { bucket: EnergyBucket::VerySunny, temp: TempCol::Cold, field: CellField::Extended }

    } else if i == 55 {
        KnobId::WeathersocTableCell { bucket: EnergyBucket::Sunny, temp: TempCol::Warm, field: CellField::ExportSocThreshold }

    } else if i == 56 {
        KnobId::WeathersocTableCell { bucket: EnergyBucket::Sunny, temp: TempCol::Warm, field: CellField::BatterySocTarget }

    } else if i == 57 {
        KnobId::WeathersocTableCell { bucket: EnergyBucket::Sunny, temp: TempCol::Warm, field: CellField::DischargeSocTarget }

    } else if i == 58 {
        KnobId::WeathersocTableCell { bucket: EnergyBucket::Sunny, temp: TempCol::Warm, field: CellField::Extended }

    } else if i == 59 {
        KnobId::WeathersocTableCell { bucket: EnergyBucket::Sunny, temp: TempCol::Cold, field: CellField::ExportSocThreshold }

    } else if i == 60 {
        KnobId::WeathersocTableCell { bucket: EnergyBucket::Sunny, temp: TempCol::Cold, field: CellField::BatterySocTarget }

    } else if i == 61 {
        KnobId::WeathersocTableCell { bucket: EnergyBucket::Sunny, temp: TempCol::Cold, field: CellField::DischargeSocTarget }

    } else if i == 62 {
        KnobId::WeathersocTableCell { bucket: EnergyBucket::Sunny, temp: TempCol::Cold, field: CellField::Extended }

    } else if i == 63 {
        KnobId::WeathersocTableCell { bucket: EnergyBucket::Mid, temp: TempCol::Warm, field: CellField::ExportSocThreshold }

    } else if i == 64 {
        KnobId::WeathersocTableCell { bucket: EnergyBucket::Mid, temp: TempCol::Warm, field: CellField::BatterySocTarget }

    } else if i == 65 {
        KnobId::WeathersocTableCell { bucket: EnergyBucket::Mid, temp: TempCol::Warm, field: CellField::DischargeSocTarget }

    } else if i == 66 {
        KnobId::WeathersocTableCell { bucket: EnergyBucket::Mid, temp: TempCol::Warm, field: CellField::Extended }

    } else if i == 67 {
        KnobId::WeathersocTableCell { bucket: EnergyBucket::Mid, temp: TempCol::Cold, field: CellField::ExportSocThreshold }

    } else if i == 68 {
        KnobId::WeathersocTableCell { bucket: EnergyBucket::Mid, temp: TempCol::Cold, field: CellField::BatterySocTarget }

    } else if i == 69 {
        KnobId::WeathersocTableCell { bucket: EnergyBucket::Mid, temp: TempCol::Cold, field: CellField::DischargeSocTarget }

    } else if i == 70 {
        KnobId::WeathersocTableCell { bucket: EnergyBucket::Mid, temp: TempCol::Cold, field: CellField::Extended }

    } else if i == 71 {
        KnobId::WeathersocTableCell { bucket: EnergyBucket::Low, temp: TempCol::Warm, field: CellField::ExportSocThreshold }

    } else if i == 72 {
        KnobId::WeathersocTableCell { bucket: EnergyBucket::Low, temp: TempCol::Warm, field: CellField::BatterySocTarget }

    } else if i == 73 {
        KnobId::WeathersocTableCell { bucket: EnergyBucket::Low, temp: TempCol::Warm, field: CellField::DischargeSocTarget }

    } else if i == 74 {
        KnobId::WeathersocTableCell { bucket: EnergyBucket::Low, temp: TempCol::Warm, field: CellField::Extended }

    } else if i == 75 {
        KnobId::WeathersocTableCell { bucket: EnergyBucket::Low, temp: TempCol::Cold, field: CellField::ExportSocThreshold }

    } else if i == 76 {
        KnobId::WeathersocTableCell { bucket: EnergyBucket::Low, temp: TempCol::Cold, field: CellField::BatterySocTarget }

    } else if i == 77 {
        KnobId::WeathersocTableCell { bucket: EnergyBucket::Low, temp: TempCol::Cold, field: CellField::DischargeSocTarget }

    } else if i == 78 {
        KnobId::WeathersocTableCell { bucket: EnergyBucket::Low, temp: TempCol::Cold, field: CellField::Extended }

    } else if i == 79 {
        KnobId::WeathersocTableCell { bucket: EnergyBucket::Dim, temp: TempCol::Warm, field: CellField::ExportSocThreshold }

    } else if i == 80 {
        KnobId::WeathersocTableCell { bucket: EnergyBucket::Dim, temp: TempCol::Warm, field: CellField::BatterySocTarget }

    } else if i == 81 {
        KnobId::WeathersocTableCell { bucket: EnergyBucket::Dim, temp: TempCol::Warm, field: CellField::DischargeSocTarget }

    } else if i == 82 {
        KnobId::WeathersocTableCell { bucket: EnergyBucket::Dim, temp: TempCol::Warm, field: CellField::Extended }

    } else if i == 83 {
        KnobId::WeathersocTableCell { bucket: EnergyBucket::Dim, temp: TempCol::Cold, field: CellField::ExportSocThreshold }

    } else if i == 84 {
        KnobId::WeathersocTableCell { bucket: EnergyBucket::Dim, temp: TempCol::Cold, field: CellField::BatterySocTarget }

    } else if i == 85 {
        KnobId::WeathersocTableCell { bucket: EnergyBucket::Dim, temp: TempCol::Cold, field: CellField::DischargeSocTarget }

    } else if i == 86 {
        KnobId::WeathersocTableCell { bucket: EnergyBucket::Dim, temp: TempCol::Cold, field: CellField::Extended }

    } else if i == 87 {
        KnobId::WeathersocTableCell { bucket: EnergyBucket::VeryDim, temp: TempCol::Warm, field: CellField::ExportSocThreshold }

    } else if i == 88 {
        KnobId::WeathersocTableCell { bucket: EnergyBucket::VeryDim, temp: TempCol::Warm, field: CellField::BatterySocTarget }

    } else if i == 89 {
        KnobId::WeathersocTableCell { bucket: EnergyBucket::VeryDim, temp: TempCol::Warm, field: CellField::DischargeSocTarget }

    } else if i == 90 {
        KnobId::WeathersocTableCell { bucket: EnergyBucket::VeryDim, temp: TempCol::Warm, field: CellField::Extended }

    } else if i == 91 {
        KnobId::WeathersocTableCell { bucket: EnergyBucket::VeryDim, temp: TempCol::Cold, field: CellField::ExportSocThreshold }

    } else if i == 92 {
        KnobId::WeathersocTableCell { bucket: EnergyBucket::VeryDim, temp: TempCol::Cold, field: CellField::BatterySocTarget }

    } else if i == 93 {
        KnobId::WeathersocTableCell { bucket: EnergyBucket::VeryDim, temp: TempCol::Cold, field: CellField::DischargeSocTarget }

    } else {
        KnobId::WeathersocTableCell { bucket: EnergyBucket::VeryDim, temp: TempCol::Cold, field: CellField::Extended }
    }
}

/// Index of each weather-SoC bucket in publish order.
pub open spec fn spec_bucket_index(b: EnergyBucket) -> int {
    match b {
        EnergyBucket::VerySunny => 0,
        EnergyBucket::Sunny => 1,
        EnergyBucket::Mid => 2,
        EnergyBucket::Low => 3,
        EnergyBucket::Dim => 4,
        EnergyBucket::VeryDim => 5,
    }
}

/// Index of each temperature column in publish order.
pub open spec fn spec_temp_index(t: TempCol) -> int {
    match t {
        TempCol::Warm => 0,
        TempCol::Cold => 1,
    }
}

/// Index of each cell field in publish order.
pub open spec fn spec_field_index(f: CellField) -> int {
    match f {
        CellField::ExportSocThreshold => 0,
        CellField::BatterySocTarget => 1,
        CellField::DischargeSocTarget => 2,
        CellField::Extended => 3,
    }
}

/// Where knob `id` stands in the boot-time publish, or -1 when it is not
/// published.
pub open spec fn spec_knob_position(id: KnobId) -> int {
    match id {
        KnobId::ForceDisableExport => 0,
        KnobId::ExportSocThreshold => 1,
        KnobId::DischargeSocTarget => 2,
        KnobId::BatterySocTarget => 3,
        KnobId::FullChargeDischargeSocTarget => 4,
        KnobId::FullChargeExportSocThreshold => 5,
        KnobId::DischargeTime => 6,
        KnobId::DebugFullCharge => 7,
        KnobId::PessimismMultiplierModifier => 8,
        KnobId::DisableNightGridDischarge => 9,
        KnobId::ChargeCarBoost => 10,
        KnobId::ChargeCarExtendedMode => 11,
        KnobId::ZappiCurrentTarget => 12,
        KnobId::ZappiLimit => 13,
        KnobId::ZappiEmergencyMargin => 14,
        KnobId::GridExportLimitW => 15,
        KnobId::GridImportLimitW => 16,
        KnobId::AllowBatteryToCar => 17,
        KnobId::EddiEnableSoc => 18,
        KnobId::EddiDisableSoc => 19,
        KnobId::EddiDwellS => 20,
        KnobId::WeathersocWinterTemperatureThreshold => 21,
        KnobId::WeathersocLowEnergyThreshold => 22,
        KnobId::WeathersocOkEnergyThreshold => 23,
        KnobId::WeathersocHighEnergyThreshold => 24,
        KnobId::WeathersocTooMuchEnergyThreshold => 25,
        KnobId::WeathersocVerySunnyThreshold => 26,
        KnobId::ForecastDisagreementStrategy => 27,
        KnobId::ChargeBatteryExtendedMode => 28,
        KnobId::ExportSocThresholdMode => 29,
        KnobId::DischargeSocTargetMode => 30,
        KnobId::BatterySocTargetMode => 31,
        KnobId::DisableNightGridDischargeMode => 32,
        KnobId::InverterSafeDischargeEnable => 33,
        KnobId::BaselineWinterStartMmDd => 34,
        KnobId::BaselineWinterEndMmDd => 35,
        KnobId::BaselineWhPerHourWinter => 36,
        KnobId::BaselineWhPerHourSummer => 37,
        KnobId::FullChargeDeferToNextSunday => 38,
        KnobId::FullChargeSnapBackMaxWeekday => 39,
        KnobId::ZappiBatteryDrainThresholdW => 40,
        KnobId::ZappiBatteryDrainRelaxStepW => 41,
        KnobId::ZappiBatteryDrainKp => 42,
        KnobId::ZappiBatteryDrainTargetW => 43,
        KnobId::ZappiBatteryDrainHardClampW => 44,
        KnobId::ZappiBatteryDrainMpptProbeW => 45,
        KnobId::ActuatorRetryS => 46,
        KnobId::WeathersocTableCell { bucket, temp, field } => 47 + spec_bucket_index(bucket) * 8
            + spec_temp_index(temp) * 4 + spec_field_index(field),
        _ => -1,
    }
}

/// Each published position holds the knob that stands there.
proof fn lemma_published_positions()
    ensures
        forall|i: int| 0 <= i < 95 ==> spec_knob_position(#[trigger] spec_published_knob(i)) == i,
{
}

/// Every stored knob but the two full-charge window settings is published,
/// at its position.
proof fn lemma_stored_knobs_published<F, D, G, S>(k: Knobs<F, D, G, S>, id: KnobId)
    requires
        spec_knob_value(k, id) is Some,
        !(id is KeepBatteriesChargedDuringFullCharge),
        !(id is SunriseSunsetOffsetMin),
    ensures
        0 <= spec_knob_position(id) < 95,
        spec_published_knob(spec_knob_position(id)) == id,
{
}

/// Every published knob but the drain target has a stored value.
proof fn lemma_published_knobs_stored<F, D, G, S>(k: Knobs<F, D, G, S>, i: int)
    requires
        0 <= i < 95,
        !(spec_published_knob(i) is ZappiBatteryDrainTargetW),
    ensures
        spec_knob_value(k, spec_published_knob(i)) is Some,
{
}

/// The knob at position `i` of the boot-time publish.
fn published_knob_at(i: usize) -> (id: KnobId)
    requires
        i < 95,
    ensures
        id == spec_published_knob(i as int),
{
    match i {
        0 => KnobId::ForceDisableExport,
        1 => KnobId::ExportSocThreshold,
        2 => KnobId::DischargeSocTarget,
        3 => KnobId::BatterySocTarget,
        4 => KnobId::FullChargeDischargeSocTarget,
        5 => KnobId::FullChargeExportSocThreshold,
        6 => KnobId::DischargeTime,
        7 => KnobId::DebugFullCharge,
        8 => KnobId::PessimismMultiplierModifier,
        9 => KnobId::DisableNightGridDischarge,
        10 => KnobId::ChargeCarBoost,
        11 => KnobId::ChargeCarExtendedMode,
        12 => KnobId::ZappiCurrentTarget,
        13 => KnobId::ZappiLimit,
        14 => KnobId::ZappiEmergencyMargin,
        15 => KnobId::GridExportLimitW,
        16 => KnobId::GridImportLimitW,
        17 => KnobId::AllowBatteryToCar,
        18 => KnobId::EddiEnableSoc,
        19 => KnobId::EddiDisableSoc,
        20 => KnobId::EddiDwellS,
        21 => KnobId::WeathersocWinterTemperatureThreshold,
        22 => KnobId::WeathersocLowEnergyThreshold,
        23 => KnobId::WeathersocOkEnergyThreshold,
        24 => KnobId::WeathersocHighEnergyThreshold,
        25 => KnobId::WeathersocTooMuchEnergyThreshold,
        26 => KnobId::WeathersocVerySunnyThreshold,
        27 => KnobId::ForecastDisagreementStrategy,
        28 => KnobId::ChargeBatteryExtendedMode,
        29 => KnobId::ExportSocThresholdMode,
        30 => KnobId::DischargeSocTargetMode,
        31 => KnobId::BatterySocTargetMode,
        32 => KnobId::DisableNightGridDischargeMode,
        33 => KnobId::InverterSafeDischargeEnable,
        34 => KnobId::BaselineWinterStartMmDd,
        35 => KnobId::BaselineWinterEndMmDd,
        36 => KnobId::BaselineWhPerHourWinter,
        37 => KnobId::BaselineWhPerHourSummer,
        38 => KnobId::FullChargeDeferToNextSunday,
        39 => KnobId::FullChargeSnapBackMaxWeekday,
        40 => KnobId::ZappiBatteryDrainThresholdW,
        41 => KnobId::ZappiBatteryDrainRelaxStepW,
        42 => KnobId::ZappiBatteryDrainKp,
        43 => KnobId::ZappiBatteryDrainTargetW,
        44 => KnobId::ZappiBatteryDrainHardClampW,
        45 => KnobId::ZappiBatteryDrainMpptProbeW,
        46 => KnobId::ActuatorRetryS,
        47 => KnobId::WeathersocTableCell { bucket: EnergyBucket::VerySunny, temp: TempCol::Warm, field: CellField::ExportSocThreshold },
        48 => KnobId::WeathersocTableCell { bucket: EnergyBucket::VerySunny, temp: TempCol::Warm, field: CellField::BatterySocTarget },
        49 => KnobId::WeathersocTableCell { bucket: EnergyBucket::VerySunny, temp: TempCol::Warm, field: CellField::DischargeSocTarget },
        50 => KnobId::WeathersocTableCell { bucket: EnergyBucket::VerySunny, temp: TempCol::Warm, field: CellField::Extended },
        51 => KnobId::WeathersocTableCell { bucket: EnergyBucket::VerySunny, temp: TempCol::Cold, field: CellField::ExportSocThreshold },
        52 => KnobId::WeathersocTableCell { bucket: EnergyBucket::VerySunny, temp: TempCol::Cold, field: CellField::BatterySocTarget },
        53 => KnobId::WeathersocTableCell { bucket: EnergyBucket::VerySunny, temp: TempCol::Cold, field: CellField::DischargeSocTarget },
        54 => KnobId::WeathersocTableCell { bucket: EnergyBucket::VerySunny, temp: TempCol::Cold, field: CellField::Extended },
        55 => KnobId::WeathersocTableCell { bucket: EnergyBucket::Sunny, temp: TempCol::Warm, field: CellField::ExportSocThreshold },
        56 => KnobId::WeathersocTableCell { bucket: EnergyBucket::Sunny, temp: TempCol::Warm, field: CellField::BatterySocTarget },
        57 => KnobId::WeathersocTableCell { bucket: EnergyBucket::Sunny, temp: TempCol::Warm, field: CellField::DischargeSocTarget },
        58 => KnobId::WeathersocTableCell { bucket: EnergyBucket::Sunny, temp: TempCol::Warm, field: CellField::Extended },
        59 => KnobId::WeathersocTableCell { bucket: EnergyBucket::Sunny, temp: TempCol::Cold, field: CellField::ExportSocThreshold },
        60 => KnobId::WeathersocTableCell { bucket: EnergyBucket::Sunny, temp: TempCol::Cold, field: CellField::BatterySocTarget },
        61 => KnobId::WeathersocTableCell { bucket: EnergyBucket::Sunny, temp: TempCol::Cold, field: CellField::DischargeSocTarget },
        62 => KnobId::WeathersocTableCell { bucket: EnergyBucket::Sunny, temp: TempCol::Cold, field: CellField::Extended },
        63 => KnobId::WeathersocTableCell { bucket: EnergyBucket::Mid, temp: TempCol::Warm, field: CellField::ExportSocThreshold },
        64 => KnobId::WeathersocTableCell { bucket: EnergyBucket::Mid, temp: TempCol::Warm, field: CellField::BatterySocTarget },
        65 => KnobId::WeathersocTableCell { bucket: EnergyBucket::Mid, temp: TempCol::Warm, field: CellField::DischargeSocTarget },
        66 => KnobId::WeathersocTableCell { bucket: EnergyBucket::Mid, temp: TempCol::Warm, field: CellField::Extended },
        67 => KnobId::WeathersocTableCell { bucket: EnergyBucket::Mid, temp: TempCol::Cold, field: CellField::ExportSocThreshold },
        68 => KnobId::WeathersocTableCell { bucket: EnergyBucket::Mid, temp: TempCol::Cold, field: CellField::BatterySocTarget },
        69 => KnobId::WeathersocTableCell { bucket: EnergyBucket::Mid, temp: TempCol::Cold, field: CellField::DischargeSocTarget },
        70 => KnobId::WeathersocTableCell { bucket: EnergyBucket::Mid, temp: TempCol::Cold, field: CellField::Extended },
        71 => KnobId::WeathersocTableCell { bucket: EnergyBucket::Low, temp: TempCol::Warm, field: CellField::ExportSocThreshold },
        72 => KnobId::WeathersocTableCell { bucket: EnergyBucket::Low, temp: TempCol::Warm, field: CellField::BatterySocTarget },
        73 => KnobId::WeathersocTableCell { bucket: EnergyBucket::Low, temp: TempCol::Warm, field: CellField::DischargeSocTarget },
        74 => KnobId::WeathersocTableCell { bucket: EnergyBucket::Low, temp: TempCol::Warm, field: CellField::Extended },
        75 => KnobId::WeathersocTableCell { bucket: EnergyBucket::Low, temp: TempCol::Cold, field: CellField::ExportSocThreshold },
        76 => KnobId::WeathersocTableCell { bucket: EnergyBucket::Low, temp: TempCol::Cold, field: CellField::BatterySocTarget },
        77 => KnobId::WeathersocTableCell { bucket: EnergyBucket::Low, temp: TempCol::Cold, field: CellField::DischargeSocTarget },
        78 => KnobId::WeathersocTableCell { bucket: EnergyBucket::Low, temp: TempCol::Cold, field: CellField::Extended },
        79 => KnobId::WeathersocTableCell { bucket: EnergyBucket::Dim, temp: TempCol::Warm, field: CellField::ExportSocThreshold },
        80 => KnobId::WeathersocTableCell { bucket: EnergyBucket::Dim, temp: TempCol::Warm, field: CellField::BatterySocTarget },
        81 => KnobId::WeathersocTableCell { bucket: EnergyBucket::Dim, temp: TempCol::Warm, field: CellField::DischargeSocTarget },
        82 => KnobId::WeathersocTableCell { bucket: EnergyBucket::Dim, temp: TempCol::Warm, field: CellField::Extended },
        83 => KnobId::WeathersocTableCell { bucket: EnergyBucket::Dim, temp: TempCol::Cold, field: CellField::ExportSocThreshold },
        84 => KnobId::WeathersocTableCell { bucket: EnergyBucket::Dim, temp: TempCol::Cold, field: CellField::BatterySocTarget },
        85 => KnobId::WeathersocTableCell { bucket: EnergyBucket::Dim, temp: TempCol::Cold, field: CellField::DischargeSocTarget },
        86 => KnobId::WeathersocTableCell { bucket: EnergyBucket::Dim, temp: TempCol::Cold, field: CellField::Extended },
        87 => KnobId::WeathersocTableCell { bucket: EnergyBucket::VeryDim, temp: TempCol::Warm, field: CellField::ExportSocThreshold },
        88 => KnobId::WeathersocTableCell { bucket: EnergyBucket::VeryDim, temp: TempCol::Warm, field: CellField::BatterySocTarget },
        89 => KnobId::WeathersocTableCell { bucket: EnergyBucket::VeryDim, temp: TempCol::Warm, field: CellField::DischargeSocTarget },
        90 => KnobId::WeathersocTableCell { bucket: EnergyBucket::VeryDim, temp: TempCol::Warm, field: CellField::Extended },
        91 => KnobId::WeathersocTableCell { bucket: EnergyBucket::VeryDim, temp: TempCol::Cold, field: CellField::ExportSocThreshold },
        92 => KnobId::WeathersocTableCell { bucket: EnergyBucket::VeryDim, temp: TempCol::Cold, field: CellField::BatterySocTarget },
        93 => KnobId::WeathersocTableCell { bucket: EnergyBucket::VeryDim, temp: TempCol::Cold, field: CellField::DischargeSocTarget },
        _ => KnobId::WeathersocTableCell { bucket: EnergyBucket::VeryDim, temp: TempCol::Cold, field: CellField::Extended },
    }
}

/// The value knob `id` holds, when it is stored as such a value.
pub fn knob_value<F: Copy, D: Copy, G: Copy, S: Copy>(knobs: &Knobs<F, D, G, S>, id: KnobId) -> (r: Option<KnobValue<F, D, G, S>>)
    ensures
        r == spec_knob_value(*knobs, id),
{
    match id {
        KnobId::ForceDisableExport => Some(KnobValue::Bool(knobs.force_disable_export)),
        KnobId::ExportSocThreshold => Some(KnobValue::Float(knobs.export_soc_threshold)),
        KnobId::DischargeSocTarget => Some(KnobValue::Float(knobs.discharge_soc_target)),
        KnobId::BatterySocTarget => Some(KnobValue::Float(knobs.battery_soc_target)),
        KnobId::FullChargeDischargeSocTarget => Some(KnobValue::Float(knobs.full_charge_discharge_soc_target)),
        KnobId::FullChargeExportSocThreshold => Some(KnobValue::Float(knobs.full_charge_export_soc_threshold)),
        KnobId::DischargeTime => Some(KnobValue::DischargeTime(knobs.discharge_time)),
        KnobId::DebugFullCharge => Some(KnobValue::DebugFullCharge(knobs.debug_full_charge)),
        KnobId::PessimismMultiplierModifier => Some(KnobValue::Float(knobs.pessimism_multiplier_modifier)),
        KnobId::DisableNightGridDischarge => Some(KnobValue::Bool(knobs.disable_night_grid_discharge)),
        KnobId::ChargeCarBoost => Some(KnobValue::Bool(knobs.charge_car_boost)),
        KnobId::ChargeCarExtendedMode => Some(KnobValue::ExtendedChargeMode(knobs.charge_car_extended_mode)),
        KnobId::ZappiCurrentTarget => Some(KnobValue::Float(knobs.zappi_current_target)),
        KnobId::ZappiLimit => Some(KnobValue::Float(knobs.zappi_limit)),
        KnobId::ZappiEmergencyMargin => Some(KnobValue::Float(knobs.zappi_emergency_margin)),
        KnobId::GridExportLimitW => Some(KnobValue::Uint32(knobs.grid_export_limit_w)),
        KnobId::GridImportLimitW => Some(KnobValue::Uint32(knobs.grid_import_limit_w)),
        KnobId::AllowBatteryToCar => Some(KnobValue::Bool(knobs.allow_battery_to_car)),
        KnobId::EddiEnableSoc => Some(KnobValue::Float(knobs.eddi_enable_soc)),
        KnobId::EddiDisableSoc => Some(KnobValue::Float(knobs.eddi_disable_soc)),
        KnobId::EddiDwellS => Some(KnobValue::Uint32(knobs.eddi_dwell_s)),
        KnobId::WeathersocWinterTemperatureThreshold => Some(KnobValue::Float(knobs.weathersoc_winter_temperature_threshold)),
        KnobId::WeathersocLowEnergyThreshold => Some(KnobValue::Float(knobs.weathersoc_low_energy_threshold)),
        KnobId::WeathersocOkEnergyThreshold => Some(KnobValue::Float(knobs.weathersoc_ok_energy_threshold)),
        KnobId::WeathersocHighEnergyThreshold => Some(KnobValue::Float(knobs.weathersoc_high_energy_threshold)),
        KnobId::WeathersocTooMuchEnergyThreshold => Some(KnobValue::Float(knobs.weathersoc_too_much_energy_threshold)),
        KnobId::WeathersocVerySunnyThreshold => Some(KnobValue::Float(knobs.weathersoc_very_sunny_threshold)),
        KnobId::ForecastDisagreementStrategy => Some(KnobValue::ForecastDisagreementStrategy(knobs.forecast_disagreement_strategy)),
        KnobId::ChargeBatteryExtendedMode => Some(KnobValue::ChargeBatteryExtendedMode(knobs.charge_battery_extended_mode)),
        KnobId::ExportSocThresholdMode => Some(KnobValue::Mode(knobs.export_soc_threshold_mode)),
        KnobId::DischargeSocTargetMode => Some(KnobValue::Mode(knobs.discharge_soc_target_mode)),
        KnobId::BatterySocTargetMode => Some(KnobValue::Mode(knobs.battery_soc_target_mode)),
        KnobId::DisableNightGridDischargeMode => Some(KnobValue::Mode(knobs.disable_night_grid_discharge_mode)),
        KnobId::InverterSafeDischargeEnable => Some(KnobValue::Bool(knobs.inverter_safe_discharge_enable)),
        KnobId::BaselineWinterStartMmDd => Some(KnobValue::Uint32(knobs.baseline_winter_start_mm_dd)),
        KnobId::BaselineWinterEndMmDd => Some(KnobValue::Uint32(knobs.baseline_winter_end_mm_dd)),
        KnobId::BaselineWhPerHourWinter => Some(KnobValue::Float(knobs.baseline_wh_per_hour_winter)),
        KnobId::BaselineWhPerHourSummer => Some(KnobValue::Float(knobs.baseline_wh_per_hour_summer)),
        KnobId::KeepBatteriesChargedDuringFullCharge => Some(KnobValue::Bool(knobs.keep_batteries_charged_during_full_charge)),
        KnobId::SunriseSunsetOffsetMin => Some(KnobValue::Uint32(knobs.sunrise_sunset_offset_min)),
        KnobId::FullChargeDeferToNextSunday => Some(KnobValue::Bool(knobs.full_charge_defer_to_next_sunday)),
        KnobId::FullChargeSnapBackMaxWeekday => Some(KnobValue::Uint32(knobs.full_charge_snap_back_max_weekday)),
        KnobId::ZappiBatteryDrainThresholdW => Some(KnobValue::Uint32(knobs.zappi_battery_drain_threshold_w)),
        KnobId::ZappiBatteryDrainRelaxStepW => Some(KnobValue::Uint32(knobs.zappi_battery_drain_relax_step_w)),
        KnobId::ZappiBatteryDrainHardClampW => Some(KnobValue::Uint32(knobs.zappi_battery_drain_hard_clamp_w)),
        KnobId::ZappiBatteryDrainKp => Some(KnobValue::Float(knobs.zappi_battery_drain_kp)),
        KnobId::ZappiBatteryDrainMpptProbeW => Some(KnobValue::Uint32(knobs.zappi_battery_drain_mppt_probe_w)),
        KnobId::ActuatorRetryS => Some(KnobValue::Uint32(knobs.actuator_retry_s)),
        KnobId::WeathersocTableCell { bucket, temp, field } => {
            let cell = knobs.weather_soc_table.cell(bucket, temp);
            Some(
                match field {
                    CellField::ExportSocThreshold => KnobValue::Float(cell.export_soc_threshold),
                    CellField::BatterySocTarget => KnobValue::Float(cell.battery_soc_target),
                    CellField::DischargeSocTarget => KnobValue::Float(cell.discharge_soc_target),
                    CellField::Extended => KnobValue::Bool(cell.extended),
                },
            )
        },
        _ => None,
    }
}

/// Every knob with its current value, for the boot-time publish that gives
/// each knob a retained state. The drain target, stored in whole watts, is
/// published as `widen(target)`. The full-charge window settings
/// (`KeepBatteriesChargedDuringFullCharge`, `SunriseSunsetOffsetMin`) are
/// not in the list.
pub fn all_knob_publish_payloads<F: Copy, D: Copy, G: Copy, S: Copy, W: Fn(i32) -> F>(
    knobs: &Knobs<F, D, G, S>,
    widen: W,
) -> (r: Vec<(KnobId, KnobValue<F, D, G, S>)>)
    requires
        forall|x: i32| widen.requires((x,)),
    ensures
        r@.len() == 95,
        forall|i: int| 0 <= i < r@.len() ==> (#[trigger] r@[i]).0 == spec_published_knob(i),
        forall|i: int|
            0 <= i < r@.len() && !((#[trigger] r@[i]).0 is ZappiBatteryDrainTargetW) ==> spec_knob_value(
                *knobs,
                r@[i].0,
            ) == Some(r@[i].1),
        forall|i: int|
            0 <= i < r@.len() && (#[trigger] r@[i]).0 is ZappiBatteryDrainTargetW ==> r@[i].1 is Float
                && widen.ensures((knobs.zappi_battery_drain_target_w,), r@[i].1->Float_0),
        forall|id: KnobId|
            #![trigger spec_knob_value(*knobs, id)]
            spec_knob_value(*knobs, id) is Some && !(id is KeepBatteriesChargedDuringFullCharge)
                && !(id is SunriseSunsetOffsetMin) ==> exists|i: int| 0 <= i < r@.len() && (#[trigger] r@[i]).0 == id,
        forall|i: int, j: int| 0 <= i < j < r@.len() ==> (#[trigger] r@[i]).0 != (#[trigger] r@[j]).0,
{
    let mut out: Vec<(KnobId, KnobValue<F, D, G, S>)> = Vec::new();
    let mut i: usize = 0;
    while i < PUBLISHED_KNOB_COUNT
        invariant
            i <= 95,
            out@.len() == i,
            forall|j: int| 0 <= j < i ==> (#[trigger] out@[j]).0 == spec_published_knob(j),
            forall|j: int|
                0 <= j < i && !((#[trigger] out@[j]).0 is ZappiBatteryDrainTargetW) ==> spec_knob_value(
                    *knobs,
                    out@[j].0,
                ) == Some(out@[j].1),
            forall|j: int|
                0 <= j < i && (#[trigger] out@[j]).0 is ZappiBatteryDrainTargetW ==> out@[j].1 is Float
                    && widen.ensures((knobs.zappi_battery_drain_target_w,), out@[j].1->Float_0),
            forall|x: i32| widen.requires((x,)),
        decreases 95 - i,
    {
        let id = published_knob_at(i);
        let value = match id {
            KnobId::ZappiBatteryDrainTargetW => KnobValue::Float(widen(knobs.zappi_battery_drain_target_w)),
            _ => {
                proof {
                    lemma_published_knobs_stored(*knobs, i as int);
                }
                knob_value(knobs, id).unwrap()
            },
        };
        out.push((id, value));
        i = i + 1;
    }
    proof {
        lemma_published_positions();
        assert forall|id: KnobId|
            #![trigger spec_knob_value(*knobs, id)]
            spec_knob_value(*knobs, id) is Some && !(id is KeepBatteriesChargedDuringFullCharge)
                && !(id is SunriseSunsetOffsetMin) implies exists|i: int| 0 <= i < out@.len() && (#[trigger] out@[i]).0 == id by {
            lemma_stored_knobs_published(*knobs, id);
            assert(out@[spec_knob_position(id)].0 == id);
        }
        assert forall|i: int, j: int| 0 <= i < j < out@.len() implies (#[trigger] out@[i]).0 != (#[trigger] out@[j]).0 by {
            assert(spec_knob_position(spec_published_knob(i)) == i);
            assert(spec_knob_position(spec_published_knob(j)) == j);
        }
    }
    out
}

} // verus!
