use victron_controller_core::ids::KnobId;
use victron_controller_core::knobs::{
    all_knob_publish_payloads, apply_knob, ChargeBatteryExtendedMode, ExtendedChargeMode, KnobValue, KnobWrite, Knobs,
    Mode, WeatherSocCell, WeatherSocTable,
};
use victron_controller_core::weather_soc_addr::{CellField, EnergyBucket, TempCol};

type K = Knobs<f64, u8, u8, u8>;
type V = KnobValue<f64, u8, u8, u8>;

fn cell() -> WeatherSocCell<f64> {
    WeatherSocCell { export_soc_threshold: 50.0, battery_soc_target: 100.0, discharge_soc_target: 30.0, extended: false }
}

fn knobs() -> K {
    Knobs {
        force_disable_export: false,
        export_soc_threshold: 0.0,
        discharge_soc_target: 0.0,
        battery_soc_target: 0.0,
        full_charge_discharge_soc_target: 0.0,
        full_charge_export_soc_threshold: 0.0,
        discharge_time: 0,
        debug_full_charge: 0,
        pessimism_multiplier_modifier: 0.0,
        disable_night_grid_discharge: false,
        charge_car_boost: false,
        charge_car_extended_mode: ExtendedChargeMode::Auto,
        zappi_current_target: 0.0,
        zappi_limit: 0.0,
        zappi_emergency_margin: 0.0,
        grid_export_limit_w: 0,
        grid_import_limit_w: 0,
        allow_battery_to_car: false,
        eddi_enable_soc: 0.0,
        eddi_disable_soc: 0.0,
        eddi_dwell_s: 0,
        weathersoc_winter_temperature_threshold: 0.0,
        weathersoc_low_energy_threshold: 0.0,
        weathersoc_ok_energy_threshold: 0.0,
        weathersoc_high_energy_threshold: 0.0,
        weathersoc_too_much_energy_threshold: 0.0,
        weathersoc_very_sunny_threshold: 0.0,
        forecast_disagreement_strategy: 0,
        charge_battery_extended_mode: ChargeBatteryExtendedMode::Auto,
        export_soc_threshold_mode: Mode::Weather,
        discharge_soc_target_mode: Mode::Weather,
        battery_soc_target_mode: Mode::Weather,
        disable_night_grid_discharge_mode: Mode::Weather,
        inverter_safe_discharge_enable: false,
        baseline_winter_start_mm_dd: 0,
        baseline_winter_end_mm_dd: 0,
        baseline_wh_per_hour_winter: 0.0,
        baseline_wh_per_hour_summer: 0.0,
        keep_batteries_charged_during_full_charge: false,
        sunrise_sunset_offset_min: 0,
        full_charge_defer_to_next_sunday: false,
        full_charge_snap_back_max_weekday: 0,
        zappi_battery_drain_threshold_w: 0,
        zappi_battery_drain_relax_step_w: 0,
        zappi_battery_drain_hard_clamp_w: 0,
        zappi_battery_drain_kp: 0.0,
        zappi_battery_drain_target_w: 0,
        zappi_battery_drain_mppt_probe_w: 0,
        actuator_retry_s: 0,
        weather_soc_table: WeatherSocTable {
            very_sunny_warm: cell(),
            very_sunny_cold: cell(),
            sunny_warm: cell(),
            sunny_cold: cell(),
            mid_warm: cell(),
            mid_cold: cell(),
            low_warm: cell(),
            low_cold: cell(),
            dim_warm: cell(),
            dim_cold: cell(),
            very_dim_warm: cell(),
            very_dim_cold: cell(),
        },
    }
}

fn send_knob(k: &mut K, id: KnobId, value: V) -> KnobWrite {
    apply_knob(id, value, k, |v: f64| v.round() as i32)
}

#[test]
fn apply_knob_zappi_battery_drain_threshold_w_routes_to_field() {
    let mut k = knobs();
    send_knob(&mut k, KnobId::ZappiBatteryDrainThresholdW, KnobValue::Uint32(2500));
    assert_eq!(k.zappi_battery_drain_threshold_w, 2500);
}

#[test]
fn apply_knob_zappi_battery_drain_relax_step_w_routes_to_field() {
    let mut k = knobs();
    send_knob(&mut k, KnobId::ZappiBatteryDrainRelaxStepW, KnobValue::Uint32(250));
    assert_eq!(k.zappi_battery_drain_relax_step_w, 250);
}

#[test]
fn apply_knob_zappi_battery_drain_kp_routes_to_field() {
    let mut k = knobs();
    send_knob(&mut k, KnobId::ZappiBatteryDrainKp, KnobValue::Float(0.5));
    assert!((k.zappi_battery_drain_kp - 0.5).abs() < f64::EPSILON);
}

#[test]
fn apply_knob_zappi_battery_drain_target_w_routes_to_field() {
    let mut k = knobs();
    // target_w routes via Float; the stored value is rounded to whole watts.
    send_knob(&mut k, KnobId::ZappiBatteryDrainTargetW, KnobValue::Float(-300.0));
    assert_eq!(k.zappi_battery_drain_target_w, -300);
}

#[test]
fn apply_knob_zappi_battery_drain_hard_clamp_w_routes_to_field() {
    let mut k = knobs();
    send_knob(&mut k, KnobId::ZappiBatteryDrainHardClampW, KnobValue::Uint32(500));
    assert_eq!(k.zappi_battery_drain_hard_clamp_w, 500);
}

#[test]
fn apply_knob_zappi_battery_drain_mppt_probe_w_routes_to_field() {
    let mut k = knobs();
    send_knob(&mut k, KnobId::ZappiBatteryDrainMpptProbeW, KnobValue::Uint32(750));
    assert_eq!(k.zappi_battery_drain_mppt_probe_w, 750);
}

#[test]
fn apply_knob_weathersoc_table_cell_routes_export_soc_threshold() {
    let mut k = knobs();
    let id = KnobId::WeathersocTableCell { bucket: EnergyBucket::Sunny, temp: TempCol::Warm, field: CellField::ExportSocThreshold };
    send_knob(&mut k, id, KnobValue::Float(42.0));
    assert!((k.weather_soc_table.sunny_warm.export_soc_threshold - 42.0).abs() < f64::EPSILON);
}

#[test]
fn apply_knob_weathersoc_table_cell_routes_battery_soc_target() {
    let mut k = knobs();
    let id = KnobId::WeathersocTableCell { bucket: EnergyBucket::Low, temp: TempCol::Cold, field: CellField::BatterySocTarget };
    send_knob(&mut k, id, KnobValue::Float(85.0));
    assert!((k.weather_soc_table.low_cold.battery_soc_target - 85.0).abs() < f64::EPSILON);
}

#[test]
fn apply_knob_weathersoc_table_cell_routes_discharge_soc_target() {
    let mut k = knobs();
    let id = KnobId::WeathersocTableCell { bucket: EnergyBucket::VeryDim, temp: TempCol::Cold, field: CellField::DischargeSocTarget };
    send_knob(&mut k, id, KnobValue::Float(25.0));
    assert!((k.weather_soc_table.very_dim_cold.discharge_soc_target - 25.0).abs() < f64::EPSILON);
}

#[test]
fn apply_knob_weathersoc_table_cell_routes_extended() {
    let mut k = knobs();
    let id = KnobId::WeathersocTableCell { bucket: EnergyBucket::VerySunny, temp: TempCol::Warm, field: CellField::Extended };
    send_knob(&mut k, id, KnobValue::Bool(true));
    assert!(k.weather_soc_table.very_sunny_warm.extended);
}

#[test]
fn apply_knob_reports_change_only_when_value_differs() {
    let mut k = knobs();
    assert_eq!(send_knob(&mut k, KnobId::ForceDisableExport, KnobValue::Bool(true)), KnobWrite::Changed);
    assert_eq!(send_knob(&mut k, KnobId::ForceDisableExport, KnobValue::Bool(true)), KnobWrite::Unchanged);
    assert_eq!(send_knob(&mut k, KnobId::ExportSocThresholdMode, KnobValue::Mode(Mode::Forced)), KnobWrite::Changed);
    assert_eq!(send_knob(&mut k, KnobId::EddiEnableSoc, KnobValue::Float(0.0)), KnobWrite::Unchanged);
    assert_eq!(send_knob(&mut k, KnobId::ZappiBatteryDrainTargetW, KnobValue::Float(0.2)), KnobWrite::Unchanged);
    assert_eq!(send_knob(&mut k, KnobId::ZappiBatteryDrainTargetW, KnobValue::Float(0.7)), KnobWrite::Changed);
    assert_eq!(k.zappi_battery_drain_target_w, 1);
}

#[test]
fn apply_knob_drops_mismatched_shapes() {
    let mut k = knobs();
    let before = k;
    assert_eq!(send_knob(&mut k, KnobId::GridExportLimitW, KnobValue::Float(1.0)), KnobWrite::Mismatched);
    let id = KnobId::WeathersocTableCell { bucket: EnergyBucket::Mid, temp: TempCol::Warm, field: CellField::Extended };
    assert_eq!(send_knob(&mut k, id, KnobValue::Float(1.0)), KnobWrite::Mismatched);
    // The heat-pump knobs are not stored in the settings.
    assert_eq!(send_knob(&mut k, KnobId::LgHeatPumpPower, KnobValue::Bool(true)), KnobWrite::Mismatched);
    assert_eq!(k, before);
}

#[test]
fn all_knob_publish_payloads_includes_48_weathersoc_table_cells() {
    let k = knobs();
    let payloads = all_knob_publish_payloads(&k, f64::from);
    let cell_payloads: Vec<_> = payloads
        .iter()
        .filter_map(|(id, value)| match id {
            KnobId::WeathersocTableCell { bucket, temp, field } => Some((*bucket, *temp, *field, *value)),
            _ => None,
        })
        .collect();
    assert_eq!(cell_payloads.len(), 48, "expected 48 cell knob payloads");
    let floats = cell_payloads.iter().filter(|(_, _, _, v)| matches!(v, KnobValue::Float(_))).count();
    let bools = cell_payloads.iter().filter(|(_, _, _, v)| matches!(v, KnobValue::Bool(_))).count();
    assert_eq!(floats, 36, "36 Float payloads (3 float fields × 12 cells)");
    assert_eq!(bools, 12, "12 Bool payloads (Extended × 12 cells)");
    for field in CellField::all() {
        let n = cell_payloads.iter().filter(|(_, _, f, _)| *f == field).count();
        assert_eq!(n, 12, "field {field:?}");
    }
}

#[test]
fn all_knob_publish_payloads_lists_each_knob_once_with_its_value() {
    let mut k = knobs();
    k.grid_export_limit_w = 4200;
    k.zappi_battery_drain_target_w = -300;
    let payloads = all_knob_publish_payloads(&k, f64::from);
    assert_eq!(payloads.len(), 95);
    assert_eq!(payloads[0], (KnobId::ForceDisableExport, KnobValue::Bool(false)));
    assert!(payloads.contains(&(KnobId::GridExportLimitW, KnobValue::Uint32(4200))));
    assert!(payloads.contains(&(KnobId::ZappiBatteryDrainTargetW, KnobValue::Float(-300.0))));
    assert!(!payloads.iter().any(|(id, _)| *id == KnobId::SunriseSunsetOffsetMin));
    for (i, (a, _)) in payloads.iter().enumerate() {
        assert!(!payloads[i + 1..].iter().any(|(b, _)| b == a), "duplicate {a:?}");
    }
}
