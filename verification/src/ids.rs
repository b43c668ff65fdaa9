//! Closed identifier enums for actuated entities, knobs, timers,
//! observables and bookkeeping, with their stable wire names.

use vstd::prelude::*;

use crate::weather_soc_addr::{CellField, EnergyBucket, TempCol};

verus! {

/// Actuated-entity identifiers.
#[derive(Clone, Copy, Debug, PartialEq, Eq, Structural, Hash)]
pub enum ActuatedId {
    GridSetpoint,
    InputCurrentLimit,
    ZappiMode,
    EddiMode,
    Schedule0,
    Schedule1,
    /// Target ESS state, mirrored on the `EssState` sensor for readback.
    EssStateTarget,
    /// Master power on/off for the heat pump.
    LgHeatPumpPower,
    /// DHW (hot water) power on/off.
    LgDhwPower,
    /// Heating-water temperature target (°C).
    LgHeatingWaterTarget,
    /// DHW temperature target (°C).
    LgDhwTarget,
}

/// Knob identifiers, one per user-controllable setting.
#[derive(Clone, Copy, Debug, PartialEq, Eq, Structural, Hash)]
pub enum KnobId {
    ForceDisableExport,
    ExportSocThreshold,
    DischargeSocTarget,
    BatterySocTarget,
    FullChargeDischargeSocTarget,
    FullChargeExportSocThreshold,
    DischargeTime,
    DebugFullCharge,
    PessimismMultiplierModifier,
    DisableNightGridDischarge,
    ChargeCarBoost,
    /// Tri-state EV extended-charge mode.
    ChargeCarExtendedMode,
    ZappiCurrentTarget,
    ZappiLimit,
    ZappiEmergencyMargin,
    GridExportLimitW,
    GridImportLimitW,
    AllowBatteryToCar,
    EddiEnableSoc,
    EddiDisableSoc,
    EddiDwellS,
    WeathersocWinterTemperatureThreshold,
    WeathersocLowEnergyThreshold,
    WeathersocOkEnergyThreshold,
    WeathersocHighEnergyThreshold,
    WeathersocTooMuchEnergyThreshold,
    /// Bucket-boundary kWh knob for the weather-SoC lookup table.
    WeathersocVerySunnyThreshold,
    ForecastDisagreementStrategy,
    ChargeBatteryExtendedMode,
    ExportSocThresholdMode,
    DischargeSocTargetMode,
    BatterySocTargetMode,
    DisableNightGridDischargeMode,
    /// Gates the inverter safety margin in the setpoint controller.
    InverterSafeDischargeEnable,
    /// MMDD-encoded dates (e.g. 1101 = Nov 1).
    BaselineWinterStartMmDd,
    BaselineWinterEndMmDd,
    BaselineWhPerHourWinter,
    BaselineWhPerHourSummer,
    KeepBatteriesChargedDuringFullCharge,
    SunriseSunsetOffsetMin,
    FullChargeDeferToNextSunday,
    FullChargeSnapBackMaxWeekday,
    ZappiBatteryDrainThresholdW,
    ZappiBatteryDrainRelaxStepW,
    ZappiBatteryDrainKp,
    ZappiBatteryDrainTargetW,
    ZappiBatteryDrainHardClampW,
    ZappiBatteryDrainMpptProbeW,
    /// Universal actuator retry threshold (s).
    ActuatorRetryS,
    LgHeatPumpPower,
    LgDhwPower,
    LgHeatingWaterTargetC,
    LgDhwTargetC,
    /// One cell field of the 6×2 weather-SoC lookup table; surfaces as 48
    /// distinct addressable knobs.
    WeathersocTableCell { bucket: EnergyBucket, temp: TempCol, field: CellField },
}

/// Confirmation status for a pinned register.
#[derive(Clone, Copy, Debug, PartialEq, Eq, Structural, Hash)]
pub enum PinnedStatus {
    /// No reading has landed since boot.
    Unknown,
    /// Most recent reading matched the configured target.
    Confirmed,
    /// Most recent reading drifted from the target.
    Drifted,
}

/// Which branch of the compensated-drain controller fired this tick.
/// Observability only.
#[derive(Clone, Copy, Debug, PartialEq, Eq, Structural, Hash)]
pub enum ZappiDrainBranch {
    /// Drain above threshold; the controller raises the setpoint.
    Tighten,
    /// Drain at or below threshold; the controller steps toward
    /// `-solar_export`.
    Relax,
    /// Battery-to-car allowed or export force-disabled: branch bypassed.
    Bypass,
    /// Zappi not pulling: drain branch inactive.
    Disabled,
}

/// Forecast providers.
#[derive(Clone, Copy, Debug, PartialEq, Eq, Structural, Hash)]
pub enum ForecastProvider {
    Solcast,
    ForecastSolar,
    OpenMeteo,
    /// Locally-computed pessimistic baseline; last-resort fallback.
    Baseline,
}

/// Identifier for every timer-driven action the shell owns.
#[derive(Clone, Copy, Debug, PartialEq, Eq, Structural, Hash)]
pub enum TimerId {
    /// Solcast HTTP poller (forecast scheduler).
    ForecastSolcast,
    /// Forecast.Solar HTTP poller (forecast scheduler).
    ForecastSolar,
    /// Open-Meteo HTTP poller (forecast scheduler).
    OpenMeteo,
    /// Locally-computed baseline forecast scheduler; no network I/O.
    ForecastBaseline,
    /// Open-Meteo current-weather poller.
    OpenMeteoCurrent,
    /// myenergi cloud poller.
    MyenergiPoller,
    /// D-Bus reseed timer for the battery service.
    DbusReseedBattery,
    /// D-Bus reseed timer for the system service.
    DbusReseedSystem,
    /// D-Bus reseed timer for the grid service.
    DbusReseedGrid,
    /// D-Bus reseed timer for the vebus service.
    DbusReseedVebus,
    /// D-Bus reseed timer for the Soltaro pvinverter service.
    DbusReseedPvinverterSoltaro,
    /// D-Bus reseed timer for the evcharger service.
    DbusReseedEvcharger,
    /// D-Bus reseed timer for MPPT (S2) service.
    DbusReseedMpptS2,
    /// D-Bus reseed timer for MPPT (USB1) service.
    DbusReseedMpptUsb1,
    /// D-Bus reseed timer for the settings service.
    DbusReseedSettings,
    /// One-shot MQTT bootstrap (retained-state restore + initial publish).
    MqttBootstrap,
    /// One-shot initial knob publish at startup.
    InitialKnobPublish,
    /// LG ThinQ heat-pump cloud poller.
    LgThinqPoller,
}

/// Status of a timer-driven action's most recent invocation.
#[derive(Clone, Copy, Debug, PartialEq, Eq, Structural, Hash)]
pub enum TimerStatus {
    /// Idle between fires.
    Idle,
    /// Currently executing.
    Running,
    /// Last run failed; the timer keeps firing on cadence.
    FailedLastRun,
    /// In retry-backoff after a failure.
    RetryBackoff,
}

/// Which BatteryLife schedule field a target write addresses.
#[derive(Clone, Copy, Debug, PartialEq, Eq, Structural, Hash)]
pub enum ScheduleField {
    Start,
    Duration,
    Soc,
    Days,
    AllowDischarge,
}

/// A D-Bus write target.
#[derive(Clone, Copy, Debug, PartialEq, Eq, Structural, Hash)]
pub enum DbusTarget {
    GridSetpoint,
    InputCurrentLimit,
    Schedule { index: u8, field: ScheduleField },
    /// The ESS BatteryLife state setting.
    EssState,
}

/// An LG ThinQ heat-pump API action.
#[derive(Clone, Copy, Debug, PartialEq, Eq, Structural)]
pub enum LgThinqAction {
    SetHeatPumpPower(bool),
    SetDhwPower(bool),
    SetHeatingWaterTargetC(i64),
    SetDhwTargetC(i64),
}

/// Identifier for a controller-derived broadcast observable.
#[derive(Clone, Copy, Debug, PartialEq, Eq, Structural, Hash)]
pub enum ControllerObservableId {
    ZappiDrainCompensatedW,
    ZappiDrainTightenActive,
    ZappiDrainHardClampActive,
    AppUptimeS,
    DiagProcessRssBytes,
    DiagProcessVmHwmBytes,
    DiagProcessVmSizeBytes,
    DiagJemallocAllocatedBytes,
    DiagJemallocResidentBytes,
    DiagHostMemTotalBytes,
    DiagHostMemAvailableBytes,
    DiagHostSwapUsedBytes,
    DiagHostUptimeS,
    WeathersocActiveCell,
}

/// Controller-relevant bookkeeping fields surfaced for HA discovery.
#[derive(Clone, Copy, Debug, PartialEq, Eq, Structural, Hash)]
pub enum BookkeepingId {
    /// Bool. Mirrors the derived zappi-active flag.
    ZappiActive,
    /// Bool. Whether a full charge is required.
    ChargeToFullRequired,
    /// Bool. Whether today's night charge extends.
    ChargeBatteryExtendedToday,
    /// %. End-of-day SoC target.
    SocEndOfDayTarget,
    /// %. Effective export SoC threshold.
    EffectiveExportSocThreshold,
    /// %. Selected battery SoC target.
    BatterySelectedSocTarget,
}

/// Keys for persistent bookkeeping state.
#[derive(Clone, Copy, Debug, PartialEq, Eq, Structural, Hash)]
pub enum BookkeepingKey {
    NextFullCharge,
    AboveSocDate,
}

#[derive(Clone, Copy, Debug, PartialEq, Eq, Structural, Hash)]
pub enum LogLevel {
    Trace,
    Debug,
    Info,
    Warn,
    Error,
}

pub open spec fn spec_pinned_status_name(x: PinnedStatus) -> Seq<char> {
    match x {
        PinnedStatus::Unknown => "unknown"@,
        PinnedStatus::Confirmed => "confirmed"@,
        PinnedStatus::Drifted => "drifted"@,
    }
}

pub open spec fn spec_zappi_drain_branch_name(x: ZappiDrainBranch) -> Seq<char> {
    match x {
        ZappiDrainBranch::Tighten => "Tighten"@,
        ZappiDrainBranch::Relax => "Relax"@,
        ZappiDrainBranch::Bypass => "Bypass"@,
        ZappiDrainBranch::Disabled => "Disabled"@,
    }
}

pub open spec fn spec_timer_name(x: TimerId) -> Seq<char> {
    match x {
        TimerId::ForecastSolcast => "timer.forecast.solcast"@,
        TimerId::ForecastSolar => "timer.forecast.solar"@,
        TimerId::OpenMeteo => "timer.forecast.open-meteo"@,
        TimerId::ForecastBaseline => "timer.forecast.baseline"@,
        TimerId::OpenMeteoCurrent => "timer.weather.current"@,
        TimerId::MyenergiPoller => "timer.myenergi.poll"@,
        TimerId::DbusReseedBattery => "timer.dbus.reseed.battery"@,
        TimerId::DbusReseedSystem => "timer.dbus.reseed.system"@,
        TimerId::DbusReseedGrid => "timer.dbus.reseed.grid"@,
        TimerId::DbusReseedVebus => "timer.dbus.reseed.vebus"@,
        TimerId::DbusReseedPvinverterSoltaro => "timer.dbus.reseed.soltaro"@,
        TimerId::DbusReseedEvcharger => "timer.dbus.reseed.evcharger"@,
        TimerId::DbusReseedMpptS2 => "timer.dbus.reseed.mppt-s2"@,
        TimerId::DbusReseedMpptUsb1 => "timer.dbus.reseed.mppt-usb1"@,
        TimerId::DbusReseedSettings => "timer.dbus.reseed.settings"@,
        TimerId::MqttBootstrap => "timer.mqtt.bootstrap"@,
        TimerId::InitialKnobPublish => "timer.knob.initial-publish"@,
        TimerId::LgThinqPoller => "timer.lg-thinq.poll"@,
    }
}

pub open spec fn spec_timer_description(x: TimerId) -> Seq<char> {
    match x {
        TimerId::ForecastSolcast => "Solcast HTTP forecast poller"@,
        TimerId::ForecastSolar => "Forecast.Solar HTTP forecast poller"@,
        TimerId::OpenMeteo => "Open-Meteo HTTP forecast poller"@,
        TimerId::ForecastBaseline => "Local baseline forecast (sunrise/sunset × Wh-per-hour)"@,
        TimerId::OpenMeteoCurrent => "Open-Meteo current-weather poller"@,
        TimerId::MyenergiPoller => "myenergi cloud poller (Zappi/Eddi state + session kWh)"@,
        TimerId::DbusReseedBattery => "D-Bus reseed timer for the battery service"@,
        TimerId::DbusReseedSystem => "D-Bus reseed timer for the system service"@,
        TimerId::DbusReseedGrid => "D-Bus reseed timer for the grid service"@,
        TimerId::DbusReseedVebus => "D-Bus reseed timer for the vebus service"@,
        TimerId::DbusReseedPvinverterSoltaro => "D-Bus reseed timer for the Soltaro pvinverter service"@,
        TimerId::DbusReseedEvcharger => "D-Bus reseed timer for the evcharger service"@,
        TimerId::DbusReseedMpptS2 => "D-Bus reseed timer for the MPPT (S2) service"@,
        TimerId::DbusReseedMpptUsb1 => "D-Bus reseed timer for the MPPT (USB1) service"@,
        TimerId::DbusReseedSettings => "D-Bus reseed timer for the settings service"@,
        TimerId::MqttBootstrap => "One-shot MQTT bootstrap (retained-state restore + initial publish)"@,
        TimerId::InitialKnobPublish => "One-shot initial knob publish at startup"@,
        TimerId::LgThinqPoller => "LG ThinQ heat-pump cloud poller (state + temperature readbacks)"@,
    }
}

pub open spec fn spec_timer_status_name(x: TimerStatus) -> Seq<char> {
    match x {
        TimerStatus::Idle => "idle"@,
        TimerStatus::Running => "running"@,
        TimerStatus::FailedLastRun => "failed_last_run"@,
        TimerStatus::RetryBackoff => "retry_backoff"@,
    }
}

pub open spec fn spec_observable_name(x: ControllerObservableId) -> Seq<char> {
    match x {
        ControllerObservableId::ZappiDrainCompensatedW => "zappi-drain.compensated-w"@,
        ControllerObservableId::ZappiDrainTightenActive => "zappi-drain.tighten-active"@,
        ControllerObservableId::ZappiDrainHardClampActive => "zappi-drain.hard-clamp-active"@,
        ControllerObservableId::AppUptimeS => "diagnostics.uptime-s"@,
        ControllerObservableId::DiagProcessRssBytes => "diagnostics.process-rss-bytes"@,
        ControllerObservableId::DiagProcessVmHwmBytes => "diagnostics.process-vm-hwm-bytes"@,
        ControllerObservableId::DiagProcessVmSizeBytes => "diagnostics.process-vm-size-bytes"@,
        ControllerObservableId::DiagJemallocAllocatedBytes => "diagnostics.jemalloc-allocated-bytes"@,
        ControllerObservableId::DiagJemallocResidentBytes => "diagnostics.jemalloc-resident-bytes"@,
        ControllerObservableId::DiagHostMemTotalBytes => "diagnostics.host-mem-total-bytes"@,
        ControllerObservableId::DiagHostMemAvailableBytes => "diagnostics.host-mem-available-bytes"@,
        ControllerObservableId::DiagHostSwapUsedBytes => "diagnostics.host-swap-used-bytes"@,
        ControllerObservableId::DiagHostUptimeS => "diagnostics.host-uptime-s"@,
        ControllerObservableId::WeathersocActiveCell => "weathersoc.active.cell"@,
    }
}

pub open spec fn spec_bookkeeping_id_name(x: BookkeepingId) -> Seq<char> {
    match x {
        BookkeepingId::ZappiActive => "evcharger.active"@,
        BookkeepingId::ChargeToFullRequired => "schedule.full-charge.required"@,
        BookkeepingId::ChargeBatteryExtendedToday => "schedule.extended.charge.today"@,
        BookkeepingId::SocEndOfDayTarget => "battery.soc.target.end-of-day"@,
        BookkeepingId::EffectiveExportSocThreshold => "battery.soc.threshold.export.effective"@,
        BookkeepingId::BatterySelectedSocTarget => "battery.soc.target.selected"@,
    }
}

impl PinnedStatus {
    /// Lowercase wire name for the dashboard table.
    pub fn name(self) -> (s: &'static str)
        ensures
            s@ == spec_pinned_status_name(self),
    {
        match self {
            PinnedStatus::Unknown => "unknown",
            PinnedStatus::Confirmed => "confirmed",
            PinnedStatus::Drifted => "drifted",
        }
    }
}

impl ZappiDrainBranch {
    /// Display name of the branch.
    pub fn name(&self) -> (s: &'static str)
        ensures
            s@ == spec_zappi_drain_branch_name(*self),
    {
        match *self {
            ZappiDrainBranch::Tighten => "Tighten",
            ZappiDrainBranch::Relax => "Relax",
            ZappiDrainBranch::Bypass => "Bypass",
            ZappiDrainBranch::Disabled => "Disabled",
        }
    }
}

impl TimerId {
    /// All variants, so the dashboard can render every timer before its first fire.
    pub fn all() -> (v: Vec<TimerId>)
        ensures
            v@ == seq![
                TimerId::ForecastSolcast,
                TimerId::ForecastSolar,
                TimerId::OpenMeteo,
                TimerId::ForecastBaseline,
                TimerId::OpenMeteoCurrent,
                TimerId::MyenergiPoller,
                TimerId::DbusReseedBattery,
                TimerId::DbusReseedSystem,
                TimerId::DbusReseedGrid,
                TimerId::DbusReseedVebus,
                TimerId::DbusReseedPvinverterSoltaro,
                TimerId::DbusReseedEvcharger,
                TimerId::DbusReseedMpptS2,
                TimerId::DbusReseedMpptUsb1,
                TimerId::DbusReseedSettings,
                TimerId::MqttBootstrap,
                TimerId::InitialKnobPublish,
                TimerId::LgThinqPoller,
            ],
    {
        let mut v: Vec<TimerId> = Vec::new();
        v.push(TimerId::ForecastSolcast);
        v.push(TimerId::ForecastSolar);
        v.push(TimerId::OpenMeteo);
        v.push(TimerId::ForecastBaseline);
        v.push(TimerId::OpenMeteoCurrent);
        v.push(TimerId::MyenergiPoller);
        v.push(TimerId::DbusReseedBattery);
        v.push(TimerId::DbusReseedSystem);
        v.push(TimerId::DbusReseedGrid);
        v.push(TimerId::DbusReseedVebus);
        v.push(TimerId::DbusReseedPvinverterSoltaro);
        v.push(TimerId::DbusReseedEvcharger);
        v.push(TimerId::DbusReseedMpptS2);
        v.push(TimerId::DbusReseedMpptUsb1);
        v.push(TimerId::DbusReseedSettings);
        v.push(TimerId::MqttBootstrap);
        v.push(TimerId::InitialKnobPublish);
        v.push(TimerId::LgThinqPoller);
        assert(v@ =~= seq![
                TimerId::ForecastSolcast,
                TimerId::ForecastSolar,
                TimerId::OpenMeteo,
                TimerId::ForecastBaseline,
                TimerId::OpenMeteoCurrent,
                TimerId::MyenergiPoller,
                TimerId::DbusReseedBattery,
                TimerId::DbusReseedSystem,
                TimerId::DbusReseedGrid,
                TimerId::DbusReseedVebus,
                TimerId::DbusReseedPvinverterSoltaro,
                TimerId::DbusReseedEvcharger,
                TimerId::DbusReseedMpptS2,
                TimerId::DbusReseedMpptUsb1,
                TimerId::DbusReseedSettings,
                TimerId::MqttBootstrap,
                TimerId::InitialKnobPublish,
                TimerId::LgThinqPoller,
            ]);
        v
    }

    /// Stable dotted identifier carried on the wire.
    pub fn name(self) -> (s: &'static str)
        ensures
            s@ == spec_timer_name(self),
    {
        match self {
            TimerId::ForecastSolcast => "timer.forecast.solcast",
            TimerId::ForecastSolar => "timer.forecast.solar",
            TimerId::OpenMeteo => "timer.forecast.open-meteo",
            TimerId::ForecastBaseline => "timer.forecast.baseline",
            TimerId::OpenMeteoCurrent => "timer.weather.current",
            TimerId::MyenergiPoller => "timer.myenergi.poll",
            TimerId::DbusReseedBattery => "timer.dbus.reseed.battery",
            TimerId::DbusReseedSystem => "timer.dbus.reseed.system",
            TimerId::DbusReseedGrid => "timer.dbus.reseed.grid",
            TimerId::DbusReseedVebus => "timer.dbus.reseed.vebus",
            TimerId::DbusReseedPvinverterSoltaro => "timer.dbus.reseed.soltaro",
            TimerId::DbusReseedEvcharger => "timer.dbus.reseed.evcharger",
            TimerId::DbusReseedMpptS2 => "timer.dbus.reseed.mppt-s2",
            TimerId::DbusReseedMpptUsb1 => "timer.dbus.reseed.mppt-usb1",
            TimerId::DbusReseedSettings => "timer.dbus.reseed.settings",
            TimerId::MqttBootstrap => "timer.mqtt.bootstrap",
            TimerId::InitialKnobPublish => "timer.knob.initial-publish",
            TimerId::LgThinqPoller => "timer.lg-thinq.poll",
        }
    }

    /// Human-readable description for the dashboard.
    pub fn description(self) -> (s: &'static str)
        ensures
            s@ == spec_timer_description(self),
    {
        match self {
            TimerId::ForecastSolcast => "Solcast HTTP forecast poller",
            TimerId::ForecastSolar => "Forecast.Solar HTTP forecast poller",
            TimerId::OpenMeteo => "Open-Meteo HTTP forecast poller",
            TimerId::ForecastBaseline => "Local baseline forecast (sunrise/sunset × Wh-per-hour)",
            TimerId::OpenMeteoCurrent => "Open-Meteo current-weather poller",
            TimerId::MyenergiPoller => "myenergi cloud poller (Zappi/Eddi state + session kWh)",
            TimerId::DbusReseedBattery => "D-Bus reseed timer for the battery service",
            TimerId::DbusReseedSystem => "D-Bus reseed timer for the system service",
            TimerId::DbusReseedGrid => "D-Bus reseed timer for the grid service",
            TimerId::DbusReseedVebus => "D-Bus reseed timer for the vebus service",
            TimerId::DbusReseedPvinverterSoltaro => "D-Bus reseed timer for the Soltaro pvinverter service",
            TimerId::DbusReseedEvcharger => "D-Bus reseed timer for the evcharger service",
            TimerId::DbusReseedMpptS2 => "D-Bus reseed timer for the MPPT (S2) service",
            TimerId::DbusReseedMpptUsb1 => "D-Bus reseed timer for the MPPT (USB1) service",
            TimerId::DbusReseedSettings => "D-Bus reseed timer for the settings service",
            TimerId::MqttBootstrap => "One-shot MQTT bootstrap (retained-state restore + initial publish)",
            TimerId::InitialKnobPublish => "One-shot initial knob publish at startup",
            TimerId::LgThinqPoller => "LG ThinQ heat-pump cloud poller (state + temperature readbacks)",
        }
    }
}

impl TimerStatus {
    /// `snake_case` wire encoding.
    pub fn name(self) -> (s: &'static str)
        ensures
            s@ == spec_timer_status_name(self),
    {
        match self {
            TimerStatus::Idle => "idle",
            TimerStatus::Running => "running",
            TimerStatus::FailedLastRun => "failed_last_run",
            TimerStatus::RetryBackoff => "retry_backoff",
        }
    }
}

impl ControllerObservableId {
    /// Dotted name used in the MQTT topic and HA discovery.
    pub fn name(&self) -> (s: &'static str)
        ensures
            s@ == spec_observable_name(*self),
    {
        match *self {
            ControllerObservableId::ZappiDrainCompensatedW => "zappi-drain.compensated-w",
            ControllerObservableId::ZappiDrainTightenActive => "zappi-drain.tighten-active",
            ControllerObservableId::ZappiDrainHardClampActive => "zappi-drain.hard-clamp-active",
            ControllerObservableId::AppUptimeS => "diagnostics.uptime-s",
            ControllerObservableId::DiagProcessRssBytes => "diagnostics.process-rss-bytes",
            ControllerObservableId::DiagProcessVmHwmBytes => "diagnostics.process-vm-hwm-bytes",
            ControllerObservableId::DiagProcessVmSizeBytes => "diagnostics.process-vm-size-bytes",
            ControllerObservableId::DiagJemallocAllocatedBytes => "diagnostics.jemalloc-allocated-bytes",
            ControllerObservableId::DiagJemallocResidentBytes => "diagnostics.jemalloc-resident-bytes",
            ControllerObservableId::DiagHostMemTotalBytes => "diagnostics.host-mem-total-bytes",
            ControllerObservableId::DiagHostMemAvailableBytes => "diagnostics.host-mem-available-bytes",
            ControllerObservableId::DiagHostSwapUsedBytes => "diagnostics.host-swap-used-bytes",
            ControllerObservableId::DiagHostUptimeS => "diagnostics.host-uptime-s",
            ControllerObservableId::WeathersocActiveCell => "weathersoc.active.cell",
        }
    }

    /// All variants, for broadcast loops.
    pub fn all() -> (v: Vec<ControllerObservableId>)
        ensures
            v@ == seq![
                ControllerObservableId::ZappiDrainCompensatedW,
                ControllerObservableId::ZappiDrainTightenActive,
                ControllerObservableId::ZappiDrainHardClampActive,
                ControllerObservableId::AppUptimeS,
                ControllerObservableId::DiagProcessRssBytes,
                ControllerObservableId::DiagProcessVmHwmBytes,
                ControllerObservableId::DiagProcessVmSizeBytes,
                ControllerObservableId::DiagJemallocAllocatedBytes,
                ControllerObservableId::DiagJemallocResidentBytes,
                ControllerObservableId::DiagHostMemTotalBytes,
                ControllerObservableId::DiagHostMemAvailableBytes,
                ControllerObservableId::DiagHostSwapUsedBytes,
                ControllerObservableId::DiagHostUptimeS,
                ControllerObservableId::WeathersocActiveCell,
            ],
    {
        let mut v: Vec<ControllerObservableId> = Vec::new();
        v.push(ControllerObservableId::ZappiDrainCompensatedW);
        v.push(ControllerObservableId::ZappiDrainTightenActive);
        v.push(ControllerObservableId::ZappiDrainHardClampActive);
        v.push(ControllerObservableId::AppUptimeS);
        v.push(ControllerObservableId::DiagProcessRssBytes);
        v.push(ControllerObservableId::DiagProcessVmHwmBytes);
        v.push(ControllerObservableId::DiagProcessVmSizeBytes);
        v.push(ControllerObservableId::DiagJemallocAllocatedBytes);
        v.push(ControllerObservableId::DiagJemallocResidentBytes);
        v.push(ControllerObservableId::DiagHostMemTotalBytes);
        v.push(ControllerObservableId::DiagHostMemAvailableBytes);
        v.push(ControllerObservableId::DiagHostSwapUsedBytes);
        v.push(ControllerObservableId::DiagHostUptimeS);
        v.push(ControllerObservableId::WeathersocActiveCell);
        assert(v@ =~= seq![
                ControllerObservableId::ZappiDrainCompensatedW,
                ControllerObservableId::ZappiDrainTightenActive,
                ControllerObservableId::ZappiDrainHardClampActive,
                ControllerObservableId::AppUptimeS,
                ControllerObservableId::DiagProcessRssBytes,
                ControllerObservableId::DiagProcessVmHwmBytes,
                ControllerObservableId::DiagProcessVmSizeBytes,
                ControllerObservableId::DiagJemallocAllocatedBytes,
                ControllerObservableId::DiagJemallocResidentBytes,
                ControllerObservableId::DiagHostMemTotalBytes,
                ControllerObservableId::DiagHostMemAvailableBytes,
                ControllerObservableId::DiagHostSwapUsedBytes,
                ControllerObservableId::DiagHostUptimeS,
                ControllerObservableId::WeathersocActiveCell,
            ]);
        v
    }
}

impl BookkeepingId {
    /// Stable dotted topic-tail name.
    pub fn name(self) -> (s: &'static str)
        ensures
            s@ == spec_bookkeeping_id_name(self),
    {
        match self {
            BookkeepingId::ZappiActive => "evcharger.active",
            BookkeepingId::ChargeToFullRequired => "schedule.full-charge.required",
            BookkeepingId::ChargeBatteryExtendedToday => "schedule.extended.charge.today",
            BookkeepingId::SocEndOfDayTarget => "battery.soc.target.end-of-day",
            BookkeepingId::EffectiveExportSocThreshold => "battery.soc.threshold.export.effective",
            BookkeepingId::BatterySelectedSocTarget => "battery.soc.target.selected",
        }
    }
}


/// Timer names are pairwise distinct and all live under the `timer.`
/// namespace.
pub proof fn lemma_timer_names(a: TimerId, b: TimerId)
    ensures
        a != b ==> spec_timer_name(a) != spec_timer_name(b),
        spec_timer_name(a).len() >= 6,
        spec_timer_name(a).take(6) == "timer."@,
{
    reveal_strlit("timer.forecast.solcast");
    assert("timer.forecast.solcast"@.len() == 22);
    assert("timer.forecast.solcast"@[6] == 'f');
    reveal_strlit("timer.forecast.solar");
    assert("timer.forecast.solar"@.len() == 20);
    assert("timer.forecast.solar"@[6] == 'f');
    reveal_strlit("timer.forecast.open-meteo");
    assert("timer.forecast.open-meteo"@.len() == 25);
    assert("timer.forecast.open-meteo"@[6] == 'f');
    reveal_strlit("timer.forecast.baseline");
    assert("timer.forecast.baseline"@.len() == 23);
    assert("timer.forecast.baseline"@[6] == 'f');
    reveal_strlit("timer.weather.current");
    assert("timer.weather.current"@.len() == 21);
    reveal_strlit("timer.myenergi.poll");
    assert("timer.myenergi.poll"@.len() == 19);
    assert("timer.myenergi.poll"@[6] == 'm');
    reveal_strlit("timer.dbus.reseed.battery");
    assert("timer.dbus.reseed.battery"@.len() == 25);
    assert("timer.dbus.reseed.battery"@[6] == 'd');
    assert("timer.dbus.reseed.battery"@[18] == 'b');
    reveal_strlit("timer.dbus.reseed.system");
    assert("timer.dbus.reseed.system"@.len() == 24);
    reveal_strlit("timer.dbus.reseed.grid");
    assert("timer.dbus.reseed.grid"@.len() == 22);
    assert("timer.dbus.reseed.grid"@[6] == 'd');
    reveal_strlit("timer.dbus.reseed.vebus");
    assert("timer.dbus.reseed.vebus"@.len() == 23);
    assert("timer.dbus.reseed.vebus"@[6] == 'd');
    reveal_strlit("timer.dbus.reseed.soltaro");
    assert("timer.dbus.reseed.soltaro"@.len() == 25);
    assert("timer.dbus.reseed.soltaro"@[6] == 'd');
    assert("timer.dbus.reseed.soltaro"@[18] == 's');
    reveal_strlit("timer.dbus.reseed.evcharger");
    assert("timer.dbus.reseed.evcharger"@.len() == 27);
    assert("timer.dbus.reseed.evcharger"@[18] == 'e');
    reveal_strlit("timer.dbus.reseed.mppt-s2");
    assert("timer.dbus.reseed.mppt-s2"@.len() == 25);
    assert("timer.dbus.reseed.mppt-s2"@[6] == 'd');
    assert("timer.dbus.reseed.mppt-s2"@[18] == 'm');
    reveal_strlit("timer.dbus.reseed.mppt-usb1");
    assert("timer.dbus.reseed.mppt-usb1"@.len() == 27);
    assert("timer.dbus.reseed.mppt-usb1"@[18] == 'm');
    reveal_strlit("timer.dbus.reseed.settings");
    assert("timer.dbus.reseed.settings"@.len() == 26);
    assert("timer.dbus.reseed.settings"@[6] == 'd');
    reveal_strlit("timer.mqtt.bootstrap");
    assert("timer.mqtt.bootstrap"@.len() == 20);
    assert("timer.mqtt.bootstrap"@[6] == 'm');
    reveal_strlit("timer.knob.initial-publish");
    assert("timer.knob.initial-publish"@.len() == 26);
    assert("timer.knob.initial-publish"@[6] == 'k');
    reveal_strlit("timer.lg-thinq.poll");
    assert("timer.lg-thinq.poll"@.len() == 19);
    assert("timer.lg-thinq.poll"@[6] == 'l');
    reveal_strlit("timer.");
    assert(spec_timer_name(a).take(6) =~= "timer."@);
}

/// Observable names are pairwise distinct and carry no `/`: they are the
/// bare middle segment of a topic, without a prefix or suffix.
pub proof fn lemma_observable_names(a: ControllerObservableId, b: ControllerObservableId)
    ensures
        a != b ==> spec_observable_name(a) != spec_observable_name(b),
        forall|i: int| 0 <= i < spec_observable_name(a).len() ==> spec_observable_name(a)[i] != '/',
{
    reveal_strlit("zappi-drain.compensated-w");
    assert("zappi-drain.compensated-w"@.len() == 25);
    assert("zappi-drain.compensated-w"@[0] == 'z');
    reveal_strlit("zappi-drain.tighten-active");
    assert("zappi-drain.tighten-active"@.len() == 26);
    reveal_strlit("zappi-drain.hard-clamp-active");
    assert("zappi-drain.hard-clamp-active"@.len() == 29);
    assert("zappi-drain.hard-clamp-active"@[0] == 'z');
    reveal_strlit("diagnostics.uptime-s");
    assert("diagnostics.uptime-s"@.len() == 20);
    reveal_strlit("diagnostics.process-rss-bytes");
    assert("diagnostics.process-rss-bytes"@.len() == 29);
    assert("diagnostics.process-rss-bytes"@[0] == 'd');
    reveal_strlit("diagnostics.process-vm-hwm-bytes");
    assert("diagnostics.process-vm-hwm-bytes"@.len() == 32);
    assert("diagnostics.process-vm-hwm-bytes"@[12] == 'p');
    reveal_strlit("diagnostics.process-vm-size-bytes");
    assert("diagnostics.process-vm-size-bytes"@.len() == 33);
    reveal_strlit("diagnostics.jemalloc-allocated-bytes");
    assert("diagnostics.jemalloc-allocated-bytes"@.len() == 36);
    assert("diagnostics.jemalloc-allocated-bytes"@[12] == 'j');
    reveal_strlit("diagnostics.jemalloc-resident-bytes");
    assert("diagnostics.jemalloc-resident-bytes"@.len() == 35);
    reveal_strlit("diagnostics.host-mem-total-bytes");
    assert("diagnostics.host-mem-total-bytes"@.len() == 32);
    assert("diagnostics.host-mem-total-bytes"@[12] == 'h');
    assert("diagnostics.host-mem-total-bytes"@[17] == 'm');
    reveal_strlit("diagnostics.host-mem-available-bytes");
    assert("diagnostics.host-mem-available-bytes"@.len() == 36);
    assert("diagnostics.host-mem-available-bytes"@[12] == 'h');
    reveal_strlit("diagnostics.host-swap-used-bytes");
    assert("diagnostics.host-swap-used-bytes"@.len() == 32);
    assert("diagnostics.host-swap-used-bytes"@[12] == 'h');
    assert("diagnostics.host-swap-used-bytes"@[17] == 's');
    reveal_strlit("diagnostics.host-uptime-s");
    assert("diagnostics.host-uptime-s"@.len() == 25);
    assert("diagnostics.host-uptime-s"@[0] == 'd');
    reveal_strlit("weathersoc.active.cell");
    assert("weathersoc.active.cell"@.len() == 22);
}

} // verus!
