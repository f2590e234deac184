//! The vocabulary of health monitoring: samples, derived metrics, alerts and
//! the per-cycle report.
//!
//! Every quantity is an integer. Where a fraction matters the field holds
//! thousandths of the unit: temperatures in thousandths of a degree Celsius,
//! power in milliwatts, utilization in thousandths of a percent, ratios in
//! thousandths. Instants are milliseconds since the Unix epoch.

use vstd::prelude::*;

verus! {

/// Bytes per mebibyte.
pub const MIB: u64 = 1_048_576;

/// Categorical health level, from best to worst.
#[derive(Debug, Clone, Copy, PartialEq, Eq, Structural)]
pub enum HealthStatus {
    /// All metrics optimal.
    Excellent,
    /// Minor concerns.
    Good,
    /// Attention needed.
    Warning,
    /// Immediate action required.
    Critical,
}

/// What an alert is about.
#[derive(Debug, Clone, Copy, PartialEq, Eq, Structural)]
pub enum AlertType {
    TemperatureHigh,
    TemperatureCritical,
    ThermalThrottling,
    PowerSpike,
    MemoryLeakSuspected,
    ClockInstability,
    FanIssue,
}

impl HealthStatus {
    pub open spec fn spec_emoji(self) -> Seq<char> {
        match self {
            HealthStatus::Excellent => "🟢"@,
            HealthStatus::Good => "🔵"@,
            HealthStatus::Warning => "🟡"@,
            HealthStatus::Critical => "🔴"@,
        }
    }

    pub open spec fn spec_text(self) -> Seq<char> {
        match self {
            HealthStatus::Excellent => "Excellent"@,
            HealthStatus::Good => "Good"@,
            HealthStatus::Warning => "Warning"@,
            HealthStatus::Critical => "Critical"@,
        }
    }

    /// A coloured dot for the level.
    pub fn emoji(&self) -> (r: &'static str)
        ensures
            r@ == self.spec_emoji(),
    {
        match self {
            HealthStatus::Excellent => "🟢",
            HealthStatus::Good => "🔵",
            HealthStatus::Warning => "🟡",
            HealthStatus::Critical => "🔴",
        }
    }

    /// The level's name.
    pub fn text(&self) -> (r: &'static str)
        ensures
            r@ == self.spec_text(),
    {
        match self {
            HealthStatus::Excellent => "Excellent",
            HealthStatus::Good => "Good",
            HealthStatus::Warning => "Warning",
            HealthStatus::Critical => "Critical",
        }
    }
}

impl AlertType {
    pub open spec fn spec_emoji(self) -> Seq<char> {
        match self {
            AlertType::TemperatureHigh => "🌡️"@,
            AlertType::TemperatureCritical => "🔥"@,
            AlertType::ThermalThrottling => "🐌"@,
            AlertType::PowerSpike => "⚡"@,
            AlertType::MemoryLeakSuspected => "🧠"@,
            AlertType::ClockInstability => "⏰"@,
            AlertType::FanIssue => "🌀"@,
        }
    }

    pub open spec fn spec_name(self) -> Seq<char> {
        match self {
            AlertType::TemperatureHigh => "TemperatureHigh"@,
            AlertType::TemperatureCritical => "TemperatureCritical"@,
            AlertType::ThermalThrottling => "ThermalThrottling"@,
            AlertType::PowerSpike => "PowerSpike"@,
            AlertType::MemoryLeakSuspected => "MemoryLeakSuspected"@,
            AlertType::ClockInstability => "ClockInstability"@,
            AlertType::FanIssue => "FanIssue"@,
        }
    }

    /// A pictogram for the kind of alert.
    pub fn emoji(&self) -> (r: &'static str)
        ensures
            r@ == self.spec_emoji(),
    {
        match self {
            AlertType::TemperatureHigh => "🌡️",
            AlertType::TemperatureCritical => "🔥",
            AlertType::ThermalThrottling => "🐌",
            AlertType::PowerSpike => "⚡",
            AlertType::MemoryLeakSuspected => "🧠",
            AlertType::ClockInstability => "⏰",
            AlertType::FanIssue => "🌀",
        }
    }

    /// The variant's name, as written in exported tables.
    pub fn name(&self) -> (r: &'static str)
        ensures
            r@ == self.spec_name(),
    {
        match self {
            AlertType::TemperatureHigh => "TemperatureHigh",
            AlertType::TemperatureCritical => "TemperatureCritical",
            AlertType::ThermalThrottling => "ThermalThrottling",
            AlertType::PowerSpike => "PowerSpike",
            AlertType::MemoryLeakSuspected => "MemoryLeakSuspected",
            AlertType::ClockInstability => "ClockInstability",
            AlertType::FanIssue => "FanIssue",
        }
    }
}

/// One measurement tick.
#[derive(Debug, Clone, Copy, PartialEq, Eq, Structural)]
pub struct Sample {
    /// Milliseconds since the Unix epoch.
    pub timestamp: i64,
    /// Thousandths of a degree Celsius.
    pub temperature: i32,
    /// Milliwatts; zero where the device reports no power reading.
    pub power_draw: u32,
    /// Bytes.
    pub memory_used: u64,
    /// Thousandths of a percent.
    pub gpu_utilization: u32,
    /// Megahertz; zero where unknown.
    pub gpu_clock: u32,
    /// Megahertz; zero where unknown.
    pub memory_clock: u32,
    pub is_throttling: bool,
}

/// What the sampler hands over at one tick.
#[derive(Debug, Clone, Copy, PartialEq, Eq)]
pub struct Reading {
    /// Thousandths of a degree Celsius.
    pub temperature: i32,
    /// Milliwatts, where the device reports its power draw.
    pub power_draw: Option<u32>,
    /// Bytes.
    pub memory_used: u64,
    /// Bytes.
    pub memory_total: u64,
    /// Thousandths of a percent.
    pub gpu_utilization: u32,
    /// Megahertz.
    pub gpu_clock: Option<u32>,
    /// Megahertz.
    pub memory_clock: Option<u32>,
    pub is_throttling: bool,
}

/// The sample made of a reading taken at `timestamp`: a reading that is
/// absent counts as zero.
pub open spec fn sample_of(reading: Reading, timestamp: i64) -> Sample {
    Sample {
        timestamp,
        temperature: reading.temperature,
        power_draw: match reading.power_draw {
            Some(p) => p,
            None => 0,
        },
        memory_used: reading.memory_used,
        gpu_utilization: reading.gpu_utilization,
        gpu_clock: match reading.gpu_clock {
            Some(c) => c,
            None => 0,
        },
        memory_clock: match reading.memory_clock {
            Some(c) => c,
            None => 0,
        },
        is_throttling: reading.is_throttling,
    }
}

/// A notice that a threshold was crossed or a pattern detected in one cycle.
#[derive(Debug, PartialEq, Eq)]
pub struct HealthAlert {
    pub alert_type: AlertType,
    pub message: String,
    pub severity: HealthStatus,
    /// Timestamp of the sample that raised the alert.
    pub timestamp: i64,
    /// The observed quantity, in thousandths of its unit.
    pub value: Option<i64>,
    /// The limit it was held against, in thousandths of its unit.
    pub threshold: Option<i64>,
}

/// What an alert says, with its message as a sequence of characters.
pub struct AlertView {
    pub alert_type: AlertType,
    pub message: Seq<char>,
    pub severity: HealthStatus,
    pub timestamp: i64,
    pub value: Option<i64>,
    pub threshold: Option<i64>,
}

impl View for HealthAlert {
    type V = AlertView;

    open spec fn view(&self) -> AlertView {
        AlertView {
            alert_type: self.alert_type,
            message: self.message@,
            severity: self.severity,
            timestamp: self.timestamp,
            value: self.value,
            threshold: self.threshold,
        }
    }
}

impl Clone for HealthAlert {
    fn clone(&self) -> (c: Self)
        ensures
            c == *self,
    {
        HealthAlert {
            alert_type: self.alert_type,
            message: self.message.clone(),
            severity: self.severity,
            timestamp: self.timestamp,
            value: self.value,
            threshold: self.threshold,
        }
    }
}

/// The views of a run of alerts, in order.
pub open spec fn alert_views(alerts: Seq<HealthAlert>) -> Seq<AlertView> {
    alerts.map_values(|a: HealthAlert| a@)
}

/// Temperature readings derived from the window and the current sample.
#[derive(Debug, Clone, Copy, PartialEq, Eq)]
pub struct TemperatureMetrics {
    /// Thousandths of a degree Celsius.
    pub current: i32,
    pub max_safe: i32,
    pub critical: i32,
    /// Change over the last five minutes, thousandths of a degree.
    pub trend_5min: i64,
    /// Samples in the window above 80 °C: seconds at one sample a second.
    pub time_above_80c: u64,
    pub peak_today: i32,
}

/// Power readings derived from the window and the current sample.
#[derive(Debug, Clone, Copy, PartialEq, Eq)]
pub struct PowerMetrics {
    /// Milliwatts.
    pub current_draw: u32,
    /// Percent of utilization per watt, in thousandths, rounded down.
    pub efficiency: u64,
    /// Sudden rises among the newest sample pairs.
    pub power_spikes: u32,
    /// Mean draw over the window, milliwatts, rounded down.
    pub avg_draw_1hr: u32,
}

/// Memory readings derived from the window and the current sample.
#[derive(Debug, Clone, Copy, PartialEq, Eq)]
pub struct MemoryHealthMetrics {
    /// Change in use over the last minute, bytes.
    pub usage_trend: i128,
    /// Volatility of use, in thousandths, rounded up, at most 1000.
    pub fragmentation_score: u32,
    /// In thousandths, rounded up, at most 1000.
    pub leak_suspicion: u32,
    /// Bytes.
    pub peak_usage_today: u64,
}

/// What one monitoring cycle reports.
#[derive(Debug, Clone, PartialEq, Eq)]
pub struct GpuHealthMetrics {
    /// Whole points, 0 to 100.
    pub overall_score: u32,
    pub status: HealthStatus,
    pub temperature: TemperatureMetrics,
    pub power: PowerMetrics,
    pub memory: MemoryHealthMetrics,
    pub thermal_throttling_detected: bool,
    /// Whole minutes since monitoring began.
    pub uptime_minutes: u64,
    /// The alerts raised in this cycle, not the history.
    pub alerts: Vec<HealthAlert>,
}

/// A report with its alerts as views.
pub struct ReportView {
    pub overall_score: u32,
    pub status: HealthStatus,
    pub temperature: TemperatureMetrics,
    pub power: PowerMetrics,
    pub memory: MemoryHealthMetrics,
    pub thermal_throttling_detected: bool,
    pub uptime_minutes: u64,
    pub alerts: Seq<AlertView>,
}

impl View for GpuHealthMetrics {
    type V = ReportView;

    open spec fn view(&self) -> ReportView {
        ReportView {
            overall_score: self.overall_score,
            status: self.status,
            temperature: self.temperature,
            power: self.power,
            memory: self.memory,
            thermal_throttling_detected: self.thermal_throttling_detected,
            uptime_minutes: self.uptime_minutes,
            alerts: alert_views(self.alerts@),
        }
    }
}

} // verus!
