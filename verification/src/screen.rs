//! The words on the screens: what each panel says of the devices, the
//! processes and the health of the device shown. Drawing them is the
//! caller's part.

use crate::clock::{beyond_calendar, local_time_format, wall_clock_millis};
use crate::decimal::{
    decimal, plus_signed_ratio_text, push_decimal, push_plus_signed_ratio, push_ratio,
    push_signed_decimal, ratio_text, signed_decimal,
};
use crate::display::{leak_state_of, temperature_state_of, get_usage_mark, usage_mark, LeakState, TemperatureState};
use crate::fields::{
    gibibytes, number_or, percent_text, push_gibibytes, push_number_or, push_percent,
    push_rounded, push_rounded_or, push_tenths, push_text_or, push_trend, push_yes_no, rounded,
    rounded_or, tenths, text_or, trend_text, yes_no,
};
use crate::gpu::{GpuInfo, GpuInfoView};
use crate::health::{alert_views, AlertView, GpuHealthMetrics, HealthAlert, ReportView, MIB};
use crate::process::{GpuProcess, GpuProcessView};
use crate::settings::AppSettings;
use vstd::prelude::*;
use vstd::string::StringExecFns;

verus! {

/// Writes the words on the screens.
pub struct Screen;

/// How a row of the process table is set off.
#[derive(Debug, Clone, Copy, PartialEq, Eq, Structural)]
pub enum RowStyle {
    /// The row selected.
    Selected,
    /// Every other row, beginning with the first.
    Shaded,
    Plain,
}

/// At most this many alerts are listed on the screen.
pub const LISTED_ALERTS: usize = 8;

/// The report as a view, where there is one.
pub open spec fn report_view(health: Option<&GpuHealthMetrics>) -> Option<ReportView> {
    match health {
        Some(h) => Some(h@),
        None => None,
    }
}

/// The memory that is not in use; none where more is in use than there is.
pub open spec fn memory_free(total: u64, used: u64) -> u64 {
    if total >= used {
        (total - used) as u64
    } else {
        0
    }
}

/// The words on health in the status line, or that health is yet to be
/// known.
pub open spec fn health_info_text(health: Option<ReportView>) -> Seq<char> {
    match health {
        Some(h) => health_line_text(h),
        None => "⚪ Health: Initializing"@,
    }
}

/// Whether a process runs in a container, and in which.
pub open spec fn container_info_text(process: GpuProcessView) -> Seq<char> {
    match process.container_id {
        Some(c) => "🐳 Container: "@ + c,
        None => "📦 Native Process"@,
    }
}

/// The parent of a process, or that it has none.
pub open spec fn parent_info_text(process: GpuProcessView) -> Seq<char> {
    match process.parent_pid {
        Some(p) => "👨‍👩‍👧‍👦 Parent PID: "@ + decimal(p as nat),
        None => "🌱 Root Process"@,
    }
}

/// The share of the device's memory that a process uses, in percent; zero
/// where no device is shown.
pub open spec fn memory_share_text(used: u64, memory_total: Option<u64>) -> Seq<char> {
    match memory_total {
        Some(total) => percent_text(used as nat, total as nat),
        None => "0.0"@,
    }
}

/// How the row at a place of the table is set off.
pub open spec fn row_style_of(index: usize, selected: Option<usize>) -> RowStyle {
    if selected == Some(index) {
        RowStyle::Selected
    } else if index % 2 == 0 {
        RowStyle::Shaded
    } else {
        RowStyle::Plain
    }
}

/// The eight cells of the row of a process: its number, its owner, its
/// share of the device, its share of the device's memory, its memory,
/// its shares of encoder and decoder, and its command.
pub open spec fn process_row_text(process: GpuProcessView, memory_total: Option<u64>) -> Seq<
    Seq<char>,
> {
    seq![
        decimal(process.pid as nat),
        process.user,
        usage_mark(process.gpu_usage as int) + " "@ + tenths(process.gpu_usage as int) + "%"@,
        memory_share_text(process.memory_usage, memory_total) + "%"@,
        decimal((process.memory_usage / MIB) as nat) + "MB"@,
        tenths(process.encoder_usage as int) + "%"@,
        tenths(process.decoder_usage as int) + "%"@,
        (if process.container_id is Some {
            "🐳 "@
        } else {
            Seq::<char>::empty()
        }) + process.command,
    ]
}

/// The texts of a run of strings, in order.
pub open spec fn texts(strings: Seq<String>) -> Seq<Seq<char>> {
    strings.map_values(|s: String| s@)
}

/// `text` followed by a line for each alert, each after a line feed;
/// `times` holds the alerts' times of day as texts.
pub open spec fn with_alert_lines(text: Seq<char>, alerts: Seq<AlertView>, times: Seq<Seq<char>>)
    -> Seq<char>
    decreases alerts.len(),
{
    if alerts.len() == 0 || times.len() == 0 {
        text
    } else {
        with_alert_lines(text, alerts.drop_last(), times.drop_last()) + "\n"@ + alert_line_text(
            alerts.last(),
            times.last(),
        )
    }
}

/// The alerts that are listed: the first eight.
pub open spec fn listed_alerts(alerts: Seq<AlertView>) -> Seq<AlertView> {
    if alerts.len() > LISTED_ALERTS {
        alerts.take(LISTED_ALERTS as int)
    } else {
        alerts
    }
}

/// The list of recent alerts, or that there is none.
pub open spec fn recent_alerts_text(alerts: Seq<AlertView>, times: Seq<Seq<char>>) -> Seq<char> {
    if alerts.len() == 0 {
        "🟢 No recent alerts\n\nAll systems operating normally.\nHealth monitoring is active."@
    } else {
        with_alert_lines("⚠️  Recent Alerts:\n"@, listed_alerts(alerts), times)
    }
}

/// The line that names the device and its memory.
pub open spec fn gpu_information_text(gpu: GpuInfoView) -> Seq<char> {
    "🔥 "@
        + gpu.name
        + " • 🚗 Driver: "@
        + gpu.driver_version
        + " • 🎯 CUDA: "@
        + text_or(gpu.cuda_version, "N/A"@)
        + " • 🧠 Memory: "@
        + gibibytes(gpu.memory_used, 1)
        + "GB/"@
        + gibibytes(gpu.memory_total, 1)
        + "GB ("@
        + percent_text(gpu.memory_used as nat, gpu.memory_total as nat)
        + "%)"@
}

/// The label of a gauge of a share, given in thousandths of a percent.
pub open spec fn usage_label_text(usage: u32) -> Seq<char> {
    Seq::<char>::empty()
        + tenths(usage as int)
        + "%"@
}

/// The label of the gauge of memory in use.
pub open spec fn memory_label_text(used: u64, total: u64) -> Seq<char> {
    Seq::<char>::empty()
        + percent_text(used as nat, total as nat)
        + "%"@
}

/// The label of the gauge of temperature, given in thousandths of a degree.
pub open spec fn temperature_label_text(temperature: i32) -> Seq<char> {
    Seq::<char>::empty()
        + rounded(temperature as int)
        + "°C"@
}

/// The words on the health of the device in the status line.
pub open spec fn health_line_text(health: ReportView) -> Seq<char> {
    Seq::<char>::empty()
        + health.status.spec_emoji()
        + " Health: "@
        + health.status.spec_text()
        + " ("@
        + decimal(health.overall_score as nat)
        + "/100)"@
}

/// The status line: power, fan, clocks, health, the number of processes, and whether the device throttles.
pub open spec fn system_status_text(gpu: GpuInfoView, health: Option<ReportView>, processes: usize) -> Seq<char> {
    "⚡ Power: "@
        + rounded_or(gpu.power_draw, "N/A"@)
        + "W • 🌀 Fan: "@
        + rounded_or(gpu.fan_speed, "Auto"@)
        + "% • 🔧 GPU Clock: "@
        + number_or(gpu.gpu_clock, "N/A"@)
        + "MHz • 🧠 Mem Clock: "@
        + number_or(gpu.memory_clock, "N/A"@)
        + "MHz • "@
        + health_info_text(health)
        + " • 🎯 Processes: "@
        + decimal(processes as nat)
        + " • 🚦 Status: "@
        + (if gpu.throttled { "🔴 Throttled"@ } else { "🟢 Normal"@ })
}

/// The line of current readings; `time` is the time of day as text.
pub open spec fn realtime_metrics_text(gpu: GpuInfoView, time: Seq<char>) -> Seq<char> {
    "🕐 "@
        + time
        + " • ⚡ GPU: "@
        + tenths(gpu.utilization as int)
        + "% • 🧠 Memory: "@
        + percent_text(gpu.memory_used as nat, gpu.memory_total as nat)
        + "% ("@
        + gibibytes(gpu.memory_used, 1)
        + "GB/"@
        + gibibytes(gpu.memory_total, 1)
        + "GB) • 🌡️ Temp: "@
        + rounded(gpu.temperature as int)
        + "°C • ⚡ Power: "@
        + rounded_or(gpu.power_draw, "N/A"@)
        + "W • 🔧 GPU: "@
        + number_or(gpu.gpu_clock, "N/A"@)
        + "MHz • 🧠 Mem: "@
        + number_or(gpu.memory_clock, "N/A"@)
        + "MHz"@
}

/// The panel on power and clocks.
pub open spec fn power_and_clocks_text(gpu: GpuInfoView, processes: usize) -> Seq<char> {
    "⚡ POWER & CLOCKS\n\n🔥 Power Draw: "@
        + rounded_or(gpu.power_draw, "N/A"@)
        + "W\n🔧 GPU Clock: "@
        + number_or(gpu.gpu_clock, "N/A"@)
        + "MHz\n🧠 Memory Clock: "@
        + number_or(gpu.memory_clock, "N/A"@)
        + "MHz\n🌀 Fan Speed: "@
        + rounded_or(gpu.fan_speed, "Auto"@)
        + "%\n📊 Processes: "@
        + decimal(processes as nat)
        + "\n🚦 Status: "@
        + (if gpu.throttled { "🔴 Throttled"@ } else { "🟢 Normal"@ })
}

/// The page on the hardware.
pub open spec fn hardware_details_text(gpu: GpuInfoView) -> Seq<char> {
    "🖥️  GPU: "@
        + gpu.name
        + "\n🏭 Vendor: "@
        + gpu.vendor.spec_name()
        + "\n🚗 Driver Version: "@
        + gpu.driver_version
        + "\n🎯 CUDA Version: "@
        + text_or(gpu.cuda_version, "N/A"@)
        + "\n🧠 Memory Total: "@
        + gibibytes(gpu.memory_total, 2)
        + " GB\n📊 Memory Used: "@
        + gibibytes(gpu.memory_used, 2)
        + " GB\n💿 Memory Free: "@
        + gibibytes(memory_free(gpu.memory_total, gpu.memory_used), 2)
        + " GB\n🌡️  Temperature: "@
        + rounded(gpu.temperature as int)
        + "°C\n🌀 Fan Speed: "@
        + rounded_or(gpu.fan_speed, "Auto"@)
        + "%\n⚡ Power Draw: "@
        + rounded_or(gpu.power_draw, "N/A"@)
        + "W\n🔥 GPU Clock: "@
        + number_or(gpu.gpu_clock, "N/A"@)
        + "MHz\n🧠 Memory Clock: "@
        + number_or(gpu.memory_clock, "N/A"@)
        + "MHz\n🚦 Throttled: "@
        + (if gpu.throttled { "🔴 Yes"@ } else { "🟢 No"@ })
}

/// The panel on the health of the device as a whole.
pub open spec fn overall_health_text(health: ReportView) -> Seq<char> {
    Seq::<char>::empty()
        + health.status.spec_emoji()
        + "\n\n"@
        + health.status.spec_emoji()
        + " "@
        + health.status.spec_text()
        + "\n"@
        + decimal(health.overall_score as nat)
        + "/100\n\nUptime: "@
        + ratio_text(health.uptime_minutes as nat, 60, 1)
        + "h"@
}

/// The panel on temperature.
pub open spec fn temperature_health_text(health: ReportView) -> Seq<char> {
    "🌡️ Temperature\n\n"@
        + temperature_state_of(health.temperature).spec_mark()
        + " "@
        + temperature_state_of(health.temperature).spec_label()
        + "\n"@
        + rounded(health.temperature.current as int)
        + "°C\n\nTrend: "@
        + plus_signed_ratio_text(health.temperature.trend_5min as int, 1000, 1)
        + "°C/5min\nPeak: "@
        + rounded(health.temperature.peak_today as int)
        + "°C"@
}

/// The panel on power.
pub open spec fn power_health_text(health: ReportView) -> Seq<char> {
    "⚡ Power\n\nCurrent: "@
        + rounded(health.power.current_draw as int)
        + "W\nEfficiency: "@
        + ratio_text(health.power.efficiency as nat, 1000, 1)
        + "\nAvg 1hr: "@
        + rounded(health.power.avg_draw_1hr as int)
        + "W\n\nSpikes: "@
        + decimal(health.power.power_spikes as nat)
}

/// The panel on memory.
pub open spec fn memory_health_text(health: ReportView) -> Seq<char> {
    "🧠 Memory\n\n"@
        + leak_state_of(health.memory.leak_suspicion as int).spec_mark()
        + " "@
        + leak_state_of(health.memory.leak_suspicion as int).spec_label()
        + "\nTrend: "@
        + trend_text(health.memory.usage_trend, 0)
        + "MB/min\n\nFragmentation: "@
        + ratio_text(health.memory.fragmentation_score as nat, 10, 0)
        + "%\nPeak: "@
        + gibibytes(health.memory.peak_usage_today, 1)
        + "GB"@
}

/// The line of an alert in the list of recent alerts; `time` is its time of day as text.
pub open spec fn alert_line_text(alert: AlertView, time: Seq<char>) -> Seq<char> {
    Seq::<char>::empty()
        + alert.alert_type.spec_emoji()
        + " ["@
        + time
        + "] "@
        + alert.message
}

/// The panel of detailed metrics.
pub open spec fn detailed_metrics_text(health: ReportView) -> Seq<char> {
    "📊 DETAILED METRICS\n\n🌡️ TEMPERATURE:\n• Current: "@
        + tenths(health.temperature.current as int)
        + "°C\n• Safe Limit: "@
        + tenths(health.temperature.max_safe as int)
        + "°C\n• Critical: "@
        + tenths(health.temperature.critical as int)
        + "°C\n• Time >80°C: "@
        + decimal((health.temperature.time_above_80c / 60) as nat)
        + "min\n\n⚡ POWER & PERFORMANCE:\n• Current Draw: "@
        + rounded(health.power.current_draw as int)
        + "W\n• Efficiency: "@
        + ratio_text(health.power.efficiency as nat, 1000, 2)
        + " util/W\n• Power Spikes: "@
        + decimal(health.power.power_spikes as nat)
        + "\n\n🧠 MEMORY HEALTH:\n• Usage Trend: "@
        + trend_text(health.memory.usage_trend, 0)
        + " MB/min\n• Fragmentation: "@
        + ratio_text(health.memory.fragmentation_score as nat, 10, 1)
        + "%\n• Leak Risk: "@
        + ratio_text(health.memory.leak_suspicion as nat, 10, 0)
        + "%\n\n🚦 SYSTEM STATUS:\n• Throttling: "@
        + (if health.thermal_throttling_detected { "🔴 Yes"@ } else { "🟢 No"@ })
        + "\n• Monitoring: "@
        + ratio_text(health.uptime_minutes as nat, 60, 1)
        + "h"@
}

/// The page of settings.
pub open spec fn settings_text_text(settings: AppSettings) -> Seq<char> {
    "⚙️  GPUTop Settings Configuration\n\n📊 HEALTH THRESHOLDS:\nTemperature Warning:     "@
        + tenths(settings.health_thresholds.temperature_warning as int)
        + "°C\nTemperature Critical:    "@
        + tenths(settings.health_thresholds.temperature_critical as int)
        + "°C\nPower Warning:           "@
        + tenths(settings.health_thresholds.power_warning as int)
        + "%\nPower Critical:          "@
        + tenths(settings.health_thresholds.power_critical as int)
        + "%\nMemory Warning:          "@
        + tenths(settings.health_thresholds.memory_usage_warning as int)
        + "%\nMemory Critical:         "@
        + tenths(settings.health_thresholds.memory_usage_critical as int)
        + "%\nLow Utilization:         "@
        + tenths(settings.health_thresholds.utilization_low as int)
        + "%\nHigh Utilization:        "@
        + tenths(settings.health_thresholds.utilization_high as int)
        + "%\n\n🔔 NOTIFICATIONS:\nEnabled:                 "@
        + yes_no(settings.notification_settings.enabled)
        + "\nMin Interval:            "@
        + decimal(settings.notification_settings.min_interval_seconds as nat)
        + "s\nExport Notifications:    "@
        + yes_no(settings.notification_settings.show_export_notifications)
        + "\nProcess Notifications:   "@
        + yes_no(settings.notification_settings.show_process_notifications)
        + "\n\n⏱️  PERFORMANCE:\nUpdate Interval:         "@
        + decimal(settings.update_interval_ms as nat)
        + "ms\nMax History Points:      "@
        + decimal(settings.max_history_points as nat)
        + "\n\n💾 ACTIONS:\ns = Save Settings    r = Reset to Defaults    Esc = Close\n\nSettings file: ~/.config/gputop/settings.json"@
}

/// The line of the command palette.
pub open spec fn command_line_text(input: Seq<char>) -> Seq<char> {
    "❯ "@
        + input
}

/// The page on one process; `memory_total` is the memory of the device shown, where a device is shown.
pub open spec fn process_details_text(process: GpuProcessView, memory_total: Option<u64>) -> Seq<char> {
    "📋 PROCESS DETAILS\n\n🔧 Command: "@
        + process.command
        + "\n🆔 PID: "@
        + decimal(process.pid as nat)
        + "\n👤 User: "@
        + process.user
        + "\n"@
        + container_info_text(process)
        + "\n"@
        + parent_info_text(process)
        + "\n\n📊 RESOURCE USAGE:\n⚡ GPU Usage: "@
        + tenths(process.gpu_usage as int)
        + "%\n🧠 Memory Usage: "@
        + memory_share_text(process.memory_usage, memory_total)
        + "% ("@
        + ratio_text((process.memory_usage / MIB) as nat, 1024, 1)
        + " GB / "@
        + decimal((process.memory_usage / MIB) as nat)
        + " MB)\n🎥 Encoder Usage: "@
        + tenths(process.encoder_usage as int)
        + "%\n📺 Decoder Usage: "@
        + tenths(process.decoder_usage as int)
        + "%\n\n🔧 TECHNICAL INFO:\n🎯 Priority: "@
        + signed_decimal(process.priority as int)
        + "\n📈 Context ID: "@
        + number_or(process.context_id, "N/A"@)
        + "\n\nPress ESC or Enter to close"@
}

impl Screen {
    /// The words on health in the status line.
    pub fn health_info(health: Option<&GpuHealthMetrics>) -> (text: String)
        ensures
            text@ == health_info_text(report_view(health)),
    {
        match health {
            Some(h) => Self::health_line(h),
            None => String::from_str("⚪ Health: Initializing"),
        }
    }

    /// Whether a process runs in a container, and in which.
    pub fn container_info(process: &GpuProcess) -> (text: String)
        ensures
            text@ == container_info_text(process@),
    {
        match &process.container_id {
            Some(c) => {
                let mut text = String::from_str("🐳 Container: ");
                text.append(c.as_str());
                text
            },
            None => String::from_str("📦 Native Process"),
        }
    }

    /// The parent of a process, or that it has none.
    pub fn parent_info(process: &GpuProcess) -> (text: String)
        ensures
            text@ == parent_info_text(process@),
    {
        match process.parent_pid {
            Some(p) => {
                let mut text = String::from_str("👨‍👩‍👧‍👦 Parent PID: ");
                push_decimal(&mut text, p as u128);
                text
            },
            None => String::from_str("🌱 Root Process"),
        }
    }

    fn push_memory_share(text: &mut String, used: u64, memory_total: Option<u64>)
        ensures
            final(text)@ == old(text)@ + memory_share_text(used, memory_total),
    {
        match memory_total {
            Some(total) => push_percent(text, used, total),
            None => text.append("0.0"),
        }
    }

    /// How the row at a place of the table is set off.
    pub fn row_style(index: usize, selected: Option<usize>) -> (style: RowStyle)
        ensures
            style == row_style_of(index, selected),
    {
        let is_selected = match selected {
            Some(s) => s == index,
            None => false,
        };
        if is_selected {
            RowStyle::Selected
        } else if index % 2 == 0 {
            RowStyle::Shaded
        } else {
            RowStyle::Plain
        }
    }

    /// The eight cells of the row of a process; `memory_total` is the
    /// memory of the device shown, where a device is shown.
    pub fn process_row(process: &GpuProcess, memory_total: Option<u64>) -> (cells: Vec<String>)
        ensures
            texts(cells@) == process_row_text(process@, memory_total),
    {
        let mut pid = String::new();
        push_decimal(&mut pid, process.pid as u128);
        let mut usage = String::from_str(get_usage_mark(process.gpu_usage));
        usage.append(" ");
        push_tenths(&mut usage, process.gpu_usage as i64);
        usage.append("%");
        let mut share = String::new();
        Self::push_memory_share(&mut share, process.memory_usage, memory_total);
        share.append("%");
        let mut memory = String::new();
        push_decimal(&mut memory, (process.memory_usage / MIB) as u128);
        memory.append("MB");
        let mut encoder = String::new();
        push_tenths(&mut encoder, process.encoder_usage as i64);
        encoder.append("%");
        let mut decoder = String::new();
        push_tenths(&mut decoder, process.decoder_usage as i64);
        decoder.append("%");
        let mut command = String::new();
        if process.container_id.is_some() {
            command.append("🐳 ");
        }
        command.append(process.command.as_str());
        let mut cells: Vec<String> = Vec::new();
        cells.push(pid);
        cells.push(process.user.clone());
        cells.push(usage);
        cells.push(share);
        cells.push(memory);
        cells.push(encoder);
        cells.push(decoder);
        cells.push(command);
        assert(texts(cells@) =~= process_row_text(process@, memory_total));
        cells
    }

    /// An instant as the local time of day, as in `23:59:59`; dashes where
    /// the calendar does not reach it. The text depends on the machine's
    /// time zone, but for an instant beyond every calendar.
    pub fn time_of_day(timestamp: i64) -> (text: String)
        ensures
            beyond_calendar(timestamp) ==> text@ == "--:--:--"@,
    {
        Self::time_of_day_or(local_time_format(timestamp, "%H:%M:%S"))
    }

    /// The time of day that the calendar gave, or dashes where it gave none.
    pub fn time_of_day_or(formatted: Option<String>) -> (text: String)
        ensures
            text@ == match formatted {
                Some(time) => time@,
                None => "--:--:--"@,
            },
    {
        match formatted {
            Some(time) => time,
            None => String::from_str("--:--:--"),
        }
    }

    /// The present local time of day.
    pub fn time_of_day_now() -> (text: String) {
        Self::time_of_day(wall_clock_millis())
    }

    /// The list of recent alerts, the first eight of those given, or the
    /// words that there is none. Each line gives the alert's time of day as
    /// the local calendar has it; the rest does not depend on the calendar.
    pub fn recent_alerts(alerts: &[HealthAlert]) -> (text: String)
        ensures
            exists|times: Seq<Seq<char>>|
                times.len() == listed_alerts(alert_views(alerts@)).len() && text@
                    == #[trigger] recent_alerts_text(alert_views(alerts@), times),
    {
        if alerts.len() == 0 {
            let text = String::from_str(
                "🟢 No recent alerts\n\nAll systems operating normally.\nHealth monitoring is active.",
            );
            assert(text@ == recent_alerts_text(alert_views(alerts@), Seq::empty()));
            return text;
        }
        let mut text = String::from_str("⚠️  Recent Alerts:\n");
        let ghost views = listed_alerts(alert_views(alerts@));
        let ghost mut times: Seq<Seq<char>> = Seq::empty();
        let shown: usize = if alerts.len() > LISTED_ALERTS {
            LISTED_ALERTS
        } else {
            alerts.len()
        };
        let mut i: usize = 0;
        assert(views.take(0) =~= Seq::<AlertView>::empty());
        while i < shown
            invariant
                i <= shown <= alerts@.len(),
                shown == views.len(),
                views == listed_alerts(alert_views(alerts@)),
                times.len() == i,
                text@ == with_alert_lines("⚠️  Recent Alerts:\n"@, views.take(i as int), times),
            decreases shown - i,
        {
            let alert = &alerts[i];
            let time = Self::time_of_day(alert.timestamp);
            let ghost before = times;
            proof {
                times = times.push(time@);
            }
            assert(times.drop_last() =~= before);
            assert(views.take(i + 1).drop_last() =~= views.take(i as int));
            assert(views.take(i + 1).last() == alert@);
            text.append("\n");
            text.append(Self::alert_line(alert, time.as_str()).as_str());
            i += 1;
        }
        assert(views.take(shown as int) =~= views);
        assert(text@ == recent_alerts_text(alert_views(alerts@), times));
        text
    }

    /// The line that names the device and its memory.
    pub fn gpu_information(gpu: &GpuInfo) -> (text: String)
        ensures
            text@ == gpu_information_text(gpu@),
    {
        let mut text = String::from_str("🔥 ");
        text.append(gpu.name.as_str());
        text.append(" • 🚗 Driver: ");
        text.append(gpu.driver_version.as_str());
        text.append(" • 🎯 CUDA: ");
        push_text_or(&mut text, &gpu.cuda_version, "N/A");
        text.append(" • 🧠 Memory: ");
        push_gibibytes(&mut text, gpu.memory_used, 1);
        text.append("GB/");
        push_gibibytes(&mut text, gpu.memory_total, 1);
        text.append("GB (");
        push_percent(&mut text, gpu.memory_used, gpu.memory_total);
        text.append("%)");
        text
    }

    /// The label of a gauge of a share, given in thousandths of a percent.
    pub fn usage_label(usage: u32) -> (text: String)
        ensures
            text@ == usage_label_text(usage),
    {
        let mut text = String::new();
        push_tenths(&mut text, usage as i64);
        text.append("%");
        text
    }

    /// The label of the gauge of memory in use.
    pub fn memory_label(used: u64, total: u64) -> (text: String)
        ensures
            text@ == memory_label_text(used, total),
    {
        let mut text = String::new();
        push_percent(&mut text, used, total);
        text.append("%");
        text
    }

    /// The label of the gauge of temperature, given in thousandths of a degree.
    pub fn temperature_label(temperature: i32) -> (text: String)
        ensures
            text@ == temperature_label_text(temperature),
    {
        let mut text = String::new();
        push_rounded(&mut text, temperature as i64);
        text.append("°C");
        text
    }

    /// The words on the health of the device in the status line.
    pub fn health_line(health: &GpuHealthMetrics) -> (text: String)
        ensures
            text@ == health_line_text(health@),
    {
        let mut text = String::new();
        text.append(health.status.emoji());
        text.append(" Health: ");
        text.append(health.status.text());
        text.append(" (");
        push_decimal(&mut text, health.overall_score as u128);
        text.append("/100)");
        text
    }

    /// The status line: power, fan, clocks, health, the number of processes, and whether the device throttles.
    pub fn system_status(gpu: &GpuInfo, health: Option<&GpuHealthMetrics>, processes: usize) -> (text: String)
        ensures
            text@ == system_status_text(gpu@, report_view(health), processes),
    {
        let mut text = String::from_str("⚡ Power: ");
        push_rounded_or(&mut text, gpu.power_draw, "N/A");
        text.append("W • 🌀 Fan: ");
        push_rounded_or(&mut text, gpu.fan_speed, "Auto");
        text.append("% • 🔧 GPU Clock: ");
        push_number_or(&mut text, gpu.gpu_clock, "N/A");
        text.append("MHz • 🧠 Mem Clock: ");
        push_number_or(&mut text, gpu.memory_clock, "N/A");
        text.append("MHz • ");
        text.append(Self::health_info(health).as_str());
        text.append(" • 🎯 Processes: ");
        push_decimal(&mut text, processes as u128);
        text.append(" • 🚦 Status: ");
        text.append(if gpu.throttled { "🔴 Throttled" } else { "🟢 Normal" });
        text
    }

    /// The line of current readings; `time` is the time of day as text.
    pub fn realtime_metrics(gpu: &GpuInfo, time: &str) -> (text: String)
        ensures
            text@ == realtime_metrics_text(gpu@, time@),
    {
        let mut text = String::from_str("🕐 ");
        text.append(time);
        text.append(" • ⚡ GPU: ");
        push_tenths(&mut text, gpu.utilization as i64);
        text.append("% • 🧠 Memory: ");
        push_percent(&mut text, gpu.memory_used, gpu.memory_total);
        text.append("% (");
        push_gibibytes(&mut text, gpu.memory_used, 1);
        text.append("GB/");
        push_gibibytes(&mut text, gpu.memory_total, 1);
        text.append("GB) • 🌡️ Temp: ");
        push_rounded(&mut text, gpu.temperature as i64);
        text.append("°C • ⚡ Power: ");
        push_rounded_or(&mut text, gpu.power_draw, "N/A");
        text.append("W • 🔧 GPU: ");
        push_number_or(&mut text, gpu.gpu_clock, "N/A");
        text.append("MHz • 🧠 Mem: ");
        push_number_or(&mut text, gpu.memory_clock, "N/A");
        text.append("MHz");
        text
    }

    /// The panel on power and clocks.
    pub fn power_and_clocks(gpu: &GpuInfo, processes: usize) -> (text: String)
        ensures
            text@ == power_and_clocks_text(gpu@, processes),
    {
        let mut text = String::from_str("⚡ POWER & CLOCKS\n\n🔥 Power Draw: ");
        push_rounded_or(&mut text, gpu.power_draw, "N/A");
        text.append("W\n🔧 GPU Clock: ");
        push_number_or(&mut text, gpu.gpu_clock, "N/A");
        text.append("MHz\n🧠 Memory Clock: ");
        push_number_or(&mut text, gpu.memory_clock, "N/A");
        text.append("MHz\n🌀 Fan Speed: ");
        push_rounded_or(&mut text, gpu.fan_speed, "Auto");
        text.append("%\n📊 Processes: ");
        push_decimal(&mut text, processes as u128);
        text.append("\n🚦 Status: ");
        text.append(if gpu.throttled { "🔴 Throttled" } else { "🟢 Normal" });
        text
    }

    /// The page on the hardware.
    pub fn hardware_details(gpu: &GpuInfo) -> (text: String)
        ensures
            text@ == hardware_details_text(gpu@),
    {
        let free: u64 = if gpu.memory_total >= gpu.memory_used {
            gpu.memory_total - gpu.memory_used
        } else {
            0
        };
        let mut text = String::from_str("🖥️  GPU: ");
        text.append(gpu.name.as_str());
        text.append("\n🏭 Vendor: ");
        text.append(gpu.vendor.name());
        text.append("\n🚗 Driver Version: ");
        text.append(gpu.driver_version.as_str());
        text.append("\n🎯 CUDA Version: ");
        push_text_or(&mut text, &gpu.cuda_version, "N/A");
        text.append("\n🧠 Memory Total: ");
        push_gibibytes(&mut text, gpu.memory_total, 2);
        text.append(" GB\n📊 Memory Used: ");
        push_gibibytes(&mut text, gpu.memory_used, 2);
        text.append(" GB\n💿 Memory Free: ");
        push_gibibytes(&mut text, free, 2);
        text.append(" GB\n🌡️  Temperature: ");
        push_rounded(&mut text, gpu.temperature as i64);
        text.append("°C\n🌀 Fan Speed: ");
        push_rounded_or(&mut text, gpu.fan_speed, "Auto");
        text.append("%\n⚡ Power Draw: ");
        push_rounded_or(&mut text, gpu.power_draw, "N/A");
        text.append("W\n🔥 GPU Clock: ");
        push_number_or(&mut text, gpu.gpu_clock, "N/A");
        text.append("MHz\n🧠 Memory Clock: ");
        push_number_or(&mut text, gpu.memory_clock, "N/A");
        text.append("MHz\n🚦 Throttled: ");
        text.append(if gpu.throttled { "🔴 Yes" } else { "🟢 No" });
        text
    }

    /// The panel on the health of the device as a whole.
    pub fn overall_health(health: &GpuHealthMetrics) -> (text: String)
        ensures
            text@ == overall_health_text(health@),
    {
        let mut text = String::new();
        text.append(health.status.emoji());
        text.append("\n\n");
        text.append(health.status.emoji());
        text.append(" ");
        text.append(health.status.text());
        text.append("\n");
        push_decimal(&mut text, health.overall_score as u128);
        text.append("/100\n\nUptime: ");
        push_ratio(&mut text, health.uptime_minutes as u128, 60, 1);
        text.append("h");
        text
    }

    /// The panel on temperature.
    pub fn temperature_health(health: &GpuHealthMetrics) -> (text: String)
        ensures
            text@ == temperature_health_text(health@),
    {
        let mut text = String::from_str("🌡️ Temperature\n\n");
        text.append(TemperatureState::of(&health.temperature).mark());
        text.append(" ");
        text.append(TemperatureState::of(&health.temperature).label());
        text.append("\n");
        push_rounded(&mut text, health.temperature.current as i64);
        text.append("°C\n\nTrend: ");
        push_plus_signed_ratio(&mut text, health.temperature.trend_5min as i128, 1000, 1);
        text.append("°C/5min\nPeak: ");
        push_rounded(&mut text, health.temperature.peak_today as i64);
        text.append("°C");
        text
    }

    /// The panel on power.
    pub fn power_health(health: &GpuHealthMetrics) -> (text: String)
        ensures
            text@ == power_health_text(health@),
    {
        let mut text = String::from_str("⚡ Power\n\nCurrent: ");
        push_rounded(&mut text, health.power.current_draw as i64);
        text.append("W\nEfficiency: ");
        push_ratio(&mut text, health.power.efficiency as u128, 1000, 1);
        text.append("\nAvg 1hr: ");
        push_rounded(&mut text, health.power.avg_draw_1hr as i64);
        text.append("W\n\nSpikes: ");
        push_decimal(&mut text, health.power.power_spikes as u128);
        text
    }

    /// The panel on memory.
    pub fn memory_health(health: &GpuHealthMetrics) -> (text: String)
        ensures
            text@ == memory_health_text(health@),
    {
        let mut text = String::from_str("🧠 Memory\n\n");
        text.append(LeakState::of(health.memory.leak_suspicion).mark());
        text.append(" ");
        text.append(LeakState::of(health.memory.leak_suspicion).label());
        text.append("\nTrend: ");
        push_trend(&mut text, health.memory.usage_trend, 0);
        text.append("MB/min\n\nFragmentation: ");
        push_ratio(&mut text, health.memory.fragmentation_score as u128, 10, 0);
        text.append("%\nPeak: ");
        push_gibibytes(&mut text, health.memory.peak_usage_today, 1);
        text.append("GB");
        text
    }

    /// The line of an alert in the list of recent alerts; `time` is its time of day as text.
    pub fn alert_line(alert: &HealthAlert, time: &str) -> (text: String)
        ensures
            text@ == alert_line_text(alert@, time@),
    {
        let mut text = String::new();
        text.append(alert.alert_type.emoji());
        text.append(" [");
        text.append(time);
        text.append("] ");
        text.append(alert.message.as_str());
        text
    }

    /// The panel of detailed metrics.
    pub fn detailed_metrics(health: &GpuHealthMetrics) -> (text: String)
        ensures
            text@ == detailed_metrics_text(health@),
    {
        let mut text = String::from_str("📊 DETAILED METRICS\n\n🌡️ TEMPERATURE:\n• Current: ");
        push_tenths(&mut text, health.temperature.current as i64);
        text.append("°C\n• Safe Limit: ");
        push_tenths(&mut text, health.temperature.max_safe as i64);
        text.append("°C\n• Critical: ");
        push_tenths(&mut text, health.temperature.critical as i64);
        text.append("°C\n• Time >80°C: ");
        push_decimal(&mut text, (health.temperature.time_above_80c / 60) as u128);
        text.append("min\n\n⚡ POWER & PERFORMANCE:\n• Current Draw: ");
        push_rounded(&mut text, health.power.current_draw as i64);
        text.append("W\n• Efficiency: ");
        push_ratio(&mut text, health.power.efficiency as u128, 1000, 2);
        text.append(" util/W\n• Power Spikes: ");
        push_decimal(&mut text, health.power.power_spikes as u128);
        text.append("\n\n🧠 MEMORY HEALTH:\n• Usage Trend: ");
        push_trend(&mut text, health.memory.usage_trend, 0);
        text.append(" MB/min\n• Fragmentation: ");
        push_ratio(&mut text, health.memory.fragmentation_score as u128, 10, 1);
        text.append("%\n• Leak Risk: ");
        push_ratio(&mut text, health.memory.leak_suspicion as u128, 10, 0);
        text.append("%\n\n🚦 SYSTEM STATUS:\n• Throttling: ");
        text.append(if health.thermal_throttling_detected { "🔴 Yes" } else { "🟢 No" });
        text.append("\n• Monitoring: ");
        push_ratio(&mut text, health.uptime_minutes as u128, 60, 1);
        text.append("h");
        text
    }

    /// The page of settings.
    pub fn settings_text(settings: &AppSettings) -> (text: String)
        ensures
            text@ == settings_text_text(*settings),
    {
        let mut text = String::from_str("⚙️  GPUTop Settings Configuration\n\n📊 HEALTH THRESHOLDS:\nTemperature Warning:     ");
        push_tenths(&mut text, settings.health_thresholds.temperature_warning as i64);
        text.append("°C\nTemperature Critical:    ");
        push_tenths(&mut text, settings.health_thresholds.temperature_critical as i64);
        text.append("°C\nPower Warning:           ");
        push_tenths(&mut text, settings.health_thresholds.power_warning as i64);
        text.append("%\nPower Critical:          ");
        push_tenths(&mut text, settings.health_thresholds.power_critical as i64);
        text.append("%\nMemory Warning:          ");
        push_tenths(&mut text, settings.health_thresholds.memory_usage_warning as i64);
        text.append("%\nMemory Critical:         ");
        push_tenths(&mut text, settings.health_thresholds.memory_usage_critical as i64);
        text.append("%\nLow Utilization:         ");
        push_tenths(&mut text, settings.health_thresholds.utilization_low as i64);
        text.append("%\nHigh Utilization:        ");
        push_tenths(&mut text, settings.health_thresholds.utilization_high as i64);
        text.append("%\n\n🔔 NOTIFICATIONS:\nEnabled:                 ");
        push_yes_no(&mut text, settings.notification_settings.enabled);
        text.append("\nMin Interval:            ");
        push_decimal(&mut text, settings.notification_settings.min_interval_seconds as u128);
        text.append("s\nExport Notifications:    ");
        push_yes_no(&mut text, settings.notification_settings.show_export_notifications);
        text.append("\nProcess Notifications:   ");
        push_yes_no(&mut text, settings.notification_settings.show_process_notifications);
        text.append("\n\n⏱️  PERFORMANCE:\nUpdate Interval:         ");
        push_decimal(&mut text, settings.update_interval_ms as u128);
        text.append("ms\nMax History Points:      ");
        push_decimal(&mut text, settings.max_history_points as u128);
        text.append("\n\n💾 ACTIONS:\ns = Save Settings    r = Reset to Defaults    Esc = Close\n\nSettings file: ~/.config/gputop/settings.json");
        text
    }

    /// The line of the command palette.
    pub fn command_line(input: &str) -> (text: String)
        ensures
            text@ == command_line_text(input@),
    {
        let mut text = String::from_str("❯ ");
        text.append(input);
        text
    }

    /// The page on one process; `memory_total` is the memory of the device shown, where a device is shown.
    pub fn process_details(process: &GpuProcess, memory_total: Option<u64>) -> (text: String)
        ensures
            text@ == process_details_text(process@, memory_total),
    {
        let mut text = String::from_str("📋 PROCESS DETAILS\n\n🔧 Command: ");
        text.append(process.command.as_str());
        text.append("\n🆔 PID: ");
        push_decimal(&mut text, process.pid as u128);
        text.append("\n👤 User: ");
        text.append(process.user.as_str());
        text.append("\n");
        text.append(Self::container_info(process).as_str());
        text.append("\n");
        text.append(Self::parent_info(process).as_str());
        text.append("\n\n📊 RESOURCE USAGE:\n⚡ GPU Usage: ");
        push_tenths(&mut text, process.gpu_usage as i64);
        text.append("%\n🧠 Memory Usage: ");
        Self::push_memory_share(&mut text, process.memory_usage, memory_total);
        text.append("% (");
        push_ratio(&mut text, (process.memory_usage / MIB) as u128, 1024, 1);
        text.append(" GB / ");
        push_decimal(&mut text, (process.memory_usage / MIB) as u128);
        text.append(" MB)\n🎥 Encoder Usage: ");
        push_tenths(&mut text, process.encoder_usage as i64);
        text.append("%\n📺 Decoder Usage: ");
        push_tenths(&mut text, process.decoder_usage as i64);
        text.append("%\n\n🔧 TECHNICAL INFO:\n🎯 Priority: ");
        push_signed_decimal(&mut text, process.priority as i64);
        text.append("\n📈 Context ID: ");
        push_number_or(&mut text, process.context_id, "N/A");
        text.append("\n\nPress ESC or Enter to close");
        text
    }
}

} // verus!
