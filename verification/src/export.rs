//! Export of the current state as comma-separated text.

use crate::clock::{beyond_calendar, local_time_format, wall_clock_millis};
use crate::decimal::{
    decimal, plus_signed_ratio_text, push_decimal, push_plus_signed_ratio, push_ratio,
    push_signed_decimal, ratio_text, signed_decimal,
};
use crate::fields::{
    number_or, percent_text, push_number_or, push_percent, push_rounded, push_tenths,
    push_text_or, push_yes_no, rounded, tenths, text_or, written_trend, yes_no, GIB,
};
use crate::gpu::{GpuInfo, GpuInfoView};
use crate::health::{alert_views, AlertView, GpuHealthMetrics, HealthAlert, ReportView, MIB};
use crate::process::{process_views, GpuProcess, GpuProcessView};
use vstd::prelude::*;
use vstd::string::StringExecFns;

verus! {

/// Writes tables of comma-separated values.
pub struct CsvExporter;

/// Whether a field must be quoted: it holds a comma, a quote or a line feed.
pub open spec fn needs_quotes(value: Seq<char>) -> bool {
    exists|i: int| 0 <= i < value.len() && is_special(#[trigger] value[i])
}

pub open spec fn is_special(c: char) -> bool {
    c == ',' || c == '"' || c == '\n'
}

/// The field with every quote doubled.
pub open spec fn quotes_doubled(value: Seq<char>) -> Seq<char>
    decreases value.len(),
{
    if value.len() == 0 {
        Seq::<char>::empty()
    } else if value.last() == '"' {
        quotes_doubled(value.drop_last()).push('"').push('"')
    } else {
        quotes_doubled(value.drop_last()).push(value.last())
    }
}

/// The field as it stands in a table: quoted, with its quotes doubled,
/// where it needs quotes; unchanged where it does not.
pub open spec fn csv_escaped(value: Seq<char>) -> Seq<char> {
    if needs_quotes(value) {
        seq!['"'] + quotes_doubled(value).push('"')
    } else {
        value
    }
}

impl CsvExporter {
    /// Makes a field safe to stand between commas.
    pub fn escape_csv(value: &str) -> (field: String)
        ensures
            field@ == csv_escaped(value@),
    {
        let mut special = false;
        let mut doubled = String::from_str("\"");
        proof {
            reveal_strlit("\"");
            assert(doubled@ =~= seq!['"'] + quotes_doubled(value@.take(0)));
        }
        for c in it: value.chars()
            invariant
                it.seq() == value@,
                special == needs_quotes(value@.take(it.index() as int)),
                doubled@ == seq!['"'] + quotes_doubled(value@.take(it.index() as int)),
        {
            let ghost i = it.index() as int;
            assert(value@.take(i + 1).drop_last() =~= value@.take(i));
            assert(value@.take(i + 1).last() == c);
            if c == ',' || c == '"' || c == '\n' {
                special = true;
            }
            if c == '"' {
                doubled.push('"');
            }
            doubled.push(c);
        }
        assert(value@.take(value@.len() as int) =~= value@);
        if special {
            doubled.push('"');
            doubled
        } else {
            String::from_str(value)
        }
    }
}

/// `text` followed by the lines for the readings that a device may lack.
pub open spec fn with_gpu_optional_lines(text: Seq<char>, gpu: GpuInfoView) -> Seq<char> {
    let with_power = match gpu.power_draw {
        Some(p) => text + "Power Draw,"@ + tenths(p as int) + "W\n"@,
        None => text,
    };
    let with_clock = match gpu.gpu_clock {
        Some(c) => with_power + "GPU Clock,"@ + decimal(c as nat) + " MHz\n"@,
        None => with_power,
    };
    let with_memory_clock = match gpu.memory_clock {
        Some(c) => with_clock + "Memory Clock,"@ + decimal(c as nat) + " MHz\n"@,
        None => with_clock,
    };
    match gpu.fan_speed {
        Some(f) => with_memory_clock + "Fan Speed,"@ + rounded(f as int) + "%\n"@,
        None => with_memory_clock,
    }
}

/// `text` followed by the section of a snapshot that describes the device.
pub open spec fn with_gpu_section(text: Seq<char>, gpu: GpuInfoView) -> Seq<char> {
    with_gpu_optional_lines(
        text + "=== GPU INFORMATION ===\n"@ + "Name,"@ + gpu.name + "\n"@ + "Driver Version,"@
            + gpu.driver_version + "\n"@ + "CUDA Version,"@ + text_or(gpu.cuda_version, "N/A"@)
            + "\n"@ + "Utilization,%"@ + tenths(gpu.utilization as int) + "\n"@ + "Memory Used,"@
            + decimal((gpu.memory_used / MIB) as nat) + " MB\n"@ + "Memory Total,"@ + decimal(
            (gpu.memory_total / MIB) as nat,
        ) + " MB\n"@ + "Memory Usage,"@ + percent_text(
            gpu.memory_used as nat,
            gpu.memory_total as nat,
        ) + "%\n"@ + "Temperature,"@ + tenths(gpu.temperature as int) + "°C\n"@,
        gpu,
    ) + "Throttled,"@ + yes_no(gpu.throttled) + "\n"@ + "\n"@
}

/// `text` followed by the part of the health section on the report as a
/// whole.
pub open spec fn with_health_summary(text: Seq<char>, health: ReportView) -> Seq<char> {
    text + "=== HEALTH METRICS ===\n"@ + "Overall Health Score,"@ + ratio_text(
        health.overall_score as nat,
        1,
        1,
    ) + "/100\n"@ + "Health Status,"@ + health.status.spec_text() + "\n"@ + "Uptime,"@
        + ratio_text(health.uptime_minutes as nat, 60, 1) + " hours\n"@ + "Thermal Throttling,"@
        + yes_no(health.thermal_throttling_detected) + "\n"@ + "\n"@
}

/// `text` followed by the part of the health section on temperature.
pub open spec fn with_temperature_summary(text: Seq<char>, health: ReportView) -> Seq<char> {
    text + "=== TEMPERATURE HEALTH ===\n"@ + "Current Temperature,"@ + tenths(
        health.temperature.current as int,
    ) + "°C\n"@ + "Temperature Trend (5min),"@ + plus_signed_ratio_text(
        health.temperature.trend_5min as int,
        1000,
        1,
    ) + "°C\n"@ + "Time Above 80°C,"@ + decimal((health.temperature.time_above_80c / 60) as nat)
        + " minutes\n"@ + "Peak Temperature Today,"@ + tenths(health.temperature.peak_today as int)
        + "°C\n"@ + "\n"@
}

/// `text` followed by the part of the health section on power.
pub open spec fn with_power_summary(text: Seq<char>, health: ReportView) -> Seq<char> {
    text + "=== POWER HEALTH ===\n"@ + "Current Power Draw,"@ + tenths(
        health.power.current_draw as int,
    ) + "W\n"@ + "Power Efficiency,"@ + ratio_text(health.power.efficiency as nat, 1000, 2)
        + " util/W\n"@ + "Power Spikes Count,"@ + decimal(health.power.power_spikes as nat) + "\n"@
        + "Average Power (1hr),"@ + tenths(health.power.avg_draw_1hr as int) + "W\n"@ + "\n"@
}

/// `text` followed by the part of the health section on memory.
pub open spec fn with_memory_summary(text: Seq<char>, health: ReportView) -> Seq<char> {
    text + "=== MEMORY HEALTH ===\n"@ + "Memory Usage Trend,"@ + plus_signed_ratio_text(
        written_trend(health.memory.usage_trend),
        MIB as nat,
        1,
    ) + " MB/min\n"@ + "Memory Fragmentation,"@ + ratio_text(
        health.memory.fragmentation_score as nat,
        10,
        1,
    ) + "%\n"@ + "Memory Leak Risk,"@ + ratio_text(health.memory.leak_suspicion as nat, 10, 1)
        + "%\n"@ + "Peak Memory Usage Today,"@ + ratio_text(
        health.memory.peak_usage_today as nat,
        GIB as nat,
        1,
    ) + " GB\n"@ + "\n"@
}

/// `text` followed by the section of a snapshot that describes the health
/// of the device.
pub open spec fn with_health_section(text: Seq<char>, health: ReportView) -> Seq<char> {
    with_memory_summary(
        with_power_summary(with_temperature_summary(with_health_summary(text, health), health), health),
        health,
    )
}

/// `text` followed by the row of a process in a snapshot.
pub open spec fn with_snapshot_row(text: Seq<char>, process: GpuProcessView) -> Seq<char> {
    text + decimal(process.pid as nat) + ","@ + csv_escaped(process.user) + ","@ + csv_escaped(
        process.command,
    ) + ","@ + tenths(process.gpu_usage as int) + ","@ + decimal(
        (process.memory_usage / MIB) as nat,
    ) + ","@ + tenths(process.encoder_usage as int) + ","@ + tenths(process.decoder_usage as int)
        + ","@ + signed_decimal(process.priority as int) + "\n"@
}

/// `text` followed by the rows of the processes, one after the other.
pub open spec fn with_snapshot_rows(text: Seq<char>, processes: Seq<GpuProcessView>) -> Seq<char>
    decreases processes.len(),
{
    if processes.len() == 0 {
        text
    } else {
        with_snapshot_row(with_snapshot_rows(text, processes.drop_last()), processes.last())
    }
}

/// `text` followed by the section of a snapshot that lists the processes.
pub open spec fn with_process_section(text: Seq<char>, processes: Seq<GpuProcessView>) -> Seq<
    char,
> {
    with_snapshot_rows(
        text + "=== PROCESS INFORMATION ===\n"@
            + "PID,User,Command,GPU%,Memory(MB),ENC%,DEC%,Priority\n"@,
        processes,
    )
}

/// A snapshot of the current state: a line that says when it was taken, an
/// empty line, the device, its health where it is known, and the
/// processes.
pub open spec fn snapshot_text(
    gpu: GpuInfoView,
    processes: Seq<GpuProcessView>,
    health: Option<ReportView>,
    timestamp: Seq<char>,
) -> Seq<char> {
    let with_gpu = with_gpu_section("GPUTop Export - "@ + timestamp + "\n"@ + "\n"@, gpu);
    with_process_section(
        match health {
            Some(h) => with_health_section(with_gpu, h),
            None => with_gpu,
        },
        processes,
    )
}

pub open spec fn processes_csv_header() -> Seq<char> {
    "timestamp,pid,user,command,gpu_usage_percent,memory_usage_mb,memory_usage_gb,encoder_usage_percent,decoder_usage_percent,priority,context_id,container_id,parent_pid\n"@
}

/// `text` followed by the row of a process in the table of processes.
pub open spec fn with_processes_csv_row(
    text: Seq<char>,
    process: GpuProcessView,
    timestamp: Seq<char>,
) -> Seq<char> {
    text + timestamp + ","@ + decimal(process.pid as nat) + ","@ + csv_escaped(process.user)
        + ","@ + csv_escaped(process.command) + ","@ + tenths(process.gpu_usage as int) + ","@
        + decimal((process.memory_usage / MIB) as nat) + ","@ + ratio_text(
        (process.memory_usage / MIB) as nat,
        1024,
        2,
    ) + ","@ + tenths(process.encoder_usage as int) + ","@ + tenths(process.decoder_usage as int)
        + ","@ + signed_decimal(process.priority as int) + ","@ + number_or(
        process.context_id,
        Seq::empty(),
    ) + ","@ + text_or(process.container_id, Seq::empty()) + ","@ + number_or(
        process.parent_pid,
        Seq::empty(),
    ) + "\n"@
}

pub open spec fn with_processes_csv_rows(
    text: Seq<char>,
    processes: Seq<GpuProcessView>,
    timestamp: Seq<char>,
) -> Seq<char>
    decreases processes.len(),
{
    if processes.len() == 0 {
        text
    } else {
        with_processes_csv_row(
            with_processes_csv_rows(text, processes.drop_last(), timestamp),
            processes.last(),
            timestamp,
        )
    }
}

/// The table of processes: a header and a row for each process.
pub open spec fn processes_csv(processes: Seq<GpuProcessView>, timestamp: Seq<char>) -> Seq<char> {
    with_processes_csv_rows(processes_csv_header(), processes, timestamp)
}

pub open spec fn gpu_metrics_csv_header() -> Seq<char> {
    "timestamp,gpu_name,utilization_percent,memory_used_mb,memory_total_mb,memory_usage_percent,temperature_c,power_draw_w,gpu_clock_mhz,memory_clock_mhz,fan_speed_percent,throttled,health_score,health_status\n"@
}

/// The table of the device's metrics: a header and one row.
pub open spec fn gpu_metrics_csv(
    gpu: GpuInfoView,
    health: Option<ReportView>,
    timestamp: Seq<char>,
) -> Seq<char> {
    gpu_metrics_csv_header() + timestamp + ","@ + csv_escaped(gpu.name) + ","@ + tenths(
        gpu.utilization as int,
    ) + ","@ + decimal((gpu.memory_used / MIB) as nat) + ","@ + decimal(
        (gpu.memory_total / MIB) as nat,
    ) + ","@ + percent_text(gpu.memory_used as nat, gpu.memory_total as nat) + ","@ + tenths(
        gpu.temperature as int,
    ) + ","@ + (match gpu.power_draw {
        Some(p) => tenths(p as int),
        None => "N/A"@,
    }) + ","@ + number_or(gpu.gpu_clock, "N/A"@) + ","@ + number_or(gpu.memory_clock, "N/A"@)
        + ","@ + (match gpu.fan_speed {
        Some(f) => rounded(f as int),
        None => "N/A"@,
    }) + ","@ + yes_no(gpu.throttled) + ","@ + (match health {
        Some(h) => decimal(h.overall_score as nat),
        None => "N/A"@,
    }) + ","@ + (match health {
        Some(h) => h.status.spec_text(),
        None => "Unknown"@,
    }) + "\n"@
}

/// `text` followed by the row of an alert in the table of alerts; `time`
/// is the alert's time as text.
pub open spec fn with_alert_csv_row(text: Seq<char>, alert: AlertView, time: Seq<char>) -> Seq<
    char,
> {
    text + time + ","@ + alert.alert_type.spec_name() + ","@ + alert.severity.spec_text() + ","@
        + csv_escaped(alert.message) + "\n"@
}

pub open spec fn with_alert_csv_rows(
    text: Seq<char>,
    alerts: Seq<AlertView>,
    times: Seq<Seq<char>>,
) -> Seq<char>
    decreases alerts.len(),
{
    if alerts.len() == 0 || times.len() == 0 {
        text
    } else {
        with_alert_csv_row(
            with_alert_csv_rows(text, alerts.drop_last(), times.drop_last()),
            alerts.last(),
            times.last(),
        )
    }
}

/// The table of alerts: a header and a row for each alert, `times` holding
/// the alerts' times as texts.
pub open spec fn alerts_csv(alerts: Seq<AlertView>, times: Seq<Seq<char>>) -> Seq<char> {
    with_alert_csv_rows("timestamp,alert_type,severity,message\n"@, alerts, times)
}

/// The name of an export file.
pub open spec fn export_filename(prefix: Seq<char>, stamp: Seq<char>, extension: Seq<char>) -> Seq<
    char,
> {
    prefix + "_"@ + stamp + "."@ + extension
}

fn push_escaped(s: &mut String, value: &str)
    ensures
        final(s)@ == old(s)@ + csv_escaped(value@),
{
    let field = CsvExporter::escape_csv(value);
    s.append(field.as_str());
}

impl CsvExporter {
    fn write_gpu_optional(s: &mut String, gpu: &GpuInfo)
        ensures
            final(s)@ == with_gpu_optional_lines(old(s)@, gpu@),
    {
        if let Some(power) = gpu.power_draw {
            s.append("Power Draw,");
            push_tenths(s, power as i64);
            s.append("W\n");
        }
        if let Some(clock) = gpu.gpu_clock {
            s.append("GPU Clock,");
            push_decimal(s, clock as u128);
            s.append(" MHz\n");
        }
        if let Some(clock) = gpu.memory_clock {
            s.append("Memory Clock,");
            push_decimal(s, clock as u128);
            s.append(" MHz\n");
        }
        if let Some(fan) = gpu.fan_speed {
            s.append("Fan Speed,");
            push_rounded(s, fan as i64);
            s.append("%\n");
        }
    }

    /// Appends the section of a snapshot that describes the device.
    pub fn write_gpu_info(s: &mut String, gpu: &GpuInfo)
        ensures
            final(s)@ == with_gpu_section(old(s)@, gpu@),
    {
        s.append("=== GPU INFORMATION ===\n");
        s.append("Name,");
        s.append(gpu.name.as_str());
        s.append("\n");
        s.append("Driver Version,");
        s.append(gpu.driver_version.as_str());
        s.append("\n");
        s.append("CUDA Version,");
        push_text_or(s, &gpu.cuda_version, "N/A");
        s.append("\n");
        s.append("Utilization,%");
        push_tenths(s, gpu.utilization as i64);
        s.append("\n");
        s.append("Memory Used,");
        push_decimal(s, (gpu.memory_used / MIB) as u128);
        s.append(" MB\n");
        s.append("Memory Total,");
        push_decimal(s, (gpu.memory_total / MIB) as u128);
        s.append(" MB\n");
        s.append("Memory Usage,");
        push_percent(s, gpu.memory_used, gpu.memory_total);
        s.append("%\n");
        s.append("Temperature,");
        push_tenths(s, gpu.temperature as i64);
        s.append("°C\n");
        Self::write_gpu_optional(s, gpu);
        s.append("Throttled,");
        push_yes_no(s, gpu.throttled);
        s.append("\n");
        s.append("\n");
    }

    fn write_health_summary(s: &mut String, health: &GpuHealthMetrics)
        ensures
            final(s)@ == with_health_summary(old(s)@, health@),
    {
        s.append("=== HEALTH METRICS ===\n");
        s.append("Overall Health Score,");
        push_ratio(s, health.overall_score as u128, 1, 1);
        s.append("/100\n");
        s.append("Health Status,");
        s.append(health.status.text());
        s.append("\n");
        s.append("Uptime,");
        push_ratio(s, health.uptime_minutes as u128, 60, 1);
        s.append(" hours\n");
        s.append("Thermal Throttling,");
        push_yes_no(s, health.thermal_throttling_detected);
        s.append("\n");
        s.append("\n");
    }

    fn write_temperature_summary(s: &mut String, health: &GpuHealthMetrics)
        ensures
            final(s)@ == with_temperature_summary(old(s)@, health@),
    {
        s.append("=== TEMPERATURE HEALTH ===\n");
        s.append("Current Temperature,");
        push_tenths(s, health.temperature.current as i64);
        s.append("°C\n");
        s.append("Temperature Trend (5min),");
        push_plus_signed_ratio(s, health.temperature.trend_5min as i128, 1000, 1);
        s.append("°C\n");
        s.append("Time Above 80°C,");
        push_decimal(s, (health.temperature.time_above_80c / 60) as u128);
        s.append(" minutes\n");
        s.append("Peak Temperature Today,");
        push_tenths(s, health.temperature.peak_today as i64);
        s.append("°C\n");
        s.append("\n");
    }

    fn write_power_summary(s: &mut String, health: &GpuHealthMetrics)
        ensures
            final(s)@ == with_power_summary(old(s)@, health@),
    {
        s.append("=== POWER HEALTH ===\n");
        s.append("Current Power Draw,");
        push_tenths(s, health.power.current_draw as i64);
        s.append("W\n");
        s.append("Power Efficiency,");
        push_ratio(s, health.power.efficiency as u128, 1000, 2);
        s.append(" util/W\n");
        s.append("Power Spikes Count,");
        push_decimal(s, health.power.power_spikes as u128);
        s.append("\n");
        s.append("Average Power (1hr),");
        push_tenths(s, health.power.avg_draw_1hr as i64);
        s.append("W\n");
        s.append("\n");
    }

    fn write_memory_summary(s: &mut String, health: &GpuHealthMetrics)
        ensures
            final(s)@ == with_memory_summary(old(s)@, health@),
    {
        s.append("=== MEMORY HEALTH ===\n");
        s.append("Memory Usage Trend,");
        let trend = health.memory.usage_trend;
        let written: i128 = if trend > u64::MAX as i128 {
            u64::MAX as i128
        } else if trend < -(u64::MAX as i128) {
            -(u64::MAX as i128)
        } else {
            trend
        };
        push_plus_signed_ratio(s, written, MIB as u128, 1);
        s.append(" MB/min\n");
        s.append("Memory Fragmentation,");
        push_ratio(s, health.memory.fragmentation_score as u128, 10, 1);
        s.append("%\n");
        s.append("Memory Leak Risk,");
        push_ratio(s, health.memory.leak_suspicion as u128, 10, 1);
        s.append("%\n");
        s.append("Peak Memory Usage Today,");
        push_ratio(s, health.memory.peak_usage_today as u128, GIB as u128, 1);
        s.append(" GB\n");
        s.append("\n");
    }

    /// Appends the section of a snapshot that describes the health of the
    /// device.
    pub fn write_health_metrics(s: &mut String, health: &GpuHealthMetrics)
        ensures
            final(s)@ == with_health_section(old(s)@, health@),
    {
        Self::write_health_summary(s, health);
        Self::write_temperature_summary(s, health);
        Self::write_power_summary(s, health);
        Self::write_memory_summary(s, health);
    }

    fn write_process_row(s: &mut String, process: &GpuProcess)
        ensures
            final(s)@ == with_snapshot_row(old(s)@, process@),
    {
        push_decimal(s, process.pid as u128);
        s.append(",");
        push_escaped(s, process.user.as_str());
        s.append(",");
        push_escaped(s, process.command.as_str());
        s.append(",");
        push_tenths(s, process.gpu_usage as i64);
        s.append(",");
        push_decimal(s, (process.memory_usage / MIB) as u128);
        s.append(",");
        push_tenths(s, process.encoder_usage as i64);
        s.append(",");
        push_tenths(s, process.decoder_usage as i64);
        s.append(",");
        push_signed_decimal(s, process.priority as i64);
        s.append("\n");
    }

    /// Appends the section of a snapshot that lists the processes.
    pub fn write_process_info(s: &mut String, processes: &[GpuProcess])
        ensures
            final(s)@ == with_process_section(old(s)@, process_views(processes@)),
    {
        s.append("=== PROCESS INFORMATION ===\n");
        s.append("PID,User,Command,GPU%,Memory(MB),ENC%,DEC%,Priority\n");
        let ghost start = s@;
        let ghost views = process_views(processes@);
        let mut i: usize = 0;
        assert(views.take(0) =~= Seq::<GpuProcessView>::empty());
        while i < processes.len()
            invariant
                i <= processes@.len(),
                views == process_views(processes@),
                s@ == with_snapshot_rows(start, views.take(i as int)),
            decreases processes@.len() - i,
        {
            assert(views.take(i + 1).drop_last() =~= views.take(i as int));
            assert(views.take(i + 1).last() == processes@[i as int]@);
            Self::write_process_row(s, &processes[i]);
            i += 1;
        }
        assert(views.take(processes@.len() as int) =~= views);
    }

    /// The snapshot of the current state as text: the device, its health
    /// where it is known, and the processes, under a line that gives the
    /// time of the export.
    pub fn export_current_snapshot(
        gpu: &GpuInfo,
        processes: &[GpuProcess],
        health: Option<&GpuHealthMetrics>,
        timestamp: &str,
    ) -> (text: String)
        ensures
            text@ == snapshot_text(
                gpu@,
                process_views(processes@),
                match health {
                    Some(h) => Some(h@),
                    None => None,
                },
                timestamp@,
            ),
    {
        let mut text = String::from_str("GPUTop Export - ");
        text.append(timestamp);
        text.append("\n");
        text.append("\n");
        Self::write_gpu_info(&mut text, gpu);
        if let Some(health) = health {
            Self::write_health_metrics(&mut text, health);
        }
        Self::write_process_info(&mut text, processes);
        text
    }

    fn write_processes_csv_row(s: &mut String, process: &GpuProcess, timestamp: &str)
        ensures
            final(s)@ == with_processes_csv_row(old(s)@, process@, timestamp@),
    {
        let memory_mb = process.memory_usage / MIB;
        s.append(timestamp);
        s.append(",");
        push_decimal(s, process.pid as u128);
        s.append(",");
        push_escaped(s, process.user.as_str());
        s.append(",");
        push_escaped(s, process.command.as_str());
        s.append(",");
        push_tenths(s, process.gpu_usage as i64);
        s.append(",");
        push_decimal(s, memory_mb as u128);
        s.append(",");
        push_ratio(s, memory_mb as u128, 1024, 2);
        s.append(",");
        push_tenths(s, process.encoder_usage as i64);
        s.append(",");
        push_tenths(s, process.decoder_usage as i64);
        s.append(",");
        push_signed_decimal(s, process.priority as i64);
        s.append(",");
        push_number_or(s, process.context_id, "");
        s.append(",");
        push_text_or(s, &process.container_id, "");
        s.append(",");
        push_number_or(s, process.parent_pid, "");
        s.append("\n");
        proof {
            reveal_strlit("");
            assert(""@ =~= Seq::<char>::empty());
        }
    }

    /// The table of processes as text: a header and a row for each process,
    /// each row beginning with the time of the export.
    pub fn export_processes_csv(processes: &[GpuProcess], timestamp: &str) -> (text: String)
        ensures
            text@ == processes_csv(process_views(processes@), timestamp@),
    {
        let mut text = String::from_str(
            "timestamp,pid,user,command,gpu_usage_percent,memory_usage_mb,memory_usage_gb,encoder_usage_percent,decoder_usage_percent,priority,context_id,container_id,parent_pid\n",
        );
        let ghost views = process_views(processes@);
        let mut i: usize = 0;
        assert(views.take(0) =~= Seq::<GpuProcessView>::empty());
        while i < processes.len()
            invariant
                i <= processes@.len(),
                views == process_views(processes@),
                text@ == with_processes_csv_rows(
                    processes_csv_header(),
                    views.take(i as int),
                    timestamp@,
                ),
            decreases processes@.len() - i,
        {
            assert(views.take(i + 1).drop_last() =~= views.take(i as int));
            assert(views.take(i + 1).last() == processes@[i as int]@);
            Self::write_processes_csv_row(&mut text, &processes[i], timestamp);
            i += 1;
        }
        assert(views.take(processes@.len() as int) =~= views);
        text
    }

    /// The table of the device's metrics as text: a header and one row,
    /// which begins with the time of the export.
    pub fn export_gpu_metrics_csv(
        gpu: &GpuInfo,
        health: Option<&GpuHealthMetrics>,
        timestamp: &str,
    ) -> (text: String)
        ensures
            text@ == gpu_metrics_csv(
                gpu@,
                match health {
                    Some(h) => Some(h@),
                    None => None,
                },
                timestamp@,
            ),
    {
        let mut text = String::from_str(
            "timestamp,gpu_name,utilization_percent,memory_used_mb,memory_total_mb,memory_usage_percent,temperature_c,power_draw_w,gpu_clock_mhz,memory_clock_mhz,fan_speed_percent,throttled,health_score,health_status\n",
        );
        text.append(timestamp);
        text.append(",");
        push_escaped(&mut text, gpu.name.as_str());
        text.append(",");
        push_tenths(&mut text, gpu.utilization as i64);
        text.append(",");
        push_decimal(&mut text, (gpu.memory_used / MIB) as u128);
        text.append(",");
        push_decimal(&mut text, (gpu.memory_total / MIB) as u128);
        text.append(",");
        push_percent(&mut text, gpu.memory_used, gpu.memory_total);
        text.append(",");
        push_tenths(&mut text, gpu.temperature as i64);
        text.append(",");
        match gpu.power_draw {
            Some(p) => push_tenths(&mut text, p as i64),
            None => text.append("N/A"),
        }
        text.append(",");
        push_number_or(&mut text, gpu.gpu_clock, "N/A");
        text.append(",");
        push_number_or(&mut text, gpu.memory_clock, "N/A");
        text.append(",");
        match gpu.fan_speed {
            Some(f) => push_rounded(&mut text, f as i64),
            None => text.append("N/A"),
        }
        text.append(",");
        push_yes_no(&mut text, gpu.throttled);
        text.append(",");
        match health {
            Some(h) => push_decimal(&mut text, h.overall_score as u128),
            None => text.append("N/A"),
        }
        text.append(",");
        match health {
            Some(h) => text.append(h.status.text()),
            None => text.append("Unknown"),
        }
        text.append("\n");
        text
    }

    /// Appends the row of an alert to the table of alerts. `time` is the
    /// alert's time as text.
    pub fn write_alert_row(s: &mut String, alert: &HealthAlert, time: &str)
        ensures
            final(s)@ == with_alert_csv_row(old(s)@, alert@, time@),
    {
        s.append(time);
        s.append(",");
        s.append(alert.alert_type.name());
        s.append(",");
        s.append(alert.severity.text());
        s.append(",");
        push_escaped(s, alert.message.as_str());
        s.append("\n");
    }

    /// An instant as local date and time; as milliseconds since the Unix
    /// epoch where the calendar does not reach it. The text depends on the
    /// machine's time zone, but for an instant beyond every calendar.
    pub fn time_text(timestamp: i64) -> (text: String)
        ensures
            beyond_calendar(timestamp) ==> text@ == signed_decimal(timestamp as int),
    {
        Self::time_text_or(local_time_format(timestamp, "%Y-%m-%d %H:%M:%S"), timestamp)
    }

    /// The text for an instant: the date and time that the calendar gave
    /// for it, or, where it gave none, the instant in milliseconds since the
    /// Unix epoch.
    pub fn time_text_or(formatted: Option<String>, timestamp: i64) -> (text: String)
        ensures
            text@ == match formatted {
                Some(date) => date@,
                None => signed_decimal(timestamp as int),
            },
    {
        match formatted {
            Some(date) => date,
            None => {
                let mut text = String::new();
                push_signed_decimal(&mut text, timestamp);
                text
            },
        }
    }

    /// The present instant as local date and time.
    pub fn timestamp_now() -> (text: String) {
        Self::time_text(wall_clock_millis())
    }

    /// The table of alerts of a report as text: a header and a row for each
    /// alert. Each row begins with the alert's time as the local calendar
    /// gives it; the rest of the table does not depend on the calendar.
    pub fn export_health_alerts_csv(health: &GpuHealthMetrics) -> (text: String)
        ensures
            exists|times: Seq<Seq<char>>|
                times.len() == health.alerts@.len() && text@ == #[trigger] alerts_csv(
                    alert_views(health.alerts@),
                    times,
                ),
    {
        let mut text = String::from_str("timestamp,alert_type,severity,message\n");
        let ghost views = alert_views(health.alerts@);
        let ghost mut times: Seq<Seq<char>> = Seq::empty();
        let mut i: usize = 0;
        assert(views.take(0) =~= Seq::<AlertView>::empty());
        while i < health.alerts.len()
            invariant
                i <= health.alerts@.len(),
                views == alert_views(health.alerts@),
                times.len() == i,
                text@ == with_alert_csv_rows(
                    "timestamp,alert_type,severity,message\n"@,
                    views.take(i as int),
                    times,
                ),
            decreases health.alerts@.len() - i,
        {
            let alert = &health.alerts[i];
            let time = Self::time_text(alert.timestamp);
            let ghost before = times;
            proof {
                times = times.push(time@);
            }
            assert(times.drop_last() =~= before);
            assert(views.take(i + 1).drop_last() =~= views.take(i as int));
            assert(views.take(i + 1).last() == alert@);
            Self::write_alert_row(&mut text, alert, time.as_str());
            i += 1;
        }
        assert(views.take(health.alerts@.len() as int) =~= views);
        assert(text@ == alerts_csv(alert_views(health.alerts@), times));
        text
    }

    /// The name of an export file for a prefix, a time stamp and an
    /// extension.
    pub fn export_filename_at(prefix: &str, stamp: &str, extension: &str) -> (name: String)
        ensures
            name@ == export_filename(prefix@, stamp@, extension@),
    {
        let mut name = String::from_str(prefix);
        name.append("_");
        name.append(stamp);
        name.append(".");
        name.append(extension);
        name
    }

    /// The name of an export file made now: the prefix, the local date and
    /// time, and the extension.
    pub fn get_export_filename(prefix: &str, extension: &str) -> (name: String)
        ensures
            exists|stamp: Seq<char>| name@ == #[trigger] export_filename(prefix@, stamp, extension@),
    {
        let now = wall_clock_millis();
        let stamp = Self::time_text_or(local_time_format(now, "%Y%m%d_%H%M%S"), now);
        Self::export_filename_at(prefix, stamp.as_str(), extension)
    }
}

} // verus!
