use gputop::health::{AlertType, GpuHealthMetrics, HealthStatus, Reading, Sample};
use gputop::monitor::HealthMonitor;

const T0: i64 = 1_700_000_000_000;
const DAY: i64 = T0 - 3_600_000;
const MIB: u64 = 1_048_576;
const GIB: u64 = 1024 * MIB;

fn reading(temperature: i32, power_mw: u32, memory_used: u64) -> Reading {
    Reading {
        temperature,
        power_draw: Some(power_mw),
        memory_used,
        memory_total: 8 * GIB,
        // 50 % at 100 W is half a percent per watt: just not inefficient.
        gpu_utilization: 50_000,
        gpu_clock: Some(1500),
        memory_clock: Some(7000),
        is_throttling: false,
    }
}

fn tick(monitor: &mut HealthMonitor, second: i64, r: Reading) -> GpuHealthMetrics {
    monitor.update_metrics_at(T0 + second * 1000, DAY, r)
}

fn kinds(report: &GpuHealthMetrics) -> Vec<AlertType> {
    report.alerts.iter().map(|a| a.alert_type).collect()
}

#[test]
fn first_update_uses_the_fallbacks() {
    let mut monitor = HealthMonitor::with_start(T0);
    let report = tick(&mut monitor, 0, reading(65_000, 150_000, 2 * GIB));
    assert_eq!(report.temperature.current, 65_000);
    assert_eq!(report.temperature.max_safe, 80_000);
    assert_eq!(report.temperature.critical, 90_000);
    assert_eq!(report.temperature.trend_5min, 0);
    assert_eq!(report.temperature.time_above_80c, 0);
    assert_eq!(report.temperature.peak_today, 65_000);
    assert_eq!(report.power.current_draw, 150_000);
    assert_eq!(report.power.power_spikes, 0);
    assert_eq!(report.power.avg_draw_1hr, 150_000);
    // 50 % over 150 W is a third of a percent per watt.
    assert_eq!(report.power.efficiency, 333);
    assert_eq!(report.memory.usage_trend, 0);
    assert_eq!(report.memory.fragmentation_score, 0);
    assert_eq!(report.memory.leak_suspicion, 0);
    assert_eq!(report.memory.peak_usage_today, 2 * GIB);
    assert!(report.alerts.is_empty());
    assert!(!report.thermal_throttling_detected);
    assert_eq!(report.uptime_minutes, 0);
    // Low efficiency is the only penalty.
    assert_eq!(report.overall_score, 90);
    assert_eq!(report.status, HealthStatus::Excellent);
}

#[test]
fn analyzers_on_an_empty_window_give_zero_or_current() {
    let monitor = HealthMonitor::with_start(T0);
    let current = Sample {
        timestamp: T0,
        temperature: 72_000,
        power_draw: 0,
        memory_used: 5 * GIB,
        gpu_utilization: 30_000,
        gpu_clock: 0,
        memory_clock: 0,
        is_throttling: false,
    };
    let t = monitor.calculate_temperature_metrics(&current, DAY);
    assert_eq!(t.trend_5min, 0);
    assert_eq!(t.time_above_80c, 0);
    assert_eq!(t.peak_today, 72_000);
    let p = monitor.calculate_power_metrics(&current);
    assert_eq!(p.current_draw, 0);
    assert_eq!(p.efficiency, 0);
    assert_eq!(p.power_spikes, 0);
    assert_eq!(p.avg_draw_1hr, 0);
    let m = monitor.calculate_memory_metrics(&current, 8 * GIB, DAY);
    assert_eq!(m.usage_trend, 0);
    assert_eq!(m.fragmentation_score, 0);
    assert_eq!(m.leak_suspicion, 0);
    assert_eq!(m.peak_usage_today, 5 * GIB);
    assert!(monitor.get_recent_alerts(10).is_empty());
}

#[test]
fn absent_power_reading_counts_as_zero() {
    let mut monitor = HealthMonitor::with_start(T0);
    let mut r = reading(60_000, 0, GIB);
    r.power_draw = None;
    r.gpu_clock = None;
    r.memory_clock = None;
    let report = tick(&mut monitor, 0, r);
    assert_eq!(report.power.current_draw, 0);
    assert_eq!(report.power.efficiency, 0);
    assert_eq!(report.power.avg_draw_1hr, 0);
    assert_eq!(report.overall_score, 90);
}

#[test]
fn rising_temperature_turns_critical() {
    let mut monitor = HealthMonitor::with_start(T0);
    let temps = [70_000, 75_000, 80_000, 85_000, 90_000, 92_000];
    let mut reports = Vec::new();
    for (second, temp) in temps.iter().enumerate() {
        reports.push(tick(&mut monitor, second as i64, reading(*temp, 100_000, 2 * GIB)));
    }
    // 70 and 75 degrees: nothing to report.
    assert!(reports[0].alerts.is_empty());
    assert!(reports[1].alerts.is_empty());
    assert_eq!(reports[1].overall_score, 100);
    assert_eq!(reports[1].status, HealthStatus::Excellent);
    // 80 degrees: high, no penalty yet, but the alert lowers the status.
    assert_eq!(kinds(&reports[2]), vec![AlertType::TemperatureHigh]);
    assert_eq!(reports[2].temperature.trend_5min, 10_000);
    assert_eq!(reports[2].overall_score, 100);
    assert_eq!(reports[2].status, HealthStatus::Warning);
    // 85 degrees: above 80 (-10) and risen by 15 (-15).
    assert_eq!(kinds(&reports[3]), vec![AlertType::TemperatureHigh]);
    assert_eq!(reports[3].overall_score, 75);
    assert_eq!(reports[3].temperature.time_above_80c, 1);
    // 90 degrees: critical.
    assert_eq!(
        kinds(&reports[4]),
        vec![AlertType::TemperatureCritical, AlertType::TemperatureHigh]
    );
    assert_eq!(reports[4].alerts[0].severity, HealthStatus::Critical);
    assert_eq!(reports[4].status, HealthStatus::Critical);
    assert_eq!(reports[4].overall_score, 65);
    // 92 degrees: critical, and the score has lost 30 points to temperature.
    assert_eq!(
        kinds(&reports[5]),
        vec![AlertType::TemperatureCritical, AlertType::TemperatureHigh]
    );
    assert_eq!(
        reports[5].alerts[0].message,
        "CRITICAL: GPU temperature 92°C exceeds safe limits!"
    );
    assert_eq!(
        reports[5].alerts[1].message,
        "Temperature rising rapidly (+22.0°C in 5min)"
    );
    assert_eq!(reports[5].alerts[1].value, Some(22_000));
    assert_eq!(reports[5].alerts[1].threshold, Some(15_000));
    assert_eq!(reports[5].status, HealthStatus::Critical);
    assert!(reports[5].overall_score <= 70);
    assert_eq!(reports[5].overall_score, 55);
    assert_eq!(reports[5].temperature.trend_5min, 22_000);
    assert_eq!(reports[5].temperature.time_above_80c, 3);
    assert_eq!(reports[5].temperature.peak_today, 92_000);
}

#[test]
fn slow_memory_growth_stays_at_the_boundary() {
    // 15 MiB more at each tick, one tick a minute, for two minutes.
    let mut monitor = HealthMonitor::with_start(T0);
    let mut last = None;
    for minute in 0..3i64 {
        let used = 2 * GIB + 15 * MIB * minute as u64;
        last = Some(tick(&mut monitor, minute * 60, reading(60_000, 100_000, used)));
    }
    let report = last.unwrap();
    assert_eq!(report.memory.usage_trend, 15 * MIB as i128);
    // 15 / 50 is exactly 0.3, which is not above 0.3: no penalty, no alert.
    assert_eq!(report.memory.leak_suspicion, 300);
    assert!(report.alerts.is_empty());
    assert_eq!(report.overall_score, 100);
    assert_eq!(report.memory.peak_usage_today, 2 * GIB + 30 * MIB);
}

#[test]
fn growth_just_above_the_boundary_costs_ten_points() {
    let mut monitor = HealthMonitor::with_start(T0);
    tick(&mut monitor, 0, reading(60_000, 100_000, 2 * GIB));
    // 15.1 MiB in a minute: just above 0.302 of the certain rate.
    let report = tick(&mut monitor, 60, reading(60_000, 100_000, 2 * GIB + 15_833_498));
    assert_eq!(report.memory.leak_suspicion, 303);
    assert!(report.alerts.is_empty());
    assert_eq!(report.overall_score, 90);
}

#[test]
fn fast_memory_growth_raises_the_leak_alert() {
    // 15 MiB more at each tick, one tick a second, for two minutes.
    let mut monitor = HealthMonitor::with_start(T0);
    let mut last = None;
    for second in 0..120i64 {
        let used = 2 * GIB + 15 * MIB * second as u64;
        last = Some(tick(&mut monitor, second, reading(60_000, 100_000, used)));
    }
    let report = last.unwrap();
    // The earliest sample of the last minute is 60 ticks back.
    assert_eq!(report.memory.usage_trend, 900 * MIB as i128);
    assert_eq!(report.memory.leak_suspicion, 1000);
    assert_eq!(kinds(&report), vec![AlertType::MemoryLeakSuspected]);
    assert_eq!(report.alerts[0].value, Some(1000));
    assert_eq!(report.alerts[0].threshold, Some(800));
    assert_eq!(report.memory.fragmentation_score, 77);
    assert_eq!(report.overall_score, 80);
    assert_eq!(report.status, HealthStatus::Warning);
}

#[test]
fn leak_suspicion_needs_more_than_ten_mebibytes_a_minute() {
    let mut monitor = HealthMonitor::with_start(T0);
    tick(&mut monitor, 0, reading(60_000, 100_000, GIB));
    let report = tick(&mut monitor, 30, reading(60_000, 100_000, GIB + 10 * MIB));
    assert_eq!(report.memory.usage_trend, 10 * MIB as i128);
    assert_eq!(report.memory.leak_suspicion, 0);
    // A share is rounded up to the next thousandth.
    let report = tick(&mut monitor, 31, reading(60_000, 100_000, GIB + 10 * MIB + 1));
    assert_eq!(report.memory.leak_suspicion, 201);
    let report = tick(&mut monitor, 32, reading(60_000, 100_000, GIB - MIB));
    assert_eq!(report.memory.usage_trend, -(MIB as i128));
    assert_eq!(report.memory.leak_suspicion, 0);
}

#[test]
fn three_power_jumps_count_as_three_spikes() {
    let mut monitor = HealthMonitor::with_start(T0);
    let watts = [100, 100, 130, 130, 100, 125, 125, 100, 121, 121, 121];
    let mut last = None;
    for (second, w) in watts.iter().enumerate() {
        last = Some(tick(&mut monitor, second as i64, reading(60_000, w * 1000, GIB)));
    }
    let report = last.unwrap();
    assert_eq!(report.power.power_spikes, 3);
    assert!(report.alerts.is_empty());
    assert_eq!(report.power.avg_draw_1hr, 115_727);
}

#[test]
fn a_rise_of_exactly_twenty_watts_is_no_spike() {
    let mut monitor = HealthMonitor::with_start(T0);
    tick(&mut monitor, 0, reading(60_000, 100_000, GIB));
    let report = tick(&mut monitor, 1, reading(60_000, 120_000, GIB));
    assert_eq!(report.power.power_spikes, 0);
    let report = tick(&mut monitor, 2, reading(60_000, 140_001, GIB));
    assert_eq!(report.power.power_spikes, 1);
}

#[test]
fn only_the_newest_ten_pairs_are_searched_for_spikes() {
    let mut monitor = HealthMonitor::with_start(T0);
    tick(&mut monitor, 0, reading(60_000, 100_000, GIB));
    let report = tick(&mut monitor, 1, reading(60_000, 200_000, GIB));
    assert_eq!(report.power.power_spikes, 1);
    let mut last = report;
    for second in 2..11 {
        last = tick(&mut monitor, second, reading(60_000, 200_000, GIB));
    }
    // The jump is the later sample of the tenth-newest pair: still seen.
    assert_eq!(last.power.power_spikes, 1);
    let report = tick(&mut monitor, 11, reading(60_000, 200_000, GIB));
    assert_eq!(report.power.power_spikes, 0);
}

#[test]
fn spikes_never_exceed_ten_so_updates_raise_no_power_alert() {
    let mut monitor = HealthMonitor::with_start(T0);
    let mut power = 0u32;
    for second in 0..40 {
        power += 30_000;
        let report = tick(&mut monitor, second, reading(60_000, power, GIB));
        assert!(report.power.power_spikes <= 10);
        assert!(!kinds(&report).contains(&AlertType::PowerSpike));
    }
}

#[test]
fn volatility_of_memory_use() {
    let mut monitor = HealthMonitor::with_start(T0);
    let mut last = None;
    for second in 0..12i64 {
        let used = if second % 2 == 0 { 1000 * MIB } else { 3000 * MIB };
        let report = tick(&mut monitor, second, reading(60_000, 100_000, used));
        if second < 10 {
            // Ten samples or fewer: no estimate.
            assert_eq!(report.memory.fragmentation_score, 0);
        }
        if second == 10 {
            assert_eq!(report.memory.fragmentation_score, 522);
        }
        last = Some(report);
    }
    // Mean 2000 MiB, standard deviation 1000 MiB.
    assert_eq!(last.unwrap().memory.fragmentation_score, 500);
}

#[test]
fn volatility_is_capped_and_guarded() {
    let mut monitor = HealthMonitor::with_start(T0);
    let mut last = None;
    for second in 0..11i64 {
        let used = if second == 10 { 100 * MIB } else { 0 };
        last = Some(tick(&mut monitor, second, reading(60_000, 100_000, used)));
    }
    assert_eq!(last.unwrap().memory.fragmentation_score, 1000);

    let mut monitor = HealthMonitor::with_start(T0);
    let mut last = None;
    for second in 0..20i64 {
        last = Some(tick(&mut monitor, second, reading(60_000, 100_000, 0)));
    }
    // A mean of zero gives no estimate.
    assert_eq!(last.unwrap().memory.fragmentation_score, 0);

    let mut monitor = HealthMonitor::with_start(T0);
    let mut last = None;
    for second in 0..20i64 {
        last = Some(tick(&mut monitor, second, reading(60_000, 100_000, u64::MAX)));
    }
    assert_eq!(last.unwrap().memory.fragmentation_score, 0);
}

#[test]
fn throttling_is_reported_and_penalised() {
    let mut monitor = HealthMonitor::with_start(T0);
    let mut r = reading(70_000, 100_000, GIB);
    r.is_throttling = true;
    let report = tick(&mut monitor, 0, r);
    assert!(report.thermal_throttling_detected);
    assert_eq!(kinds(&report), vec![AlertType::ThermalThrottling]);
    assert_eq!(report.alerts[0].value, Some(70_000));
    assert_eq!(report.alerts[0].timestamp, T0);
    assert_eq!(report.overall_score, 75);
    assert_eq!(report.status, HealthStatus::Warning);
}

#[test]
fn trend_looks_back_five_minutes_only() {
    let mut monitor = HealthMonitor::with_start(T0);
    tick(&mut monitor, 0, reading(50_000, 100_000, GIB));
    tick(&mut monitor, 100, reading(60_000, 100_000, GIB));
    // Exactly five minutes after the first sample: it still counts.
    let report = tick(&mut monitor, 300, reading(70_000, 100_000, GIB));
    assert_eq!(report.temperature.trend_5min, 20_000);
    // A second later the first sample is too old.
    let report = tick(&mut monitor, 301, reading(70_000, 100_000, GIB));
    assert_eq!(report.temperature.trend_5min, 10_000);
    // A falling temperature gives a negative trend.
    let report = tick(&mut monitor, 302, reading(55_000, 100_000, GIB));
    assert_eq!(report.temperature.trend_5min, -5_000);
}

#[test]
fn peaks_count_from_the_start_of_the_day() {
    let mut monitor = HealthMonitor::with_start(T0);
    monitor.update_metrics_at(T0, T0, reading(88_000, 100_000, 6 * GIB));
    let report = monitor.update_metrics_at(T0 + 1000, T0, reading(70_000, 100_000, 2 * GIB));
    assert_eq!(report.temperature.peak_today, 88_000);
    assert_eq!(report.memory.peak_usage_today, 6 * GIB);
    // With the day beginning after the first sample, that sample is of yesterday.
    let report =
        monitor.update_metrics_at(T0 + 2000, T0 + 500, reading(71_000, 100_000, 3 * GIB));
    assert_eq!(report.temperature.peak_today, 71_000);
    assert_eq!(report.memory.peak_usage_today, 3 * GIB);
    // With no sample of the day at all, the peaks are the current values.
    let report =
        monitor.update_metrics_at(T0 + 3000, T0 + 9000, reading(60_000, 100_000, GIB));
    assert_eq!(report.temperature.peak_today, 60_000);
    assert_eq!(report.memory.peak_usage_today, GIB);
}

#[test]
fn time_above_eighty_counts_the_whole_window() {
    let mut monitor = HealthMonitor::with_start(T0);
    let mut last = None;
    for second in 0..2000i64 {
        last = Some(tick(&mut monitor, second, reading(81_000, 100_000, GIB)));
    }
    let report = last.unwrap();
    assert_eq!(report.temperature.time_above_80c, 2000);
    // Above 80 (-10), more than half an hour above 80 (-10), high alert.
    assert_eq!(report.overall_score, 80);
    assert_eq!(report.status, HealthStatus::Warning);
}

#[test]
fn window_holds_an_hour_of_samples() {
    let mut monitor = HealthMonitor::with_start(T0);
    let mut last = None;
    for second in 0..3700i64 {
        last = Some(tick(&mut monitor, second, reading(81_000, 100_000, GIB)));
    }
    assert_eq!(last.unwrap().temperature.time_above_80c, 3600);
}

#[test]
fn uptime_is_counted_in_whole_minutes() {
    let mut monitor = HealthMonitor::with_start(T0);
    assert_eq!(tick(&mut monitor, 59, reading(60_000, 100_000, GIB)).uptime_minutes, 0);
    assert_eq!(tick(&mut monitor, 60, reading(60_000, 100_000, GIB)).uptime_minutes, 1);
    assert_eq!(tick(&mut monitor, 125, reading(60_000, 100_000, GIB)).uptime_minutes, 2);
    assert_eq!(tick(&mut monitor, 7200, reading(60_000, 100_000, GIB)).uptime_minutes, 120);
}

#[test]
fn time_never_runs_backwards() {
    let mut monitor = HealthMonitor::with_start(T0);
    let mut r = reading(60_000, 100_000, GIB);
    r.is_throttling = true;
    let first = tick(&mut monitor, 10, r);
    assert_eq!(first.alerts[0].timestamp, T0 + 10_000);
    // The clock has jumped back: the sample is filed at the newest time known.
    let second = tick(&mut monitor, 5, r);
    assert_eq!(second.alerts[0].timestamp, T0 + 10_000);
    // A reading from before monitoring began is filed at its beginning.
    let mut early = HealthMonitor::with_start(T0);
    let report = early.update_metrics_at(T0 - 1, DAY, r);
    assert_eq!(report.alerts[0].timestamp, T0);
    assert_eq!(report.uptime_minutes, 0);
}

#[test]
fn recent_alerts_are_newest_first_and_repeatable() {
    let mut monitor = HealthMonitor::with_start(T0);
    let mut r = reading(60_000, 100_000, GIB);
    r.is_throttling = true;
    for second in 0..5 {
        tick(&mut monitor, second, r);
    }
    let recent = monitor.get_recent_alerts(3);
    let stamps: Vec<i64> = recent.iter().map(|a| a.timestamp).collect();
    assert_eq!(stamps, vec![T0 + 4000, T0 + 3000, T0 + 2000]);
    // Asking again changes nothing.
    assert_eq!(monitor.get_recent_alerts(3), recent);
    assert_eq!(monitor.get_recent_alerts(3), monitor.get_recent_alerts(3));
    assert_eq!(monitor.get_recent_alerts(0).len(), 0);
    assert_eq!(monitor.get_recent_alerts(100).len(), 5);
}

#[test]
fn report_holds_this_cycle_alerts_only() {
    let mut monitor = HealthMonitor::with_start(T0);
    let mut r = reading(60_000, 100_000, GIB);
    r.is_throttling = true;
    tick(&mut monitor, 0, r);
    r.is_throttling = false;
    let report = tick(&mut monitor, 1, r);
    assert!(report.alerts.is_empty());
    assert_eq!(monitor.get_recent_alerts(10).len(), 1);
}

#[test]
fn alert_history_keeps_the_newest_hundred() {
    let mut monitor = HealthMonitor::with_start(T0);
    let mut r = reading(95_000, 100_000, GIB);
    r.is_throttling = true;
    // Two alerts a tick: critical temperature, then throttling.
    for second in 0..80 {
        tick(&mut monitor, second, r);
    }
    let recent = monitor.get_recent_alerts(1000);
    assert_eq!(recent.len(), 100);
    assert_eq!(recent[0].alert_type, AlertType::ThermalThrottling);
    assert_eq!(recent[0].timestamp, T0 + 79_000);
    assert_eq!(recent[1].alert_type, AlertType::TemperatureCritical);
    assert_eq!(recent[99].alert_type, AlertType::TemperatureCritical);
    assert_eq!(recent[99].timestamp, T0 + 30_000);
}

#[test]
fn update_by_the_wall_clock() {
    let mut monitor = HealthMonitor::new();
    let first =
        monitor.update_metrics(85_000, Some(100_000), GIB, 8 * GIB, 50_000, None, None, true);
    assert_eq!(first.temperature.current, 85_000);
    assert_eq!(first.temperature.time_above_80c, 1);
    assert_eq!(first.temperature.peak_today, 85_000);
    assert_eq!(first.uptime_minutes, 0);
    assert!(first.thermal_throttling_detected);
    assert_eq!(kinds(&first), vec![AlertType::TemperatureHigh, AlertType::ThermalThrottling]);
    // Above 80 (-10) and throttling (-25).
    assert_eq!(first.overall_score, 65);
    let second =
        monitor.update_metrics(86_000, Some(100_000), GIB, 8 * GIB, 50_000, None, None, false);
    assert_eq!(second.temperature.time_above_80c, 2);
    assert_eq!(second.temperature.trend_5min, 1_000);
    assert_eq!(second.temperature.peak_today, 86_000);
    assert!(second.alerts[0].timestamp >= first.alerts[0].timestamp);
    assert_eq!(monitor.get_recent_alerts(10).len(), 3);
}

#[test]
fn capacities_can_be_chosen() {
    let mut monitor = HealthMonitor::with_capacities(T0, 3, 2);
    let mut r = reading(81_000, 100_000, GIB);
    r.is_throttling = true;
    let mut last = None;
    for second in 0..5 {
        last = Some(tick(&mut monitor, second, r));
    }
    // Only the newest three samples are counted, and two alerts remembered.
    assert_eq!(last.unwrap().temperature.time_above_80c, 3);
    let recent = monitor.get_recent_alerts(10);
    assert_eq!(recent.len(), 2);
    assert_eq!(recent[0].alert_type, AlertType::ThermalThrottling);
    assert_eq!(recent[1].alert_type, AlertType::TemperatureHigh);
    assert_eq!(recent[0].timestamp, T0 + 4000);
}

#[test]
fn a_monitor_without_room_still_reports() {
    let mut monitor = HealthMonitor::with_capacities(T0, 0, 0);
    let mut r = reading(95_000, 100_000, GIB);
    r.is_throttling = true;
    let report = tick(&mut monitor, 0, r);
    assert_eq!(report.temperature.current, 95_000);
    assert_eq!(report.temperature.time_above_80c, 0);
    assert_eq!(report.temperature.peak_today, 95_000);
    assert_eq!(report.power.avg_draw_1hr, 100_000);
    assert_eq!(report.status, HealthStatus::Critical);
    assert_eq!(report.alerts.len(), 2);
    assert!(monitor.get_recent_alerts(10).is_empty());
}

#[test]
fn one_byte_beyond_the_boundary_costs_ten_points() {
    let mut monitor = HealthMonitor::with_start(T0);
    tick(&mut monitor, 0, reading(60_000, 100_000, 2 * GIB));
    let report = tick(&mut monitor, 60, reading(60_000, 100_000, 2 * GIB + 15 * MIB + 1));
    assert_eq!(report.memory.leak_suspicion, 301);
    assert_eq!(report.overall_score, 90);
    assert!(report.alerts.is_empty());
    // 40 MiB a minute is 0.8 of the certain rate: no alert yet, but one byte more raises it.
    let mut monitor = HealthMonitor::with_start(T0);
    tick(&mut monitor, 0, reading(60_000, 100_000, 2 * GIB));
    let report = tick(&mut monitor, 60, reading(60_000, 100_000, 2 * GIB + 40 * MIB));
    assert_eq!(report.memory.leak_suspicion, 800);
    assert!(report.alerts.is_empty());
    assert_eq!(report.overall_score, 80);
    let mut monitor = HealthMonitor::with_start(T0);
    tick(&mut monitor, 0, reading(60_000, 100_000, 2 * GIB));
    let report = tick(&mut monitor, 60, reading(60_000, 100_000, 2 * GIB + 40 * MIB + 1));
    assert_eq!(report.memory.leak_suspicion, 801);
    assert_eq!(kinds(&report), vec![AlertType::MemoryLeakSuspected]);
}

#[test]
fn volatility_agrees_with_floating_point_within_a_thousandth() {
    let mut monitor = HealthMonitor::with_start(T0);
    let mut used = Vec::new();
    let mut seed = 7u64;
    let mut last = None;
    for second in 0..200i64 {
        seed = seed.wrapping_mul(6_364_136_223_846_793_005).wrapping_add(1_442_695_040_888_963_407);
        let mib = 1024 + (seed >> 33) % 4096;
        used.push(mib as f64);
        last = Some(tick(&mut monitor, second, reading(60_000, 100_000, mib * MIB)));
        if used.len() > 10 {
            let recent: Vec<f64> = used.iter().rev().take(60).copied().collect();
            let mean = recent.iter().sum::<f64>() / recent.len() as f64;
            let variance =
                recent.iter().map(|x| (x - mean).powi(2)).sum::<f64>() / recent.len() as f64;
            let ratio = (variance.sqrt() / mean).min(1.0);
            let score = last.as_ref().unwrap().memory.fragmentation_score as f64 / 1000.0;
            assert!(score >= ratio - 1e-9 && score < ratio + 0.001 + 1e-9);
        }
    }
}

#[test]
fn volatility_counts_bytes() {
    let mut monitor = HealthMonitor::with_start(T0);
    let mut last = None;
    for second in 0..12i64 {
        let used = if second % 2 == 0 { 1000 } else { 3000 };
        last = Some(tick(&mut monitor, second, reading(60_000, 100_000, used)));
    }
    assert_eq!(last.unwrap().memory.fragmentation_score, 500);
    let mut monitor = HealthMonitor::with_start(T0);
    let mut last = None;
    for second in 0..20u64 {
        last = Some(tick(&mut monitor, second as i64, reading(60_000, 100_000, second * 1000)));
    }
    assert_eq!(last.unwrap().memory.fragmentation_score, 607);
}

#[test]
fn volatility_of_the_largest_readings() {
    let mut monitor = HealthMonitor::with_start(T0);
    let mut last = None;
    for second in 0..12i64 {
        let used = if second % 2 == 0 { 1u64 << 62 } else { 3u64 << 62 };
        last = Some(tick(&mut monitor, second, reading(60_000, 100_000, used)));
    }
    // Readings of 16 TiB and more are measured in a coarser unit: half, nearly.
    assert_eq!(last.unwrap().memory.fragmentation_score, 501);
    let mut monitor = HealthMonitor::with_start(T0);
    let mut last = None;
    for second in 0..12i64 {
        let used = if second % 2 == 0 { 0 } else { u64::MAX };
        last = Some(tick(&mut monitor, second, reading(60_000, 100_000, used)));
    }
    assert_eq!(last.unwrap().memory.fragmentation_score, 1000);
}

#[test]
fn day_starts_at_midnight_or_with_the_sample() {
    assert_eq!(HealthMonitor::day_start_or(Some(T0 - 5), T0), T0 - 5);
    assert_eq!(HealthMonitor::day_start_or(None, T0), T0);
}
