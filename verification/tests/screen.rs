use gputop::gpu::{GpuInfo, GpuManager, GpuVendor};
use gputop::health::{
    AlertType, GpuHealthMetrics, HealthAlert, HealthStatus, MemoryHealthMetrics, PowerMetrics,
    TemperatureMetrics,
};
use gputop::process::{GpuProcess, ProcessManager};
use gputop::screen::{RowStyle, Screen};
use gputop::settings::AppSettings;

fn gpus() -> Vec<GpuInfo> {
    let mock = GpuManager::get_gpu_info(None).remove(0);
    let mut busy = mock.clone();
    busy.name = String::from("NVIDIA GeForce RTX 4090");
    busy.vendor = GpuVendor::Nvidia;
    busy.cuda_version = Some(String::from("12.4"));
    busy.utilization = 97_360;
    busy.memory_used = 23_456_789_012;
    busy.memory_total = 25_769_803_776;
    busy.temperature = 83_500;
    busy.power_draw = Some(412_345);
    busy.fan_speed = Some(77_500);
    busy.throttled = true;
    let mut bare = mock.clone();
    bare.power_draw = None;
    bare.fan_speed = None;
    bare.gpu_clock = None;
    bare.memory_clock = None;
    bare.temperature = -12_300;
    vec![mock, busy, bare]
}

fn health() -> GpuHealthMetrics {
    GpuHealthMetrics {
        overall_score: 65,
        status: HealthStatus::Warning,
        temperature: TemperatureMetrics {
            current: 83_500,
            max_safe: 80_000,
            critical: 90_000,
            trend_5min: -2_340,
            time_above_80c: 1_234,
            peak_today: 88_250,
        },
        power: PowerMetrics {
            current_draw: 412_345,
            efficiency: 236,
            power_spikes: 3,
            avg_draw_1hr: 380_120,
        },
        memory: MemoryHealthMetrics {
            usage_trend: 37 * 1024 * 1024 + 500_000,
            fragmentation_score: 123,
            leak_suspicion: 718,
            peak_usage_today: 23_456_789_012,
        },
        thermal_throttling_detected: true,
        uptime_minutes: 125,
        alerts: Vec::new(),
    }
}

fn alert(timestamp: i64, message: &str) -> HealthAlert {
    HealthAlert {
        alert_type: AlertType::ThermalThrottling,
        message: String::from(message),
        severity: HealthStatus::Warning,
        timestamp,
        value: None,
        threshold: None,
    }
}

#[test]
fn information_line_of_the_device() {
    for gpu in gpus() {
        let expected = format!(
            "🔥 {} • 🚗 Driver: {} • 🎯 CUDA: {} • 🧠 Memory: {:.1}GB/{:.1}GB ({:.1}%)",
            gpu.name,
            gpu.driver_version,
            gpu.cuda_version.clone().unwrap_or("N/A".to_string()),
            gpu.memory_used as f64 / (1024.0 * 1024.0 * 1024.0),
            gpu.memory_total as f64 / (1024.0 * 1024.0 * 1024.0),
            (gpu.memory_used as f64 / gpu.memory_total as f64) * 100.0
        );
        assert_eq!(Screen::gpu_information(&gpu), expected);
    }
    assert_eq!(
        Screen::gpu_information(&gpus()[0]),
        "🔥 Mock GPU • 🚗 Driver: 1.0.0 • 🎯 CUDA: N/A • 🧠 Memory: 2.0GB/8.0GB (25.0%)"
    );
}

#[test]
fn labels_of_the_gauges() {
    assert_eq!(Screen::usage_label(45_000), "45.0%");
    assert_eq!(Screen::usage_label(97_360), "97.4%");
    assert_eq!(Screen::usage_label(97_360), format!("{:.1}%", 97.36f32));
    // Half a tenth goes to the even tenth.
    assert_eq!(Screen::usage_label(97_350), "97.4%");
    assert_eq!(Screen::usage_label(97_250), "97.2%");
    assert_eq!(Screen::memory_label(1, 3), "33.3%");
    assert_eq!(Screen::memory_label(0, 0), "NaN%");
    assert_eq!(Screen::memory_label(5, 0), "inf%");
    assert_eq!(Screen::temperature_label(65_000), "65°C");
    assert_eq!(Screen::temperature_label(83_500), "84°C");
    assert_eq!(Screen::temperature_label(84_500), "84°C");
    assert_eq!(Screen::temperature_label(-12_300), "-12°C");
}

#[test]
fn status_line() {
    let h = health();
    for gpu in gpus() {
        for health in [Some(&h), None] {
            let health_info = match health {
                Some(health) => format!(
                    "{} Health: {} ({:.0}/100)",
                    health.status.emoji(),
                    health.status.text(),
                    health.overall_score as f32
                ),
                None => "⚪ Health: Initializing".to_string(),
            };
            assert_eq!(Screen::health_info(health), health_info);
            let expected = format!(
                "⚡ Power: {}W • 🌀 Fan: {}% • 🔧 GPU Clock: {}MHz • 🧠 Mem Clock: {}MHz • {} • 🎯 Processes: {} • 🚦 Status: {}",
                gpu.power_draw.map_or("N/A".to_string(), |p| format!("{:.0}", p as f64 / 1000.0)),
                gpu.fan_speed.map_or("Auto".to_string(), |f| format!("{:.0}", f as f64 / 1000.0)),
                gpu.gpu_clock.map_or("N/A".to_string(), |c| c.to_string()),
                gpu.memory_clock.map_or("N/A".to_string(), |c| c.to_string()),
                health_info,
                3,
                if gpu.throttled { "🔴 Throttled" } else { "🟢 Normal" }
            );
            assert_eq!(Screen::system_status(&gpu, health, 3), expected);
        }
    }
}

#[test]
fn line_of_current_readings() {
    for gpu in gpus() {
        let expected = format!(
            "🕐 {} • ⚡ GPU: {:.1}% • 🧠 Memory: {:.1}% ({:.1}GB/{:.1}GB) • 🌡️ Temp: {:.0}°C • ⚡ Power: {}W • 🔧 GPU: {}MHz • 🧠 Mem: {}MHz",
            "12:34:56",
            gpu.utilization as f64 / 1000.0,
            (gpu.memory_used as f64 / gpu.memory_total as f64) * 100.0,
            gpu.memory_used as f64 / (1024.0 * 1024.0 * 1024.0),
            gpu.memory_total as f64 / (1024.0 * 1024.0 * 1024.0),
            gpu.temperature as f64 / 1000.0,
            gpu.power_draw.map_or("N/A".to_string(), |p| format!("{:.0}", p as f64 / 1000.0)),
            gpu.gpu_clock.map_or("N/A".to_string(), |c| c.to_string()),
            gpu.memory_clock.map_or("N/A".to_string(), |c| c.to_string())
        );
        assert_eq!(Screen::realtime_metrics(&gpu, "12:34:56"), expected);
    }
    assert_eq!(Screen::time_of_day_now().len(), 8);
    assert_eq!(Screen::time_of_day(i64::MAX), "--:--:--");
}

#[test]
fn panel_on_power_and_clocks() {
    for gpu in gpus() {
        let expected = format!(
            "⚡ POWER & CLOCKS\n\n🔥 Power Draw: {}W\n🔧 GPU Clock: {}MHz\n🧠 Memory Clock: {}MHz\n🌀 Fan Speed: {}%\n📊 Processes: {}\n🚦 Status: {}",
            gpu.power_draw.map_or("N/A".to_string(), |p| format!("{:.0}", p as f64 / 1000.0)),
            gpu.gpu_clock.map_or("N/A".to_string(), |c| c.to_string()),
            gpu.memory_clock.map_or("N/A".to_string(), |c| c.to_string()),
            gpu.fan_speed.map_or("Auto".to_string(), |f| format!("{:.0}", f as f64 / 1000.0)),
            7,
            if gpu.throttled { "🔴 Throttled" } else { "🟢 Normal" }
        );
        assert_eq!(Screen::power_and_clocks(&gpu, 7), expected);
    }
}

#[test]
fn page_on_the_hardware() {
    for gpu in gpus() {
        let expected = format!(
            "🖥️  GPU: {}\n🏭 Vendor: {:?}\n🚗 Driver Version: {}\n🎯 CUDA Version: {}\n🧠 Memory Total: {:.2} GB\n📊 Memory Used: {:.2} GB\n💿 Memory Free: {:.2} GB\n🌡️  Temperature: {:.0}°C\n🌀 Fan Speed: {}%\n⚡ Power Draw: {}W\n🔥 GPU Clock: {}MHz\n🧠 Memory Clock: {}MHz\n🚦 Throttled: {}",
            gpu.name,
            gpu.vendor,
            gpu.driver_version,
            gpu.cuda_version.clone().unwrap_or("N/A".to_string()),
            gpu.memory_total as f64 / (1024.0 * 1024.0 * 1024.0),
            gpu.memory_used as f64 / (1024.0 * 1024.0 * 1024.0),
            (gpu.memory_total - gpu.memory_used) as f64 / (1024.0 * 1024.0 * 1024.0),
            gpu.temperature as f64 / 1000.0,
            gpu.fan_speed.map_or("Auto".to_string(), |f| format!("{:.0}", f as f64 / 1000.0)),
            gpu.power_draw.map_or("N/A".to_string(), |p| format!("{:.0}", p as f64 / 1000.0)),
            gpu.gpu_clock.map_or("N/A".to_string(), |c| c.to_string()),
            gpu.memory_clock.map_or("N/A".to_string(), |c| c.to_string()),
            if gpu.throttled { "🔴 Yes" } else { "🟢 No" }
        );
        assert_eq!(Screen::hardware_details(&gpu), expected);
    }
    let mut odd = gpus().remove(0);
    odd.memory_used = odd.memory_total + 1;
    assert!(Screen::hardware_details(&odd).contains("Memory Free: 0.00 GB"));
}

#[test]
fn panels_on_health() {
    let health = health();
    assert_eq!(
        Screen::overall_health(&health),
        format!(
            "{}\n\n{} {}\n{:.0}/100\n\nUptime: {:.1}h",
            health.status.emoji(),
            health.status.emoji(),
            health.status.text(),
            health.overall_score as f32,
            health.uptime_minutes as f64 / 60.0
        )
    );
    assert_eq!(
        Screen::temperature_health(&health),
        format!(
            "🌡️ Temperature\n\n{} {}\n{:.0}°C\n\nTrend: {:+.1}°C/5min\nPeak: {:.0}°C",
            "🌡️",
            "High",
            health.temperature.current as f64 / 1000.0,
            health.temperature.trend_5min as f64 / 1000.0,
            health.temperature.peak_today as f64 / 1000.0
        )
    );
    assert_eq!(
        Screen::power_health(&health),
        format!(
            "⚡ Power\n\nCurrent: {:.0}W\nEfficiency: {:.1}\nAvg 1hr: {:.0}W\n\nSpikes: {}",
            health.power.current_draw as f64 / 1000.0,
            health.power.efficiency as f64 / 1000.0,
            health.power.avg_draw_1hr as f64 / 1000.0,
            health.power.power_spikes
        )
    );
    assert_eq!(
        Screen::memory_health(&health),
        format!(
            "🧠 Memory\n\n{} {}\nTrend: {:+.0}MB/min\n\nFragmentation: {:.0}%\nPeak: {:.1}GB",
            "🔴",
            "Leak Likely",
            health.memory.usage_trend as f64 / (1024.0 * 1024.0),
            health.memory.fragmentation_score as f64 / 10.0,
            health.memory.peak_usage_today as f64 / (1024.0 * 1024.0 * 1024.0)
        )
    );
    assert_eq!(
        Screen::detailed_metrics(&health),
        format!(
            "📊 DETAILED METRICS\n\n🌡️ TEMPERATURE:\n• Current: {:.1}°C\n• Safe Limit: {:.1}°C\n• Critical: {:.1}°C\n• Time >80°C: {}min\n\n⚡ POWER & PERFORMANCE:\n• Current Draw: {:.0}W\n• Efficiency: {:.2} util/W\n• Power Spikes: {}\n\n🧠 MEMORY HEALTH:\n• Usage Trend: {:+.0} MB/min\n• Fragmentation: {:.1}%\n• Leak Risk: {:.0}%\n\n🚦 SYSTEM STATUS:\n• Throttling: {}\n• Monitoring: {:.1}h",
            health.temperature.current as f64 / 1000.0,
            health.temperature.max_safe as f64 / 1000.0,
            health.temperature.critical as f64 / 1000.0,
            health.temperature.time_above_80c / 60,
            health.power.current_draw as f64 / 1000.0,
            health.power.efficiency as f64 / 1000.0,
            health.power.power_spikes,
            health.memory.usage_trend as f64 / (1024.0 * 1024.0),
            health.memory.fragmentation_score as f64 / 10.0,
            health.memory.leak_suspicion as f64 / 10.0,
            "🔴 Yes",
            health.uptime_minutes as f64 / 60.0
        )
    );
}

#[test]
fn panel_on_a_cool_and_healthy_device() {
    let mut health = health();
    health.temperature.current = 55_000;
    health.memory.leak_suspicion = 0;
    health.memory.usage_trend = -3 * 1024 * 1024;
    health.thermal_throttling_detected = false;
    assert!(Screen::temperature_health(&health).contains("❄️ Cool\n55°C"));
    assert!(Screen::memory_health(&health).contains("🟢 Healthy\nTrend: -3MB/min"));
    assert!(Screen::detailed_metrics(&health).contains("• Throttling: 🟢 No"));
    health.memory.usage_trend = 0;
    assert!(Screen::memory_health(&health).contains("Trend: +0MB/min"));
}

#[test]
fn list_of_recent_alerts() {
    assert_eq!(
        Screen::recent_alerts(&[]),
        "🟢 No recent alerts\n\nAll systems operating normally.\nHealth monitoring is active."
    );
    let a = alert(1_700_000_000_000, "GPU is thermal throttling - performance reduced");
    assert_eq!(
        Screen::alert_line(&a, "22:13:20"),
        format!(
            "{} [{}] {}",
            a.alert_type.emoji(),
            "22:13:20",
            a.message
        )
    );
    let alerts: Vec<HealthAlert> =
        (0..10).map(|i| alert(1_700_000_000_000 + i * 1000, &format!("alert {}", i))).collect();
    let mut lines = vec!["⚠️  Recent Alerts:\n".to_string()];
    for a in alerts.iter().take(8) {
        lines.push(Screen::alert_line(a, &Screen::time_of_day(a.timestamp)));
    }
    let text = Screen::recent_alerts(&alerts);
    assert_eq!(text, lines.join("\n"));
    assert_eq!(text.lines().count(), 10);
    assert!(text.contains("alert 7"));
    assert!(!text.contains("alert 8"));
    assert_eq!(Screen::recent_alerts(&alerts[..1]).lines().count(), 3);
}

#[test]
fn page_of_settings() {
    let mut settings = AppSettings::default();
    settings.health_thresholds.utilization_low = 12_340;
    settings.notification_settings.show_export_notifications = false;
    let expected = format!(
            "⚙️  GPUTop Settings Configuration\n\n📊 HEALTH THRESHOLDS:\nTemperature Warning:     {:.1}°C\nTemperature Critical:    {:.1}°C\nPower Warning:           {:.1}%\nPower Critical:          {:.1}%\nMemory Warning:          {:.1}%\nMemory Critical:         {:.1}%\nLow Utilization:         {:.1}%\nHigh Utilization:        {:.1}%\n\n🔔 NOTIFICATIONS:\nEnabled:                 {}\nMin Interval:            {}s\nExport Notifications:    {}\nProcess Notifications:   {}\n\n⏱️  PERFORMANCE:\nUpdate Interval:         {}ms\nMax History Points:      {}\n\n💾 ACTIONS:\ns = Save Settings    r = Reset to Defaults    Esc = Close\n\nSettings file: ~/.config/gputop/settings.json",
            settings.health_thresholds.temperature_warning as f64 / 1000.0,
            settings.health_thresholds.temperature_critical as f64 / 1000.0,
            settings.health_thresholds.power_warning as f64 / 1000.0,
            settings.health_thresholds.power_critical as f64 / 1000.0,
            settings.health_thresholds.memory_usage_warning as f64 / 1000.0,
            settings.health_thresholds.memory_usage_critical as f64 / 1000.0,
            settings.health_thresholds.utilization_low as f64 / 1000.0,
            settings.health_thresholds.utilization_high as f64 / 1000.0,
            "Yes",
            settings.notification_settings.min_interval_seconds,
            "No",
            "Yes",
            settings.update_interval_ms,
            settings.max_history_points
        );
    assert_eq!(Screen::settings_text(&settings), expected);
}

#[test]
fn line_of_the_command_palette() {
    assert_eq!(Screen::command_line("sort pid"), "❯ sort pid");
    assert_eq!(Screen::command_line(""), "❯ ");
}

fn details_by_floating_point(process: &GpuProcess, memory_total: Option<u64>) -> String {
    let memory_mb = process.memory_usage / (1024 * 1024);
    let memory_gb = memory_mb as f64 / 1024.0;
    let gpu_memory_pct = match memory_total {
        Some(total) => (process.memory_usage as f64 / total as f64) * 100.0,
        None => 0.0,
    };
    let container_info = if let Some(container) = &process.container_id {
        format!(
                "🐳 Container: {}",
                container
            )
    } else {
        "📦 Native Process".to_string()
    };
    let parent_info = if let Some(parent) = process.parent_pid {
        format!(
                "👨‍👩‍👧‍👦 Parent PID: {}",
                parent
            )
    } else {
        "🌱 Root Process".to_string()
    };
    format!(
            "📋 PROCESS DETAILS\n\n🔧 Command: {}\n🆔 PID: {}\n👤 User: {}\n{}\n{}\n\n📊 RESOURCE USAGE:\n⚡ GPU Usage: {:.1}%\n🧠 Memory Usage: {:.1}% ({:.1} GB / {} MB)\n🎥 Encoder Usage: {:.1}%\n📺 Decoder Usage: {:.1}%\n\n🔧 TECHNICAL INFO:\n🎯 Priority: {}\n📈 Context ID: {}\n\nPress ESC or Enter to close",
            process.command,
            process.pid,
            process.user,
            container_info,
            parent_info,
            process.gpu_usage as f64 / 1000.0,
            gpu_memory_pct,
            memory_gb,
            memory_mb,
            process.encoder_usage as f64 / 1000.0,
            process.decoder_usage as f64 / 1000.0,
            process.priority,
            process.context_id.map_or("N/A".to_string(), |id| id.to_string())
        )
}

#[test]
fn page_on_a_process() {
    let mut processes = ProcessManager::get_mock_processes();
    processes[0].parent_pid = None;
    processes[0].context_id = None;
    for process in &processes {
        for memory_total in [Some(8 * 1024 * 1024 * 1024u64), Some(3_000_000_000), None] {
            assert_eq!(
                Screen::process_details(process, memory_total),
                details_by_floating_point(process, memory_total)
            );
        }
    }
    assert_eq!(Screen::container_info(&processes[1]), "🐳 Container: docker-container-123");
    assert_eq!(Screen::container_info(&processes[0]), "📦 Native Process");
    assert_eq!(Screen::parent_info(&processes[0]), "🌱 Root Process");
    assert!(Screen::parent_info(&processes[2]).ends_with("Parent PID: 1"));
}

#[test]
fn row_of_a_process() {
    let processes = ProcessManager::get_mock_processes();
    assert_eq!(
        Screen::process_row(&processes[0], Some(8 * 1024 * 1024 * 1024)),
        vec!["1234", "user1", "🔴 85.2%", "37.5%", "3072MB", "0.0%", "0.0%", "python.exe"]
    );
    assert_eq!(
        Screen::process_row(&processes[1], None),
        vec!["5678", "user2", "🟡 65.8%", "0.0%", "1536MB", "0.0%", "0.0%", "🐳 blender.exe"]
    );
    assert_eq!(
        Screen::process_row(&processes[2], Some(0)),
        vec!["9012", "root", "🟢 25.3%", "inf%", "512MB", "45.0%", "0.0%", "ffmpeg.exe"]
    );
}

#[test]
fn rows_are_set_off() {
    assert_eq!(Screen::row_style(0, None), RowStyle::Shaded);
    assert_eq!(Screen::row_style(1, None), RowStyle::Plain);
    assert_eq!(Screen::row_style(2, Some(1)), RowStyle::Shaded);
    assert_eq!(Screen::row_style(1, Some(1)), RowStyle::Selected);
    assert_eq!(Screen::row_style(0, Some(0)), RowStyle::Selected);
}

#[test]
fn times_of_day_fall_back_to_dashes() {
    assert_eq!(Screen::time_of_day_or(Some(String::from("12:34:56"))), "12:34:56");
    assert_eq!(Screen::time_of_day_or(None), "--:--:--");
    assert_eq!(Screen::time_of_day(200_000_000_000_000_001), "--:--:--");
    assert_eq!(Screen::time_of_day(i64::MIN), "--:--:--");
    assert_eq!(Screen::time_of_day(0).len(), 8);
}
