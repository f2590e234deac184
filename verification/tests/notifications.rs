use gputop::health::{AlertType, HealthAlert, HealthStatus};
use gputop::notifications::{Notification, NotificationManager, NotificationQueue};

fn alert(severity: HealthStatus) -> HealthAlert {
    HealthAlert {
        alert_type: AlertType::TemperatureHigh,
        message: String::from("WARNING: GPU temperature 81°C is high"),
        severity,
        timestamp: 0,
        value: Some(81_000),
        threshold: Some(80_000),
    }
}

#[test]
fn warning_and_critical_alerts_are_notified() {
    let manager = NotificationManager::new();
    let n = manager.send_health_alert(&alert(HealthStatus::Warning)).unwrap();
    assert_eq!(n.title, "GPUTop Health Alert - Warning");
    assert_eq!(n.message, "WARNING: GPU temperature 81°C is high");
    assert_eq!(n.icon, "🟡");
    let n = manager.send_health_alert(&alert(HealthStatus::Critical)).unwrap();
    assert_eq!(n.title, "GPUTop Health Alert - Critical");
    assert_eq!(n.icon, "🔴");
}

#[test]
fn mild_alerts_are_not_notified() {
    let manager = NotificationManager::new();
    assert_eq!(manager.send_health_alert(&alert(HealthStatus::Good)), None);
    assert_eq!(manager.send_health_alert(&alert(HealthStatus::Excellent)), None);
}

#[test]
fn export_notifications_name_the_file_or_the_error() {
    let manager = NotificationManager::new();
    assert_eq!(
        manager.send_export_success("gputop_snapshot.csv"),
        Notification {
            title: String::from("GPUTop Export Complete"),
            message: String::from("Data exported to: gputop_snapshot.csv"),
            icon: String::from("✅"),
        }
    );
    assert_eq!(
        manager.send_export_error("disk full"),
        Notification {
            title: String::from("GPUTop Export Failed"),
            message: String::from("Export error: disk full"),
            icon: String::from("❌"),
        }
    );
}

#[test]
fn process_notification_names_the_process() {
    let manager = NotificationManager::new();
    let n = manager.send_process_killed("blender.exe", 5678);
    assert_eq!(n.title, "GPUTop Process Terminated");
    assert_eq!(n.message, "Killed process: blender.exe (PID: 5678)");
    assert_eq!(n.icon, "🛑");
    assert_eq!(manager.send_process_killed("x", 0).message, "Killed process: x (PID: 0)");
    assert_eq!(
        manager.send_process_killed("x", u32::MAX).message,
        "Killed process: x (PID: 4294967295)"
    );
}

#[test]
fn test_notification_says_that_notifications_work() {
    let n = NotificationManager::new().test_notification();
    assert_eq!(n.title, "GPUTop Test Notification");
    assert_eq!(n.message, "Notifications are working correctly!");
    assert_eq!(n.icon, "🧪");
}

#[test]
fn alert_icons_follow_severity() {
    let manager = NotificationManager::new();
    assert_eq!(manager.get_alert_icon(&HealthStatus::Excellent), "🟢");
    assert_eq!(manager.get_alert_icon(&HealthStatus::Good), "🔵");
    assert_eq!(manager.get_alert_icon(&HealthStatus::Warning), "🟡");
    assert_eq!(manager.get_alert_icon(&HealthStatus::Critical), "🔴");
}

#[test]
fn console_line_joins_title_and_message() {
    let n = NotificationManager::new().test_notification();
    assert_eq!(
        NotificationManager::console_text(&n),
        "📢 GPUTop Test Notification - Notifications are working correctly!"
    );
}

#[test]
fn queue_waits_ten_seconds_between_notifications() {
    let second: u128 = 1_000_000_000;
    let mut queue = NotificationQueue::new();
    assert!(!queue.should_send_at(0));
    assert!(!queue.should_send_at(10 * second - 1));
    assert!(queue.should_send_at(10 * second));
    assert!(!queue.should_send_at(10 * second));
    assert!(!queue.should_send_at(15 * second));
    assert!(!queue.should_send_at(20 * second - 1));
    assert!(queue.should_send_at(25 * second));
    // A reading from before the last notification is never due.
    assert!(!queue.should_send_at(second));
    assert!(queue.should_send_at(35 * second));
}

#[test]
fn fresh_queue_is_not_due_at_once() {
    let mut queue = NotificationQueue::new();
    assert!(!queue.should_send_notification());
    assert!(!queue.should_send_notification());
}
