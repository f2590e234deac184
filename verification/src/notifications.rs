//! Notifications: what is said to the user about alerts, exports and
//! terminated processes, and how often. Delivering a notification is left
//! to the caller.

use crate::decimal::{decimal, push_decimal};
use crate::health::{HealthAlert, HealthStatus};
use std::time::{Duration, Instant};
use vstd::prelude::*;
use vstd::string::StringExecFns;

verus! {

/// `std::time::Instant`: a reading of the monotonic clock, opaque here.
#[verifier::external_type_specification]
#[verifier::external_body]
pub struct ExInstant(Instant);

/// `Instant::now`: the current reading of the monotonic clock.
pub assume_specification[ Instant::now ]() -> (now: Instant)
;

/// `Instant::elapsed`: the time gone by since the instant was read.
pub assume_specification[ Instant::elapsed ](instant: &Instant) -> (gone: Duration)
;

/// `Duration::as_nanos`: the duration in whole nanoseconds.
pub assume_specification[ Duration::as_nanos ](duration: &Duration) -> (nanos: u128)
;

/// The least time between two notifications: ten seconds, in nanoseconds.
pub const MIN_INTERVAL_NANOS: u128 = 10_000_000_000;

/// A message for the user.
#[derive(Debug, Clone, PartialEq, Eq)]
pub struct Notification {
    pub title: String,
    pub message: String,
    pub icon: String,
}

/// A notification with its texts as sequences of characters.
pub struct NotificationView {
    pub title: Seq<char>,
    pub message: Seq<char>,
    pub icon: Seq<char>,
}

impl View for Notification {
    type V = NotificationView;

    open spec fn view(&self) -> NotificationView {
        NotificationView { title: self.title@, message: self.message@, icon: self.icon@ }
    }
}

/// Composes the notifications.
pub struct NotificationManager;

/// The notification about an alert: only a Warning or a Critical alert is
/// worth one.
pub open spec fn health_alert_notification(alert_severity: HealthStatus, message: Seq<char>)
    -> Option<NotificationView> {
    match alert_severity {
        HealthStatus::Warning | HealthStatus::Critical => Some(
            NotificationView {
                title: "GPUTop Health Alert - "@ + alert_severity.spec_text(),
                message,
                icon: alert_severity.spec_emoji(),
            },
        ),
        _ => None,
    }
}

pub open spec fn export_success_notification(filename: Seq<char>) -> NotificationView {
    NotificationView {
        title: "GPUTop Export Complete"@,
        message: "Data exported to: "@ + filename,
        icon: "✅"@,
    }
}

pub open spec fn export_error_notification(error: Seq<char>) -> NotificationView {
    NotificationView {
        title: "GPUTop Export Failed"@,
        message: "Export error: "@ + error,
        icon: "❌"@,
    }
}

pub open spec fn process_killed_notification(process_name: Seq<char>, pid: u32)
    -> NotificationView {
    NotificationView {
        title: "GPUTop Process Terminated"@,
        message: "Killed process: "@ + process_name + " (PID: "@ + decimal(pid as nat) + ")"@,
        icon: "🛑"@,
    }
}

pub open spec fn test_notification_view() -> NotificationView {
    NotificationView {
        title: "GPUTop Test Notification"@,
        message: "Notifications are working correctly!"@,
        icon: "🧪"@,
    }
}

/// The line that stands for a notification on a console.
pub open spec fn console_line(notification: NotificationView) -> Seq<char> {
    "📢 "@ + notification.title + " - "@ + notification.message
}

impl NotificationManager {
    /// A composer of notifications.
    pub fn new() -> (manager: Self) {
        NotificationManager
    }

    /// The notification about an alert, if its severity calls for one.
    pub fn send_health_alert(&self, alert: &HealthAlert) -> (notification: Option<Notification>)
        ensures
            match notification {
                Some(n) => Some(n@),
                None => None,
            } == health_alert_notification(alert.severity, alert.message@),
    {
        match alert.severity {
            HealthStatus::Warning | HealthStatus::Critical => {
                let mut title = String::from_str("GPUTop Health Alert - ");
                title.append(alert.severity.text());
                Some(
                    Notification {
                        title,
                        message: alert.message.clone(),
                        icon: String::from_str(self.get_alert_icon(&alert.severity)),
                    },
                )
            },
            _ => None,
        }
    }

    /// The notification that an export has been written to `filename`.
    pub fn send_export_success(&self, filename: &str) -> (notification: Notification)
        ensures
            notification@ == export_success_notification(filename@),
    {
        let mut message = String::from_str("Data exported to: ");
        message.append(filename);
        Notification {
            title: String::from_str("GPUTop Export Complete"),
            message,
            icon: String::from_str("✅"),
        }
    }

    /// The notification that an export has failed with `error`.
    pub fn send_export_error(&self, error: &str) -> (notification: Notification)
        ensures
            notification@ == export_error_notification(error@),
    {
        let mut message = String::from_str("Export error: ");
        message.append(error);
        Notification {
            title: String::from_str("GPUTop Export Failed"),
            message,
            icon: String::from_str("❌"),
        }
    }

    /// The notification that a process has been terminated.
    pub fn send_process_killed(&self, process_name: &str, pid: u32) -> (notification: Notification)
        ensures
            notification@ == process_killed_notification(process_name@, pid),
    {
        let mut message = String::from_str("Killed process: ");
        message.append(process_name);
        message.append(" (PID: ");
        push_decimal(&mut message, pid as u128);
        message.append(")");
        Notification {
            title: String::from_str("GPUTop Process Terminated"),
            message,
            icon: String::from_str("🛑"),
        }
    }

    /// The coloured dot for a severity.
    pub fn get_alert_icon(&self, severity: &HealthStatus) -> (icon: &'static str)
        ensures
            icon@ == severity.spec_emoji(),
    {
        severity.emoji()
    }

    /// A notification that says that notifications work.
    pub fn test_notification(&self) -> (notification: Notification)
        ensures
            notification@ == test_notification_view(),
    {
        Notification {
            title: String::from_str("GPUTop Test Notification"),
            message: String::from_str("Notifications are working correctly!"),
            icon: String::from_str("🧪"),
        }
    }

    /// The line that stands for a notification where there is no desktop to
    /// show it on.
    pub fn console_text(notification: &Notification) -> (line: String)
        ensures
            line@ == console_line(notification@),
    {
        let mut line = String::from_str("📢 ");
        line.append(notification.title.as_str());
        line.append(" - ");
        line.append(notification.message.as_str());
        line
    }
}

/// Whether `due` and `last_after` are what a queue answers and remembers
/// when it is asked `now` nanoseconds after it was made, its last
/// notification having been sent at `last` and its least interval being
/// `interval`: a notification is due once the interval has passed, and one
/// that is due counts as sent.
pub open spec fn answered_at(last: u128, interval: u128, now: u128, due: bool, last_after: u128)
    -> bool {
    &&& due == (now - last >= interval)
    &&& last_after == if due {
        now
    } else {
        last
    }
}

/// Keeps notifications apart: none is due until the least interval has
/// passed since the last one, or since the queue was made.
pub struct NotificationQueue {
    created: Instant,
    last_notification: u128,
    min_interval: u128,
}

impl NotificationQueue {
    /// When the last notification was sent, in nanoseconds since the queue
    /// was made; zero before the first.
    pub closed spec fn last_sent(&self) -> u128 {
        self.last_notification
    }

    /// The least time between two notifications, in nanoseconds.
    pub closed spec fn interval(&self) -> u128 {
        self.min_interval
    }

    /// A queue made now, with the least interval of ten seconds.
    pub fn new() -> (queue: Self)
        ensures
            queue.last_sent() == 0,
            queue.interval() == MIN_INTERVAL_NANOS,
    {
        NotificationQueue {
            created: Instant::now(),
            last_notification: 0,
            min_interval: MIN_INTERVAL_NANOS,
        }
    }

    /// Whether a notification is due `now` nanoseconds after the queue was
    /// made: it is once the least interval has passed since the last one.
    /// A notification that is due counts as sent.
    pub fn should_send_at(&mut self, now: u128) -> (due: bool)
        ensures
            due == (now - old(self).last_sent() >= old(self).interval()),
            final(self).last_sent() == if due {
                now
            } else {
                old(self).last_sent()
            },
            final(self).interval() == old(self).interval(),
    {
        if now >= self.last_notification && now - self.last_notification >= self.min_interval {
            self.last_notification = now;
            true
        } else {
            false
        }
    }

    /// Whether a notification is due now, by the monotonic clock. A
    /// notification that is due counts as sent. Whatever the clock shows,
    /// the answer and what the queue remembers are those of `should_send_at`
    /// for some reading of it; so a queue without an interval that has sent
    /// nothing yet always answers that one is due.
    pub fn should_send_notification(&mut self) -> (due: bool)
        ensures
            exists|now: u128|
                answered_at(
                    old(self).last_sent(),
                    old(self).interval(),
                    now,
                    due,
                    final(self).last_sent(),
                ),
            final(self).interval() == old(self).interval(),
            !due ==> final(self).last_sent() == old(self).last_sent(),
            due ==> final(self).last_sent() - old(self).last_sent() >= old(self).interval(),
            old(self).interval() == 0 && old(self).last_sent() == 0 ==> due,
    {
        let now = self.created.elapsed().as_nanos();
        let due = self.should_send_at(now);
        assert(answered_at(
            old(self).last_sent(),
            old(self).interval(),
            now,
            due,
            self.last_sent(),
        ));
        due
    }
}

} // verus!
