//! What the user can set.

use vstd::prelude::*;

verus! {

/// Limits at which readings are flagged, in thousandths of the unit:
/// temperatures in degrees Celsius, the others in percent.
#[derive(Debug, Clone, Copy, PartialEq, Eq)]
pub struct HealthThresholds {
    pub temperature_warning: i32,
    pub temperature_critical: i32,
    /// Percent of the device's rated power.
    pub power_warning: u32,
    pub power_critical: u32,
    pub memory_usage_warning: u32,
    pub memory_usage_critical: u32,
    /// Below this an idle device is flagged.
    pub utilization_low: u32,
    /// Above this an overworked device is flagged.
    pub utilization_high: u32,
}

/// How notifications are given.
#[derive(Debug, Clone, Copy, PartialEq, Eq)]
pub struct NotificationSettings {
    pub enabled: bool,
    pub min_interval_seconds: u64,
    pub show_export_notifications: bool,
    pub show_process_notifications: bool,
}

/// All settings.
#[derive(Debug, Clone, Copy, PartialEq, Eq)]
pub struct AppSettings {
    pub health_thresholds: HealthThresholds,
    pub notification_settings: NotificationSettings,
    pub update_interval_ms: u64,
    pub max_history_points: usize,
}

/// The limits in place until the user sets others.
pub open spec fn default_thresholds() -> HealthThresholds {
    HealthThresholds {
        temperature_warning: 75_000,
        temperature_critical: 85_000,
        power_warning: 80_000,
        power_critical: 95_000,
        memory_usage_warning: 85_000,
        memory_usage_critical: 95_000,
        utilization_low: 10_000,
        utilization_high: 95_000,
    }
}

/// Notifications are given, ten seconds apart at least, until the user
/// says otherwise.
pub open spec fn default_notification_settings() -> NotificationSettings {
    NotificationSettings {
        enabled: true,
        min_interval_seconds: 10,
        show_export_notifications: true,
        show_process_notifications: true,
    }
}

/// The settings in place until the user sets others.
pub open spec fn default_settings() -> AppSettings {
    AppSettings {
        health_thresholds: default_thresholds(),
        notification_settings: default_notification_settings(),
        update_interval_ms: 1000,
        max_history_points: 300,
    }
}

impl Default for HealthThresholds {
    fn default() -> (thresholds: Self)
        ensures
            thresholds == default_thresholds(),
    {
        HealthThresholds {
            temperature_warning: 75_000,
            temperature_critical: 85_000,
            power_warning: 80_000,
            power_critical: 95_000,
            memory_usage_warning: 85_000,
            memory_usage_critical: 95_000,
            utilization_low: 10_000,
            utilization_high: 95_000,
        }
    }
}

impl Default for NotificationSettings {
    fn default() -> (settings: Self)
        ensures
            settings == default_notification_settings(),
    {
        NotificationSettings {
            enabled: true,
            min_interval_seconds: 10,
            show_export_notifications: true,
            show_process_notifications: true,
        }
    }
}

impl Default for AppSettings {
    fn default() -> (settings: Self)
        ensures
            settings == default_settings(),
    {
        AppSettings {
            health_thresholds: HealthThresholds::default(),
            notification_settings: NotificationSettings::default(),
            update_interval_ms: 1000,
            max_history_points: 300,
        }
    }
}

/// Keeper of the settings and of the place where they are stored. Reading
/// and writing that place is the caller's part.
pub struct SettingsManager {
    settings: AppSettings,
    config_path: String,
}

impl SettingsManager {
    /// The settings kept.
    pub closed spec fn settings(&self) -> AppSettings {
        self.settings
    }

    /// The place where the settings are stored.
    pub closed spec fn path(&self) -> Seq<char> {
        self.config_path@
    }

    /// A keeper of the given settings, stored at the given place.
    pub fn new(settings: AppSettings, config_path: String) -> (manager: Self)
        ensures
            manager.settings() == settings,
            manager.path() == config_path@,
    {
        SettingsManager { settings, config_path }
    }

    /// The settings kept.
    pub fn get_settings(&self) -> (settings: &AppSettings)
        ensures
            *settings == self.settings(),
    {
        &self.settings
    }

    /// The settings kept, to be changed in place.
    pub fn get_settings_mut(&mut self) -> (settings: &mut AppSettings)
        ensures
            *settings == old(self).settings(),
            final(self).settings() == *final(settings),
            final(self).path() == old(self).path(),
    {
        &mut self.settings
    }

    /// The place where the settings are stored.
    pub fn config_path(&self) -> (path: &str)
        ensures
            path@ == self.path(),
    {
        self.config_path.as_str()
    }

    /// Puts the default settings in place. They are yet to be written to
    /// where the settings are stored.
    pub fn reset_to_defaults(&mut self)
        ensures
            final(self).settings() == default_settings(),
            final(self).path() == old(self).path(),
    {
        self.settings = AppSettings::default();
    }
}

} // verus!
