//! The alert rules: from derived metrics and the throttling flag to the
//! alerts of one cycle, in the order temperature, power, memory, throttling.

use crate::decimal::{
    decimal, div_round_half_even, push_decimal, push_shortest_milli, push_with_places,
    round_half_even, shortest_milli, with_places,
};
use crate::health::{
    AlertType, AlertView, HealthAlert, HealthStatus, MemoryHealthMetrics, PowerMetrics,
    TemperatureMetrics, alert_views,
};
use crate::monitor::HealthMonitor;
use vstd::prelude::*;
use vstd::string::StringExecFns;

verus! {

/// A five-minute rise above this many thousandths of a degree raises an alert.
pub const RAPID_RISE: i64 = 15_000;

/// More spikes than this raise an alert.
pub const SPIKE_ALERT_COUNT: u32 = 10;

/// Leak suspicion above this many thousandths raises an alert.
pub const LEAK_ALERT_LEVEL: u32 = 800;

pub open spec fn critical_temperature_message(current: int) -> Seq<char> {
    "CRITICAL: GPU temperature "@ + shortest_milli(current) + "°C exceeds safe limits!"@
}

pub open spec fn high_temperature_message(current: int) -> Seq<char> {
    "WARNING: GPU temperature "@ + shortest_milli(current) + "°C is high"@
}

/// The rise is written in degrees with one decimal place.
pub open spec fn rapid_rise_message(trend: int) -> Seq<char>
    recommends
        trend >= 0,
{
    "Temperature rising rapidly (+"@ + with_places(round_half_even(trend as nat, 100), 1)
        + "°C in 5min)"@
}

pub open spec fn power_spike_message(spikes: nat) -> Seq<char> {
    "Detected "@ + decimal(spikes) + " power spikes - check power supply stability"@
}

pub open spec fn memory_leak_message() -> Seq<char> {
    "Possible memory leak detected - memory usage increasing steadily"@
}

pub open spec fn throttling_message() -> Seq<char> {
    "GPU is thermal throttling - performance reduced"@
}

/// The alert on the current temperature, if it has reached a limit: the
/// critical limit outranks the safe one.
pub open spec fn temperature_level_alerts(temp: TemperatureMetrics, timestamp: i64) -> Seq<
    AlertView,
> {
    if temp.current >= temp.critical {
        seq![
            AlertView {
                alert_type: AlertType::TemperatureCritical,
                message: critical_temperature_message(temp.current as int),
                severity: HealthStatus::Critical,
                timestamp,
                value: Some(temp.current as i64),
                threshold: Some(temp.critical as i64),
            },
        ]
    } else if temp.current >= temp.max_safe {
        seq![
            AlertView {
                alert_type: AlertType::TemperatureHigh,
                message: high_temperature_message(temp.current as int),
                severity: HealthStatus::Warning,
                timestamp,
                value: Some(temp.current as i64),
                threshold: Some(temp.max_safe as i64),
            },
        ]
    } else {
        Seq::empty()
    }
}

/// The alert on a rapid rise, if there is one.
pub open spec fn temperature_trend_alerts(temp: TemperatureMetrics, timestamp: i64) -> Seq<
    AlertView,
> {
    if temp.trend_5min > RAPID_RISE {
        seq![
            AlertView {
                alert_type: AlertType::TemperatureHigh,
                message: rapid_rise_message(temp.trend_5min as int),
                severity: HealthStatus::Warning,
                timestamp,
                value: Some(temp.trend_5min),
                threshold: Some(RAPID_RISE),
            },
        ]
    } else {
        Seq::empty()
    }
}

/// The temperature alerts of a cycle: level first, trend second.
pub open spec fn temperature_alerts(temp: TemperatureMetrics, timestamp: i64) -> Seq<AlertView> {
    temperature_level_alerts(temp, timestamp) + temperature_trend_alerts(temp, timestamp)
}

/// The alert on unstable power, where more spikes are counted than ten.
pub open spec fn power_alerts(power: PowerMetrics, timestamp: i64) -> Seq<AlertView> {
    if power.power_spikes > SPIKE_ALERT_COUNT {
        seq![
            AlertView {
                alert_type: AlertType::PowerSpike,
                message: power_spike_message(power.power_spikes as nat),
                severity: HealthStatus::Warning,
                timestamp,
                value: Some((power.power_spikes * 1000) as i64),
                threshold: Some((SPIKE_ALERT_COUNT * 1000) as i64),
            },
        ]
    } else {
        Seq::empty()
    }
}

/// The alert on a suspected leak, where the suspicion lies above eight
/// tenths.
pub open spec fn memory_alerts(memory: MemoryHealthMetrics, timestamp: i64) -> Seq<AlertView> {
    if memory.leak_suspicion > LEAK_ALERT_LEVEL {
        seq![
            AlertView {
                alert_type: AlertType::MemoryLeakSuspected,
                message: memory_leak_message(),
                severity: HealthStatus::Warning,
                timestamp,
                value: Some(memory.leak_suspicion as i64),
                threshold: Some(LEAK_ALERT_LEVEL as i64),
            },
        ]
    } else {
        Seq::empty()
    }
}

/// The alert on throttling, while the device throttles.
pub open spec fn throttling_alerts(is_throttling: bool, temperature: i32, timestamp: i64) -> Seq<
    AlertView,
> {
    if is_throttling {
        seq![
            AlertView {
                alert_type: AlertType::ThermalThrottling,
                message: throttling_message(),
                severity: HealthStatus::Warning,
                timestamp,
                value: Some(temperature as i64),
                threshold: Some(83_000i64),
            },
        ]
    } else {
        Seq::empty()
    }
}

/// Every alert of one cycle, in the order in which consumers show them.
pub open spec fn cycle_alerts(
    temp: TemperatureMetrics,
    power: PowerMetrics,
    memory: MemoryHealthMetrics,
    is_throttling: bool,
    timestamp: i64,
) -> Seq<AlertView> {
    temperature_alerts(temp, timestamp) + power_alerts(power, timestamp) + memory_alerts(
        memory,
        timestamp,
    ) + throttling_alerts(is_throttling, temp.current, timestamp)
}

/// Only a Warning or Critical severity is ever assigned, and a Critical one
/// exactly when the current temperature has reached the critical limit.
pub proof fn lemma_cycle_alert_severities(
    temp: TemperatureMetrics,
    power: PowerMetrics,
    memory: MemoryHealthMetrics,
    is_throttling: bool,
    timestamp: i64,
)
    ensures
        forall|i: int|
            0 <= i < cycle_alerts(temp, power, memory, is_throttling, timestamp).len() ==> {
                let a = #[trigger] cycle_alerts(temp, power, memory, is_throttling, timestamp)[i];
                &&& a.severity == HealthStatus::Warning || a.severity == HealthStatus::Critical
                &&& a.timestamp == timestamp
                &&& a.severity == HealthStatus::Critical ==> i == 0 && temp.current
                    >= temp.critical
            },
        temp.current >= temp.critical ==> cycle_alerts(
            temp,
            power,
            memory,
            is_throttling,
            timestamp,
        ).len() > 0 && cycle_alerts(temp, power, memory, is_throttling, timestamp)[0].alert_type
            == AlertType::TemperatureCritical && cycle_alerts(
            temp,
            power,
            memory,
            is_throttling,
            timestamp,
        )[0].severity == HealthStatus::Critical,
        cycle_alerts(temp, power, memory, is_throttling, timestamp).len() <= 5,
{
}

fn push_alert(alerts: &mut Vec<HealthAlert>, alert: HealthAlert)
    ensures
        final(alerts)@ == old(alerts)@.push(alert),
        alert_views(final(alerts)@) == alert_views(old(alerts)@).push(alert@),
{
    alerts.push(alert);
    assert(alert_views(alerts@) =~= alert_views(old(alerts)@).push(alert@));
}

impl HealthMonitor {
    /// Appends the temperature alerts that the metrics call for.
    pub fn check_temperature_alerts(
        temp: &TemperatureMetrics,
        timestamp: i64,
        alerts: &mut Vec<HealthAlert>,
    )
        ensures
            alert_views(final(alerts)@) == alert_views(old(alerts)@) + temperature_alerts(
                *temp,
                timestamp,
            ),
    {
        if temp.current >= temp.critical {
            let mut message = String::from_str("CRITICAL: GPU temperature ");
            push_shortest_milli(&mut message, temp.current as i64);
            message.append("°C exceeds safe limits!");
            push_alert(
                alerts,
                HealthAlert {
                    alert_type: AlertType::TemperatureCritical,
                    message,
                    severity: HealthStatus::Critical,
                    timestamp,
                    value: Some(temp.current as i64),
                    threshold: Some(temp.critical as i64),
                },
            );
        } else if temp.current >= temp.max_safe {
            let mut message = String::from_str("WARNING: GPU temperature ");
            push_shortest_milli(&mut message, temp.current as i64);
            message.append("°C is high");
            push_alert(
                alerts,
                HealthAlert {
                    alert_type: AlertType::TemperatureHigh,
                    message,
                    severity: HealthStatus::Warning,
                    timestamp,
                    value: Some(temp.current as i64),
                    threshold: Some(temp.max_safe as i64),
                },
            );
        }
        let ghost after_level = alert_views(alerts@);
        assert(after_level =~= alert_views(old(alerts)@) + temperature_level_alerts(
            *temp,
            timestamp,
        ));
        if temp.trend_5min > RAPID_RISE {
            let mut message = String::from_str("Temperature rising rapidly (+");
            let tenths = div_round_half_even(temp.trend_5min as u128, 100);
            push_with_places(&mut message, tenths, 1);
            message.append("°C in 5min)");
            push_alert(
                alerts,
                HealthAlert {
                    alert_type: AlertType::TemperatureHigh,
                    message,
                    severity: HealthStatus::Warning,
                    timestamp,
                    value: Some(temp.trend_5min),
                    threshold: Some(RAPID_RISE),
                },
            );
        }
        assert(alert_views(alerts@) =~= after_level + temperature_trend_alerts(*temp, timestamp));
        assert(alert_views(alerts@) =~= alert_views(old(alerts)@) + temperature_alerts(
            *temp,
            timestamp,
        ));
    }

    /// Appends the power alert, if the spike count calls for one.
    pub fn check_power_alerts(power: &PowerMetrics, timestamp: i64, alerts: &mut Vec<HealthAlert>)
        ensures
            alert_views(final(alerts)@) == alert_views(old(alerts)@) + power_alerts(
                *power,
                timestamp,
            ),
    {
        if power.power_spikes > SPIKE_ALERT_COUNT {
            let mut message = String::from_str("Detected ");
            push_decimal(&mut message, power.power_spikes as u128);
            message.append(" power spikes - check power supply stability");
            push_alert(
                alerts,
                HealthAlert {
                    alert_type: AlertType::PowerSpike,
                    message,
                    severity: HealthStatus::Warning,
                    timestamp,
                    value: Some(power.power_spikes as i64 * 1000),
                    threshold: Some(SPIKE_ALERT_COUNT as i64 * 1000),
                },
            );
        }
        assert(alert_views(alerts@) =~= alert_views(old(alerts)@) + power_alerts(
            *power,
            timestamp,
        ));
    }

    /// Appends the memory alert, if the leak suspicion calls for one.
    pub fn check_memory_alerts(
        memory: &MemoryHealthMetrics,
        timestamp: i64,
        alerts: &mut Vec<HealthAlert>,
    )
        ensures
            alert_views(final(alerts)@) == alert_views(old(alerts)@) + memory_alerts(
                *memory,
                timestamp,
            ),
    {
        if memory.leak_suspicion > LEAK_ALERT_LEVEL {
            push_alert(
                alerts,
                HealthAlert {
                    alert_type: AlertType::MemoryLeakSuspected,
                    message: String::from_str(
                        "Possible memory leak detected - memory usage increasing steadily",
                    ),
                    severity: HealthStatus::Warning,
                    timestamp,
                    value: Some(memory.leak_suspicion as i64),
                    threshold: Some(LEAK_ALERT_LEVEL as i64),
                },
            );
        }
        assert(alert_views(alerts@) =~= alert_views(old(alerts)@) + memory_alerts(
            *memory,
            timestamp,
        ));
    }

    /// Appends the throttling alert while the device throttles.
    pub fn check_throttling_alert(
        is_throttling: bool,
        temperature: i32,
        timestamp: i64,
        alerts: &mut Vec<HealthAlert>,
    )
        ensures
            alert_views(final(alerts)@) == alert_views(old(alerts)@) + throttling_alerts(
                is_throttling,
                temperature,
                timestamp,
            ),
    {
        if is_throttling {
            push_alert(
                alerts,
                HealthAlert {
                    alert_type: AlertType::ThermalThrottling,
                    message: String::from_str("GPU is thermal throttling - performance reduced"),
                    severity: HealthStatus::Warning,
                    timestamp,
                    value: Some(temperature as i64),
                    threshold: Some(83_000),
                },
            );
        }
        assert(alert_views(alerts@) =~= alert_views(old(alerts)@) + throttling_alerts(
            is_throttling,
            temperature,
            timestamp,
        ));
    }

    /// The alerts of one cycle. Nothing but the arguments decides them.
    pub fn generate_alerts(
        temp: &TemperatureMetrics,
        power: &PowerMetrics,
        memory: &MemoryHealthMetrics,
        is_throttling: bool,
        timestamp: i64,
    ) -> (alerts: Vec<HealthAlert>)
        ensures
            alert_views(alerts@) == cycle_alerts(*temp, *power, *memory, is_throttling, timestamp),
    {
        let mut alerts: Vec<HealthAlert> = Vec::new();
        assert(alert_views(alerts@) =~= Seq::<AlertView>::empty());
        Self::check_temperature_alerts(temp, timestamp, &mut alerts);
        Self::check_power_alerts(power, timestamp, &mut alerts);
        Self::check_memory_alerts(memory, timestamp, &mut alerts);
        Self::check_throttling_alert(is_throttling, temp.current, timestamp, &mut alerts);
        assert(alert_views(alerts@) =~= cycle_alerts(
            *temp,
            *power,
            *memory,
            is_throttling,
            timestamp,
        ));
        alerts
    }
}

} // verus!
