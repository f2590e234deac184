//! The score: a weighted-penalty function of the derived metrics, and the
//! status tier that follows from score and alerts.

use crate::health::{
    AlertView, HealthAlert, HealthStatus, MemoryHealthMetrics, PowerMetrics, TemperatureMetrics,
    alert_views,
};
use crate::monitor::HealthMonitor;
use vstd::prelude::*;

verus! {

/// Points lost to the current temperature: only the highest band applies.
pub open spec fn temperature_penalty(current: int) -> nat {
    if current > 90_000 {
        30
    } else if current > 85_000 {
        20
    } else if current > 80_000 {
        10
    } else {
        0
    }
}

/// Points lost to a suspected leak: only the higher band applies.
pub open spec fn leak_penalty(leak_suspicion: int) -> nat {
    if leak_suspicion > 700 {
        20
    } else if leak_suspicion > 300 {
        10
    } else {
        0
    }
}

/// All points lost, each rule judged on its own.
pub open spec fn penalties(
    temp: TemperatureMetrics,
    power: PowerMetrics,
    memory: MemoryHealthMetrics,
    is_throttling: bool,
) -> nat {
    temperature_penalty(temp.current as int)
        + (if temp.trend_5min > 10_000 { 15nat } else { 0 })
        + (if temp.time_above_80c > 1800 { 10nat } else { 0 })
        + (if is_throttling { 25nat } else { 0 })
        + leak_penalty(memory.leak_suspicion as int)
        + (if memory.fragmentation_score > 700 { 15nat } else { 0 })
        + (if power.efficiency < 500 { 10nat } else { 0 })
        + (if power.power_spikes > 5 { 5nat } else { 0 })
}

/// A hundred points less the penalties, never below zero.
pub open spec fn score_of(
    temp: TemperatureMetrics,
    power: PowerMetrics,
    memory: MemoryHealthMetrics,
    is_throttling: bool,
) -> nat {
    let lost = penalties(temp, power, memory, is_throttling);
    if lost >= 100 {
        0
    } else {
        (100 - lost) as nat
    }
}

/// Whether some alert of the run carries the given severity.
pub open spec fn has_severity(alerts: Seq<AlertView>, severity: HealthStatus) -> bool {
    exists|i: int| 0 <= i < alerts.len() && (#[trigger] alerts[i]).severity == severity
}

/// The status tier: alerts come first, the score second.
pub open spec fn status_of(score: int, alerts: Seq<AlertView>) -> HealthStatus {
    if has_severity(alerts, HealthStatus::Critical) || score < 30 {
        HealthStatus::Critical
    } else if has_severity(alerts, HealthStatus::Warning) || score < 60 {
        HealthStatus::Warning
    } else if score < 85 {
        HealthStatus::Good
    } else {
        HealthStatus::Excellent
    }
}

/// Position of a level on the scale from best (0) to worst (3).
pub open spec fn severity_rank(status: HealthStatus) -> nat {
    match status {
        HealthStatus::Excellent => 0,
        HealthStatus::Good => 1,
        HealthStatus::Warning => 2,
        HealthStatus::Critical => 3,
    }
}

/// The penalties can add up to more than a hundred points; the score stays
/// within 0 and 100 all the same.
pub proof fn lemma_score_bounded(
    temp: TemperatureMetrics,
    power: PowerMetrics,
    memory: MemoryHealthMetrics,
    is_throttling: bool,
)
    ensures
        score_of(temp, power, memory, is_throttling) <= 100,
        penalties(temp, power, memory, is_throttling) <= 130,
        score_of(temp, power, memory, is_throttling) + penalties(
            temp,
            power,
            memory,
            is_throttling,
        ) >= 100,
{
}

/// A report is never better than its worst Warning or Critical alert: with
/// a Critical alert the status is Critical whatever the score, and with a
/// Warning alert it is Warning or Critical.
pub proof fn lemma_alerts_dominate(score: int, alerts: Seq<AlertView>, i: int)
    requires
        0 <= i < alerts.len(),
        alerts[i].severity == HealthStatus::Warning || alerts[i].severity
            == HealthStatus::Critical,
    ensures
        severity_rank(status_of(score, alerts)) >= severity_rank(alerts[i].severity),
        has_severity(alerts, HealthStatus::Critical) ==> status_of(score, alerts)
            == HealthStatus::Critical,
{
}

/// A lower score never gives a better status, the alerts being the same.
pub proof fn lemma_status_monotonic(lower: int, higher: int, alerts: Seq<AlertView>)
    requires
        lower <= higher,
    ensures
        severity_rank(status_of(lower, alerts)) >= severity_rank(status_of(higher, alerts)),
{
}

fn any_with_severity(alerts: &[HealthAlert], severity: HealthStatus) -> (found: bool)
    ensures
        found == has_severity(alert_views(alerts@), severity),
{
    let mut i: usize = 0;
    while i < alerts.len()
        invariant
            i <= alerts@.len(),
            forall|j: int| 0 <= j < i ==> alerts@[j].severity != severity,
        decreases alerts@.len() - i,
    {
        if alerts[i].severity == severity {
            assert(alert_views(alerts@)[i as int].severity == severity);
            return true;
        }
        i += 1;
    }
    assert forall|j: int| 0 <= j < alert_views(alerts@).len() implies (#[trigger] alert_views(
        alerts@,
    )[j]).severity != severity by {
        assert(alert_views(alerts@)[j] == alerts@[j]@);
    }
    false
}

impl HealthMonitor {
    /// The health score, in whole points from 0 to 100.
    pub fn calculate_overall_health_score(
        temp: &TemperatureMetrics,
        power: &PowerMetrics,
        memory: &MemoryHealthMetrics,
        is_throttling: bool,
    ) -> (score: u32)
        ensures
            score == score_of(*temp, *power, *memory, is_throttling),
            score <= 100,
    {
        let mut lost: u32 = 0;
        if temp.current > 90_000 {
            lost += 30;
        } else if temp.current > 85_000 {
            lost += 20;
        } else if temp.current > 80_000 {
            lost += 10;
        }
        if temp.trend_5min > 10_000 {
            lost += 15;
        }
        if temp.time_above_80c > 1800 {
            lost += 10;
        }
        if is_throttling {
            lost += 25;
        }
        if memory.leak_suspicion > 700 {
            lost += 20;
        } else if memory.leak_suspicion > 300 {
            lost += 10;
        }
        if memory.fragmentation_score > 700 {
            lost += 15;
        }
        if power.efficiency < 500 {
            lost += 10;
        }
        if power.power_spikes > 5 {
            lost += 5;
        }
        if lost >= 100 {
            0
        } else {
            100 - lost
        }
    }

    /// The status tier for a score and the alerts of the cycle. An alert of
    /// severity Critical or Warning outweighs the score.
    pub fn determine_health_status(score: u32, alerts: &[HealthAlert]) -> (status: HealthStatus)
        ensures
            status == status_of(score as int, alert_views(alerts@)),
            has_severity(alert_views(alerts@), HealthStatus::Critical) ==> status
                == HealthStatus::Critical,
    {
        let has_critical = any_with_severity(alerts, HealthStatus::Critical);
        let has_warning = any_with_severity(alerts, HealthStatus::Warning);
        if has_critical || score < 30 {
            HealthStatus::Critical
        } else if has_warning || score < 60 {
            HealthStatus::Warning
        } else if score < 85 {
            HealthStatus::Good
        } else {
            HealthStatus::Excellent
        }
    }
}

} // verus!
