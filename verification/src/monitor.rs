//! The monitor: owner of the sample window and of the alert history, and
//! driver of one analysis cycle per sample.

use crate::alerts::{cycle_alerts, lemma_cycle_alert_severities};
use crate::clock::{local_day_start, wall_clock_millis, CALENDAR_RANGE_MS};
use crate::health::{
    alert_views, sample_of, AlertType, AlertView, GpuHealthMetrics, HealthAlert, HealthStatus,
    Reading, ReportView, Sample,
};
use crate::memory::{memory_metrics, peak_usage_since};
use crate::power::{lemma_power_spikes_bounded, power_metrics, spikes_between, total_draw};
use crate::score::{score_of, status_of};
use crate::temperature::{
    count_above, peak_temperature_since, temperature_metrics, CRITICAL_TEMPERATURE,
    MAX_SAFE_TEMPERATURE,
};
use crate::window::{appended, keep_newest, RollingWindow};
use vstd::prelude::*;

verus! {

/// Samples kept unless another number is asked for: an hour at one sample
/// a second.
pub const WINDOW_CAPACITY: usize = 3600;

/// Alerts kept in the history unless another number is asked for.
pub const ALERT_CAPACITY: usize = 100;

/// Milliseconds in a minute.
pub const MINUTE_MS: i64 = 60_000;

/// Turns a stream of samples into health reports, one per sample.
pub struct HealthMonitor {
    pub(crate) history_window: RollingWindow<Sample>,
    pub(crate) alert_history: RollingWindow<HealthAlert>,
    pub(crate) monitoring_start: i64,
}

/// What a monitor holds.
pub struct MonitorView {
    /// The samples of the window, oldest first.
    pub samples: Seq<Sample>,
    /// The alerts remembered, oldest first.
    pub alert_log: Seq<AlertView>,
    /// The instant at which monitoring began.
    pub started_at: i64,
    /// The most samples that the window holds.
    pub window_capacity: nat,
    /// The most alerts that are remembered.
    pub alert_capacity: nat,
}

/// Whether no sample is older than the one before it.
pub open spec fn chronological(samples: Seq<Sample>) -> bool {
    forall|i: int, j: int|
        0 <= i <= j < samples.len() ==> samples[i].timestamp <= samples[j].timestamp
}

/// Whether no sample is older than `start`.
pub open spec fn none_before(samples: Seq<Sample>, start: i64) -> bool {
    forall|i: int| 0 <= i < samples.len() ==> (#[trigger] samples[i]).timestamp >= start
}

/// The timestamp of the sample that arrives when the clock shows `now`: the
/// monitor's time never runs backwards, so it is `now` unless monitoring
/// began later or the newest sample is later.
pub open spec fn sample_time(before: MonitorView, now: i64) -> i64 {
    let floor = if before.samples.len() > 0 && before.samples.last().timestamp
        > before.started_at {
        before.samples.last().timestamp
    } else {
        before.started_at
    };
    if now > floor {
        now
    } else {
        floor
    }
}

/// Whole minutes from `started_at` to `timestamp`.
pub open spec fn uptime_minutes(started_at: i64, timestamp: i64) -> int {
    (timestamp - started_at) / (MINUTE_MS as int)
}

/// The report on a sample that has just entered the window: the three
/// analyzers, then the alert rules and the score over what they derived.
pub open spec fn report_of(samples: Seq<Sample>, sample: Sample, day_start: i64, started_at: i64)
    -> ReportView {
    let temperature = temperature_metrics(samples, sample, day_start as int);
    let power = power_metrics(samples, sample);
    let memory = memory_metrics(samples, sample, day_start as int);
    let alerts = cycle_alerts(temperature, power, memory, sample.is_throttling, sample.timestamp);
    let score = score_of(temperature, power, memory, sample.is_throttling);
    ReportView {
        overall_score: score as u32,
        status: status_of(score as int, alerts),
        temperature,
        power,
        memory,
        thermal_throttling_detected: sample.is_throttling,
        uptime_minutes: uptime_minutes(started_at, sample.timestamp) as u64,
        alerts,
    }
}

/// What the monitor holds after the cycle for a reading taken at `now`.
pub open spec fn state_after(before: MonitorView, now: i64, day_start: i64, reading: Reading)
    -> MonitorView {
    let sample = sample_of(reading, sample_time(before, now));
    let samples = appended(before.samples, before.window_capacity, sample);
    MonitorView {
        samples,
        alert_log: keep_newest(
            before.alert_log + report_of(samples, sample, day_start, before.started_at).alerts,
            before.alert_capacity,
        ),
        ..before
    }
}

/// What the cycle for a reading taken at `now` reports.
pub open spec fn report_after(before: MonitorView, now: i64, day_start: i64, reading: Reading)
    -> ReportView {
    let sample = sample_of(reading, sample_time(before, now));
    report_of(
        appended(before.samples, before.window_capacity, sample),
        sample,
        day_start,
        before.started_at,
    )
}

/// Whether `after` and `report` are the outcome of the cycle for a reading
/// taken at `now` on a day that began at `day_start`.
pub open spec fn cycle_at(
    before: MonitorView,
    now: i64,
    day_start: i64,
    reading: Reading,
    after: MonitorView,
    report: ReportView,
) -> bool {
    &&& after == state_after(before, now, day_start, reading)
    &&& report == report_after(before, now, day_start, reading)
}

/// The newest `limit` alerts of the log, newest first.
pub open spec fn recent_alerts(alert_log: Seq<AlertView>, limit: nat) -> Seq<AlertView> {
    Seq::new(
        if limit < alert_log.len() {
            limit
        } else {
            alert_log.len()
        },
        |i: int| alert_log[alert_log.len() - 1 - i],
    )
}

/// The recent alerts are the newest of the log, newest first, as many as
/// asked for or as the log holds; they depend on nothing but the log and the
/// limit, and a greater limit only adds older alerts at the end.
pub proof fn lemma_recent_alerts(alert_log: Seq<AlertView>, limit: nat, more: nat)
    requires
        limit <= more,
    ensures
        recent_alerts(alert_log, limit).len() == if limit < alert_log.len() {
            limit
        } else {
            alert_log.len()
        },
        forall|i: int|
            0 <= i < recent_alerts(alert_log, limit).len() ==> #[trigger] recent_alerts(
                alert_log,
                limit,
            )[i] == alert_log[alert_log.len() - 1 - i],
        recent_alerts(alert_log, limit) == recent_alerts(alert_log, more).take(
            recent_alerts(alert_log, limit).len() as int,
        ),
{
    assert(recent_alerts(alert_log, limit) =~= recent_alerts(alert_log, more).take(
        recent_alerts(alert_log, limit).len() as int,
    ));
}

/// A window in time order stays in time order when a sample no older than
/// its newest arrives, and none of its samples is older than before.
pub proof fn lemma_appended_chronological(
    samples: Seq<Sample>,
    capacity: nat,
    sample: Sample,
    start: i64,
)
    requires
        chronological(samples),
        none_before(samples, start),
        sample.timestamp >= start,
        samples.len() > 0 ==> sample.timestamp >= samples.last().timestamp,
    ensures
        chronological(appended(samples, capacity, sample)),
        none_before(appended(samples, capacity, sample), start),
{
    let pushed = samples.push(sample);
    assert forall|i: int, j: int| 0 <= i <= j < pushed.len() implies pushed[i].timestamp
        <= pushed[j].timestamp by {
        if j == samples.len() && i < j {
            assert(samples[i].timestamp <= samples.last().timestamp);
        }
    }
}

/// The cycle keeps the monitor in order: the window stays within its
/// capacity and in time order, no sample is older than the start of
/// monitoring, and the history stays within its capacity.
pub proof fn lemma_cycle_keeps_order(
    before: MonitorView,
    now: i64,
    day_start: i64,
    reading: Reading,
)
    requires
        chronological(before.samples),
        none_before(before.samples, before.started_at),
    ensures
        chronological(state_after(before, now, day_start, reading).samples),
        none_before(state_after(before, now, day_start, reading).samples, before.started_at),
        state_after(before, now, day_start, reading).samples.len() <= before.window_capacity,
        state_after(before, now, day_start, reading).alert_log.len() <= before.alert_capacity,
        before.window_capacity > 0 ==> state_after(before, now, day_start, reading).samples.len()
            > 0 && state_after(before, now, day_start, reading).samples.last() == sample_of(
            reading,
            sample_time(before, now),
        ),
{
    let sample = sample_of(reading, sample_time(before, now));
    lemma_appended_chronological(before.samples, before.window_capacity, sample, before.started_at);
}

/// A sample at or above the critical temperature makes the report
/// Critical whatever else holds: its first alert is the critical one, and
/// above the critical temperature the score has lost thirty points at
/// least.
pub proof fn lemma_critical_temperature_report(
    samples: Seq<Sample>,
    sample: Sample,
    day_start: i64,
    started_at: i64,
)
    requires
        sample.temperature >= CRITICAL_TEMPERATURE,
    ensures
        report_of(samples, sample, day_start, started_at).status == HealthStatus::Critical,
        report_of(samples, sample, day_start, started_at).alerts.len() > 0,
        report_of(samples, sample, day_start, started_at).alerts[0].alert_type
            == AlertType::TemperatureCritical,
        report_of(samples, sample, day_start, started_at).alerts[0].severity
            == HealthStatus::Critical,
        sample.temperature > CRITICAL_TEMPERATURE ==> report_of(
            samples,
            sample,
            day_start,
            started_at,
        ).overall_score <= 70,
{
    let temperature = temperature_metrics(samples, sample, day_start as int);
    let power = power_metrics(samples, sample);
    let memory = memory_metrics(samples, sample, day_start as int);
    lemma_cycle_alert_severities(
        temperature,
        power,
        memory,
        sample.is_throttling,
        sample.timestamp,
    );
    let alerts = cycle_alerts(temperature, power, memory, sample.is_throttling, sample.timestamp);
    assert(alerts[0].severity == HealthStatus::Critical);
}

/// A cycle never raises the power alert: no more than ten spikes are
/// counted, and the alert is for more than ten.
pub proof fn lemma_no_power_alert_in_cycle(
    samples: Seq<Sample>,
    sample: Sample,
    day_start: i64,
    started_at: i64,
)
    ensures
        report_of(samples, sample, day_start, started_at).power.power_spikes <= 10,
        forall|i: int|
            0 <= i < report_of(samples, sample, day_start, started_at).alerts.len() ==> (
            #[trigger] report_of(samples, sample, day_start, started_at).alerts[i]).alert_type
                != AlertType::PowerSpike,
{
    lemma_power_spikes_bounded(samples);
}

/// The first sample of a monitor finds no history to compare with: every
/// trend is zero, every average and every peak is the sample's own value,
/// and nothing is said of the volatility of memory use or of a leak.
pub proof fn lemma_first_cycle(sample: Sample, day_start: i64, started_at: i64)
    ensures
        ({
            let report = report_of(seq![sample], sample, day_start, started_at);
            &&& report.temperature.current == sample.temperature
            &&& report.temperature.trend_5min == 0
            &&& report.temperature.peak_today == sample.temperature
            &&& report.temperature.time_above_80c == if sample.temperature
                > MAX_SAFE_TEMPERATURE {
                1u64
            } else {
                0u64
            }
            &&& report.power.current_draw == sample.power_draw
            &&& report.power.avg_draw_1hr == sample.power_draw
            &&& report.power.power_spikes == 0
            &&& report.memory.usage_trend == 0
            &&& report.memory.fragmentation_score == 0
            &&& report.memory.leak_suspicion == 0
            &&& report.memory.peak_usage_today == sample.memory_used
        }),
{
    let samples = seq![sample];
    assert(samples.drop_last() =~= Seq::<Sample>::empty());
    assert(samples.last() == sample);
    reveal_with_fuel(count_above, 2);
    reveal_with_fuel(peak_temperature_since, 2);
    reveal_with_fuel(total_draw, 2);
    reveal_with_fuel(peak_usage_since, 2);
    reveal_with_fuel(spikes_between, 2);
}

impl View for HealthMonitor {
    type V = MonitorView;

    closed spec fn view(&self) -> MonitorView {
        MonitorView {
            samples: self.history_window@,
            alert_log: alert_views(self.alert_history@),
            started_at: self.monitoring_start,
            window_capacity: self.history_window.spec_capacity(),
            alert_capacity: self.alert_history.spec_capacity(),
        }
    }
}

impl HealthMonitor {
    #[verifier::type_invariant]
    spec fn in_order(&self) -> bool {
        &&& chronological(self.history_window@)
        &&& none_before(self.history_window@, self.monitoring_start)
    }

    /// The samples held, oldest first.
    pub open spec fn samples(&self) -> Seq<Sample> {
        self@.samples
    }

    pub(crate) proof fn lemma_parts(&self)
        ensures
            self@.samples == self.history_window@,
            self@.alert_log == alert_views(self.alert_history@),
            self@.started_at == self.monitoring_start,
            self@.window_capacity == self.history_window.spec_capacity(),
            self@.alert_capacity == self.alert_history.spec_capacity(),
    {
    }

    /// A monitor that begins now, by the wall clock, with nothing in its
    /// window or its history. It keeps an hour of samples at one sample a
    /// second, and a hundred alerts.
    pub fn new() -> (monitor: Self)
        ensures
            monitor@.samples == Seq::<Sample>::empty(),
            monitor@.alert_log == Seq::<AlertView>::empty(),
            monitor@.window_capacity == WINDOW_CAPACITY,
            monitor@.alert_capacity == ALERT_CAPACITY,
    {
        Self::with_start(wall_clock_millis())
    }

    /// A monitor that began at `started_at`, with nothing in its window or
    /// its history. It keeps an hour of samples at one sample a second, and
    /// a hundred alerts.
    pub fn with_start(started_at: i64) -> (monitor: Self)
        ensures
            monitor@ == (MonitorView {
                samples: Seq::<Sample>::empty(),
                alert_log: Seq::<AlertView>::empty(),
                started_at,
                window_capacity: WINDOW_CAPACITY as nat,
                alert_capacity: ALERT_CAPACITY as nat,
            }),
    {
        Self::with_capacities(started_at, WINDOW_CAPACITY, ALERT_CAPACITY)
    }

    /// A monitor that began at `started_at`, with nothing in its window or
    /// its history, which keeps the given numbers of samples and of alerts.
    pub fn with_capacities(started_at: i64, window_capacity: usize, alert_capacity: usize) -> (monitor:
        Self)
        ensures
            monitor@ == (MonitorView {
                samples: Seq::<Sample>::empty(),
                alert_log: Seq::<AlertView>::empty(),
                started_at,
                window_capacity: window_capacity as nat,
                alert_capacity: alert_capacity as nat,
            }),
    {
        let monitor = HealthMonitor {
            history_window: RollingWindow::new(window_capacity),
            alert_history: RollingWindow::new(alert_capacity),
            monitoring_start: started_at,
        };
        assert(alert_views(monitor.alert_history@) =~= Seq::<AlertView>::empty());
        monitor
    }

    fn next_sample_time(&self, now: i64) -> (timestamp: i64)
        ensures
            timestamp == sample_time(self@, now),
            timestamp >= self.monitoring_start,
            self.history_window@.len() > 0 ==> timestamp
                >= self.history_window@.last().timestamp,
    {
        let n = self.history_window.len();
        let mut floor = self.monitoring_start;
        if n > 0 {
            let newest = self.history_window.get(n - 1).timestamp;
            if newest > floor {
                floor = newest;
            }
        }
        if now > floor {
            now
        } else {
            floor
        }
    }

    fn remember(&mut self, alerts: &Vec<HealthAlert>)
        ensures
            final(self)@ == (MonitorView {
                alert_log: keep_newest(
                    old(self)@.alert_log + alert_views(alerts@),
                    old(self)@.alert_capacity,
                ),
                ..old(self)@
            }),
    {
        proof {
            use_type_invariant(&*self);
        }
        let mut history: RollingWindow<HealthAlert> = RollingWindow::new(0);
        std::mem::swap(&mut self.alert_history, &mut history);
        let ghost before = history@;
        let ghost capacity = history.spec_capacity();
        // Asking for the length tells that the history is within its capacity.
        let _held = history.len();
        let mut i: usize = 0;
        assert(before + alerts@.take(0) =~= before);
        while i < alerts.len()
            invariant
                i <= alerts@.len(),
                history.spec_capacity() == capacity,
                before.len() <= capacity,
                history@ == keep_newest(before + alerts@.take(i as int), capacity),
            decreases alerts@.len() - i,
        {
            let alert = alerts[i].clone();
            assert((before + alerts@.take(i as int)).push(alert) =~= before + alerts@.take(i + 1));
            history.append(alert);
            assert(history@ =~= keep_newest(before + alerts@.take(i + 1), capacity));
            i += 1;
        }
        assert(alerts@.take(alerts@.len() as int) =~= alerts@);
        assert(alert_views(history@) =~= keep_newest(
            alert_views(before) + alert_views(alerts@),
            capacity,
        ));
        self.alert_history = history;
    }

    /// Runs the cycle for a reading taken when the clock showed `now`, on a
    /// day that began at `day_start`: the sample enters the window, the
    /// analyzers, the alert rules and the score run over the window, and the
    /// alerts raised enter the history. The report holds the alerts of this
    /// cycle, not the history.
    pub fn update_metrics_at(&mut self, now: i64, day_start: i64, reading: Reading) -> (report:
        GpuHealthMetrics)
        ensures
            final(self)@ == state_after(old(self)@, now, day_start, reading),
            report@ == report_after(old(self)@, now, day_start, reading),
            chronological(final(self)@.samples),
            final(self)@.samples.len() <= final(self)@.window_capacity,
            final(self)@.alert_log.len() <= final(self)@.alert_capacity,
            report.overall_score <= 100,
    {
        proof {
            use_type_invariant(&*self);
        }
        let timestamp = self.next_sample_time(now);
        let snapshot = Sample {
            timestamp,
            temperature: reading.temperature,
            power_draw: match reading.power_draw {
                Some(p) => p,
                None => 0,
            },
            memory_used: reading.memory_used,
            gpu_utilization: reading.gpu_utilization,
            gpu_clock: match reading.gpu_clock {
                Some(c) => c,
                None => 0,
            },
            memory_clock: match reading.memory_clock {
                Some(c) => c,
                None => 0,
            },
            is_throttling: reading.is_throttling,
        };
        assert(snapshot == sample_of(reading, sample_time(old(self)@, now)));
        proof {
            lemma_appended_chronological(
                self.history_window@,
                self.history_window.spec_capacity(),
                snapshot,
                self.monitoring_start,
            );
        }
        let mut window: RollingWindow<Sample> = RollingWindow::new(0);
        std::mem::swap(&mut self.history_window, &mut window);
        window.append(snapshot);
        self.history_window = window;

        let temperature = self.calculate_temperature_metrics(&snapshot, day_start);
        let power = self.calculate_power_metrics(&snapshot);
        let memory = self.calculate_memory_metrics(&snapshot, reading.memory_total, day_start);
        let alerts = Self::generate_alerts(
            &temperature,
            &power,
            &memory,
            reading.is_throttling,
            timestamp,
        );
        self.remember(&alerts);
        let overall_score = Self::calculate_overall_health_score(
            &temperature,
            &power,
            &memory,
            reading.is_throttling,
        );
        let status = Self::determine_health_status(overall_score, alerts.as_slice());
        let uptime_minutes = ((timestamp as i128 - self.monitoring_start as i128) / (
        MINUTE_MS as i128)) as u64;
        GpuHealthMetrics {
            overall_score,
            status,
            temperature,
            power,
            memory,
            thermal_throttling_detected: reading.is_throttling,
            uptime_minutes,
            alerts,
        }
    }

    /// Runs the cycle for a reading taken now: the wall clock gives the
    /// instant and the local calendar the start of the day. Where the
    /// calendar knows no start of the day, the day is taken to begin with
    /// the sample itself. Whatever the clock and the calendar answer, the
    /// outcome is that of `update_metrics_at` for some instant and some
    /// start of the day.
    pub fn update_metrics(
        &mut self,
        temperature: i32,
        power_draw: Option<u32>,
        memory_used: u64,
        memory_total: u64,
        gpu_utilization: u32,
        gpu_clock: Option<u32>,
        memory_clock: Option<u32>,
        is_throttling: bool,
    ) -> (report: GpuHealthMetrics)
        ensures
            exists|now: i64, day_start: i64|
                cycle_at(
                    old(self)@,
                    now,
                    day_start,
                    (Reading {
                        temperature,
                        power_draw,
                        memory_used,
                        memory_total,
                        gpu_utilization,
                        gpu_clock,
                        memory_clock,
                        is_throttling,
                    }),
                    final(self)@,
                    report@,
                ),
            chronological(final(self)@.samples),
            final(self)@.samples.len() <= final(self)@.window_capacity,
            final(self)@.alert_log.len() <= final(self)@.alert_capacity,
            report.overall_score <= 100,
            report.thermal_throttling_detected == is_throttling,
            report.temperature.current == temperature,
    {
        let reading = Reading {
            temperature,
            power_draw,
            memory_used,
            memory_total,
            gpu_utilization,
            gpu_clock,
            memory_clock,
            is_throttling,
        };
        let now = wall_clock_millis();
        let timestamp = self.next_sample_time(now);
        let day_start = Self::start_of_day(timestamp);
        let report = self.update_metrics_at(now, day_start, reading);
        assert(cycle_at(old(self)@, now, day_start, reading, self@, report@));
        report
    }

    /// The start of the local day of `timestamp`, or `timestamp` itself
    /// where the calendar gives none. The calendar is not asked about an
    /// instant outside the range that it is sure to reach.
    fn start_of_day(timestamp: i64) -> (day_start: i64)
        ensures
            !(-CALENDAR_RANGE_MS <= timestamp <= CALENDAR_RANGE_MS) ==> day_start == timestamp,
    {
        if -CALENDAR_RANGE_MS <= timestamp && timestamp <= CALENDAR_RANGE_MS {
            Self::day_start_or(local_day_start(timestamp), timestamp)
        } else {
            timestamp
        }
    }

    /// The start of the day of a sample: the local midnight that the
    /// calendar gave for it, or, where it gave none, the sample's own
    /// instant.
    pub fn day_start_or(midnight: Option<i64>, timestamp: i64) -> (day_start: i64)
        ensures
            day_start == match midnight {
                Some(start) => start,
                None => timestamp,
            },
    {
        match midnight {
            Some(start) => start,
            None => timestamp,
        }
    }

    /// The newest alerts of the history, newest first: `limit` of them, or
    /// all where the history holds fewer. The monitor is left as it is, so
    /// two calls in a row with the same limit give the same alerts.
    pub fn get_recent_alerts(&self, limit: usize) -> (alerts: Vec<HealthAlert>)
        ensures
            alert_views(alerts@) == recent_alerts(self@.alert_log, limit as nat),
            alerts@.len() <= limit,
            alerts@.len() <= self@.alert_log.len(),
    {
        let n = self.alert_history.len();
        let count = if limit < n {
            limit
        } else {
            n
        };
        let mut alerts: Vec<HealthAlert> = Vec::new();
        let mut i: usize = 0;
        while i < count
            invariant
                i <= count <= n,
                n == self.alert_history@.len(),
                alerts@.len() == i,
                forall|j: int|
                    0 <= j < i ==> (#[trigger] alerts@[j]) == self.alert_history@[n - 1 - j],
            decreases count - i,
        {
            alerts.push(self.alert_history.get(n - 1 - i).clone());
            i += 1;
        }
        assert(alert_views(alerts@) =~= recent_alerts(self@.alert_log, limit as nat));
        alerts
    }
}

} // verus!
