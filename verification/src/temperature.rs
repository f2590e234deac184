//! The temperature analyzer.

use crate::health::{Sample, TemperatureMetrics};
use crate::lookback::{find_first_since, first_since};
use crate::monitor::HealthMonitor;
use crate::window::RollingWindow;
use vstd::prelude::*;

verus! {

/// The temperature from which on the device counts as hot: 80 °C.
pub const MAX_SAFE_TEMPERATURE: i32 = 80_000;

/// The temperature from which on the device is in danger: 90 °C.
pub const CRITICAL_TEMPERATURE: i32 = 90_000;

/// Five minutes, in milliseconds.
pub const TREND_SPAN_MS: i64 = 300_000;

/// How far the current temperature lies above that of the earliest sample of
/// the last five minutes; zero where the window holds no such sample.
pub open spec fn temperature_trend(samples: Seq<Sample>, now: int, current: int) -> int {
    match first_since(samples, now - TREND_SPAN_MS) {
        Some(earliest) => current - earliest.temperature,
        None => 0,
    }
}

/// How many samples are hotter than `limit`.
pub open spec fn count_above(samples: Seq<Sample>, limit: int) -> nat
    decreases samples.len(),
{
    if samples.len() == 0 {
        0
    } else {
        count_above(samples.drop_last(), limit) + if samples.last().temperature > limit {
            1nat
        } else {
            0nat
        }
    }
}

/// The highest of `floor` and the temperatures of the samples taken at or
/// after `day_start`.
pub open spec fn peak_temperature_since(samples: Seq<Sample>, day_start: int, floor: int) -> int
    decreases samples.len(),
{
    if samples.len() == 0 {
        floor
    } else {
        let before = peak_temperature_since(samples.drop_last(), day_start, floor);
        let last = samples.last();
        if last.timestamp >= day_start && last.temperature > before {
            last.temperature as int
        } else {
            before
        }
    }
}

/// The temperature metrics of a cycle.
pub open spec fn temperature_metrics(samples: Seq<Sample>, current: Sample, day_start: int)
    -> TemperatureMetrics {
    TemperatureMetrics {
        current: current.temperature,
        max_safe: MAX_SAFE_TEMPERATURE,
        critical: CRITICAL_TEMPERATURE,
        trend_5min: temperature_trend(
            samples,
            current.timestamp as int,
            current.temperature as int,
        ) as i64,
        time_above_80c: count_above(samples, MAX_SAFE_TEMPERATURE as int) as u64,
        peak_today: peak_temperature_since(samples, day_start, current.temperature as int) as i32,
    }
}

/// The count of hot samples is at most the number of samples.
pub proof fn lemma_count_above_bounded(samples: Seq<Sample>, limit: int)
    ensures
        count_above(samples, limit) <= samples.len(),
    decreases samples.len(),
{
    if samples.len() > 0 {
        lemma_count_above_bounded(samples.drop_last(), limit);
    }
}

/// The peak is never below the floor nor below any sample of the day, and it
/// is the floor itself or the temperature of a sample of the day.
pub proof fn lemma_peak_temperature(samples: Seq<Sample>, day_start: int, floor: int)
    ensures
        peak_temperature_since(samples, day_start, floor) >= floor,
        forall|i: int|
            0 <= i < samples.len() && (#[trigger] samples[i]).timestamp >= day_start
                ==> peak_temperature_since(samples, day_start, floor) >= samples[i].temperature,
        peak_temperature_since(samples, day_start, floor) == floor || exists|i: int|
            0 <= i < samples.len() && (#[trigger] samples[i]).timestamp >= day_start
                && samples[i].temperature == peak_temperature_since(samples, day_start, floor),
    decreases samples.len(),
{
    if samples.len() > 0 {
        let front = samples.drop_last();
        lemma_peak_temperature(front, day_start, floor);
        let before = peak_temperature_since(front, day_start, floor);
        let peak = peak_temperature_since(samples, day_start, floor);
        assert forall|i: int|
            0 <= i < samples.len() && (#[trigger] samples[i]).timestamp
                >= day_start implies peak >= samples[i].temperature by {
            if i < front.len() {
                assert(front[i] == samples[i]);
            }
        }
        if peak != floor {
            if peak == before {
                let i = choose|i: int|
                    0 <= i < front.len() && (#[trigger] front[i]).timestamp >= day_start
                        && front[i].temperature == before;
                assert(samples[i] == front[i]);
            } else {
                assert(samples[samples.len() - 1] == samples.last());
            }
        }
    }
}

fn count_hot(window: &RollingWindow<Sample>) -> (count: u64)
    ensures
        count == count_above(window@, MAX_SAFE_TEMPERATURE as int),
{
    let n = window.len();
    let mut count: u64 = 0;
    let mut i: usize = 0;
    assert(window@.take(0) =~= Seq::<Sample>::empty());
    while i < n
        invariant
            n == window@.len(),
            i <= n,
            count == count_above(window@.take(i as int), MAX_SAFE_TEMPERATURE as int),
            count <= i,
        decreases n - i,
    {
        assert(window@.take(i + 1).drop_last() =~= window@.take(i as int));
        if window.get(i).temperature > MAX_SAFE_TEMPERATURE {
            count += 1;
        }
        i += 1;
    }
    assert(window@.take(n as int) =~= window@);
    count
}

fn peak_since(window: &RollingWindow<Sample>, day_start: i64, floor: i32) -> (peak: i32)
    ensures
        peak == peak_temperature_since(window@, day_start as int, floor as int),
{
    let n = window.len();
    let mut peak: i32 = floor;
    let mut i: usize = 0;
    assert(window@.take(0) =~= Seq::<Sample>::empty());
    while i < n
        invariant
            n == window@.len(),
            i <= n,
            peak == peak_temperature_since(window@.take(i as int), day_start as int, floor as int),
        decreases n - i,
    {
        assert(window@.take(i + 1).drop_last() =~= window@.take(i as int));
        let s = window.get(i);
        if s.timestamp >= day_start && s.temperature > peak {
            peak = s.temperature;
        }
        i += 1;
    }
    assert(window@.take(n as int) =~= window@);
    peak
}

impl HealthMonitor {
    /// Derives the temperature metrics from the window and the current
    /// sample. `day_start` is the instant at which the current sample's day
    /// began.
    pub fn calculate_temperature_metrics(&self, current: &Sample, day_start: i64) -> (metrics:
        TemperatureMetrics)
        ensures
            metrics == temperature_metrics(self.samples(), *current, day_start as int),
            metrics.current == current.temperature,
            metrics.peak_today >= current.temperature,
            metrics.time_above_80c <= self.samples().len(),
    {
        proof {
            self.lemma_parts();
        }
        let temp = current.temperature;
        let trend_5min: i64 = match find_first_since(
            &self.history_window,
            current.timestamp,
            TREND_SPAN_MS,
        ) {
            Some(earliest) => temp as i64 - earliest.temperature as i64,
            None => 0,
        };
        let time_above_80c = count_hot(&self.history_window);
        let peak_today = peak_since(&self.history_window, day_start, temp);
        proof {
            lemma_count_above_bounded(self.samples(), MAX_SAFE_TEMPERATURE as int);
            lemma_peak_temperature(self.samples(), day_start as int, temp as int);
        }
        TemperatureMetrics {
            current: temp,
            max_safe: MAX_SAFE_TEMPERATURE,
            critical: CRITICAL_TEMPERATURE,
            trend_5min,
            time_above_80c,
            peak_today,
        }
    }
}

} // verus!
