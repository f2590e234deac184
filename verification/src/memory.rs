//! The memory analyzer.

use crate::health::{MemoryHealthMetrics, Sample, MIB};
use crate::lookback::{find_first_since, first_since};
use crate::monitor::HealthMonitor;
use crate::window::{keep_newest, RollingWindow};
use vstd::prelude::*;

verus! {

/// One minute, in milliseconds.
pub const USAGE_SPAN_MS: i64 = 60_000;

/// Growth beyond this many bytes a minute makes a leak suspected: 10 MiB.
pub const LEAK_ONSET: i128 = 10_485_760;

/// Growth of this many bytes a minute makes a leak certain: 50 MiB.
pub const LEAK_CERTAIN: i128 = 52_428_800;

/// The volatility of use is estimated only with more samples than this.
pub const VOLATILITY_MIN_SAMPLES: usize = 10;

/// The volatility of use is estimated over this many of the newest samples.
pub const VOLATILITY_SAMPLES: usize = 60;

/// How many bytes more are in use now than at the earliest sample of the
/// last minute; zero where the window holds no such sample.
pub open spec fn usage_trend(samples: Seq<Sample>, now: int, current_used: int) -> int {
    match first_since(samples, now - USAGE_SPAN_MS) {
        Some(earliest) => current_used - earliest.memory_used,
        None => 0,
    }
}

/// Suspicion of a leak, in thousandths: nothing up to 10 MiB a minute of
/// growth, then the growth as a share of 50 MiB a minute, capped at the
/// whole. The share is rounded up to the next thousandth, so that the
/// suspicion lies above a level of whole thousandths exactly when the
/// share itself does.
pub open spec fn leak_suspicion(trend: int) -> int {
    if trend > LEAK_ONSET {
        let share = (trend * 1000 + LEAK_CERTAIN - 1) / (LEAK_CERTAIN as int);
        if share > 1000 {
            1000
        } else {
            share
        }
    } else {
        0
    }
}

/// Readings of memory in use enter the estimate of volatility in a unit
/// that keeps every one of them below this: 2^44, which is 16 TiB in
/// bytes.
pub const READING_LIMIT: u64 = 17_592_186_044_416;

/// The most memory in use at any of the samples; zero for none.
pub open spec fn highest_use(samples: Seq<Sample>) -> u64
    decreases samples.len(),
{
    if samples.len() == 0 {
        0
    } else {
        let before = highest_use(samples.drop_last());
        if samples.last().memory_used > before {
            samples.last().memory_used
        } else {
            before
        }
    }
}

/// The unit, in bytes, in which the samples' memory in use is measured for
/// the estimate of volatility: the byte itself where no sample has 16 TiB
/// in use, and else the least number of bytes that keeps every reading
/// below `READING_LIMIT`.
pub open spec fn volatility_unit(samples: Seq<Sample>) -> int {
    highest_use(samples) / READING_LIMIT + 1
}

/// Memory in use at a sample, in whole units.
pub open spec fn reading(sample: Sample, unit: int) -> int {
    sample.memory_used as int / unit
}

/// The sum of the samples' readings.
pub open spec fn total_readings(samples: Seq<Sample>, unit: int) -> int
    decreases samples.len(),
{
    if samples.len() == 0 {
        0
    } else {
        total_readings(samples.drop_last(), unit) + reading(samples.last(), unit)
    }
}

/// The sum over the samples of `(count * x - total)^2`, `x` being the
/// sample's reading. With `count` the number of samples and `total` the sum
/// of their readings, this is `count^2` times the sum of the squared
/// deviations from the mean.
pub open spec fn squared_deviations(samples: Seq<Sample>, unit: int, count: int, total: int) -> int
    decreases samples.len(),
{
    if samples.len() == 0 {
        0
    } else {
        let d = count * reading(samples.last(), unit) - total;
        squared_deviations(samples.drop_last(), unit, count, total) + d * d
    }
}

/// The least `k` from `from` on with `k * k * a >= b`, and `limit` where
/// there is none below it.
pub open spec fn least_root(from: nat, limit: nat, a: int, b: int) -> nat
    decreases limit - from,
{
    if from >= limit {
        limit
    } else if from * from * a >= b {
        from
    } else {
        least_root(from + 1, limit, a, b)
    }
}

/// The volatility of memory use, in thousandths: the standard deviation of
/// the newest sixty samples' use over their mean, capped at the whole. Zero
/// with ten samples or fewer, and zero where the mean is zero. The ratio is
/// rounded up to the next thousandth, so that the score lies above a level
/// of whole thousandths exactly when the ratio itself does.
///
/// Use is counted in bytes; only where a sample has 16 TiB or more in use
/// is it counted in larger units, see `volatility_unit`.
///
/// With `n` samples of sum `s` the squared ratio is
/// `squared_deviations / (n * s^2)`, so the score is the least `k` with
/// `k^2 * n * s^2 >= 1000^2 * squared_deviations`.
pub open spec fn fragmentation_score(samples: Seq<Sample>) -> nat {
    if samples.len() <= VOLATILITY_MIN_SAMPLES {
        0
    } else {
        let recent = keep_newest(samples, VOLATILITY_SAMPLES as nat);
        let unit = volatility_unit(recent);
        let count = recent.len() as int;
        let total = total_readings(recent, unit);
        if total == 0 {
            0
        } else {
            least_root(
                0,
                1000,
                count * total * total,
                1_000_000 * squared_deviations(recent, unit, count, total),
            )
        }
    }
}

/// The most memory in use at any sample taken at or after `day_start`;
/// `None` where there is no such sample.
pub open spec fn peak_usage_since(samples: Seq<Sample>, day_start: int) -> Option<u64>
    decreases samples.len(),
{
    if samples.len() == 0 {
        None
    } else {
        let before = peak_usage_since(samples.drop_last(), day_start);
        let last = samples.last();
        if last.timestamp >= day_start {
            match before {
                Some(peak) => if last.memory_used > peak {
                    Some(last.memory_used)
                } else {
                    before
                },
                None => Some(last.memory_used),
            }
        } else {
            before
        }
    }
}

/// The memory metrics of a cycle.
pub open spec fn memory_metrics(samples: Seq<Sample>, current: Sample, day_start: int)
    -> MemoryHealthMetrics {
    let trend = usage_trend(samples, current.timestamp as int, current.memory_used as int);
    MemoryHealthMetrics {
        usage_trend: trend as i128,
        fragmentation_score: fragmentation_score(samples) as u32,
        leak_suspicion: leak_suspicion(trend) as u32,
        peak_usage_today: match peak_usage_since(samples, day_start) {
            Some(peak) => peak,
            None => current.memory_used,
        },
    }
}

/// `least_root` lies between its start and its limit; below the limit its
/// square times `a` reaches `b`, and that of no lesser `k` from the start on
/// does.
pub proof fn lemma_least_root(from: nat, limit: nat, a: int, b: int)
    requires
        from <= limit,
    ensures
        from <= least_root(from, limit, a, b) <= limit,
        least_root(from, limit, a, b) < limit ==> least_root(from, limit, a, b) * least_root(
            from,
            limit,
            a,
            b,
        ) * a >= b,
        forall|k: nat| from <= k < least_root(from, limit, a, b) ==> #[trigger] (k * k * a) < b,
    decreases limit - from,
{
    if from < limit && !(from * from * a >= b) {
        lemma_least_root(from + 1, limit, a, b);
    }
}

/// The root lies above a level exactly when the square of the level times
/// `a` falls short of `b`: rounding up has no part in the comparison.
pub proof fn lemma_least_root_above(level: nat, limit: nat, a: int, b: int)
    requires
        level < limit,
        a >= 0,
    ensures
        least_root(0, limit, a, b) > level <==> level * level * a < b,
{
    lemma_least_root(0, limit, a, b);
    let root = least_root(0, limit, a, b);
    if level * level * a < b {
        if root <= level {
            assert(root * root * a >= b);
            assert(root * root * a <= level * level * a) by (nonlinear_arith)
                requires
                    0 <= root <= level,
                    a >= 0,
            ;
        }
    } else {
        if root > level {
            assert(level * level * a < b);
        }
    }
}

/// The volatility of memory use lies above seven tenths, the level at which
/// it costs points, exactly when the standard deviation of the newest
/// samples' use exceeds seven tenths of their mean.
pub proof fn lemma_fragmentation_above_seven_tenths(samples: Seq<Sample>)
    ensures
        ({
            let recent = keep_newest(samples, VOLATILITY_SAMPLES as nat);
            let unit = volatility_unit(recent);
            let count = recent.len() as int;
            let total = total_readings(recent, unit);
            fragmentation_score(samples) > 700 <==> samples.len() > VOLATILITY_MIN_SAMPLES && total
                != 0 && 100 * squared_deviations(recent, unit, count, total) > 49 * (count * total
                * total)
        }),
        fragmentation_score(samples) <= 1000,
{
    let recent = keep_newest(samples, VOLATILITY_SAMPLES as nat);
    let unit = volatility_unit(recent);
    let count = recent.len() as int;
    let total = total_readings(recent, unit);
    let a = count * total * total;
    let b = 1_000_000 * squared_deviations(recent, unit, count, total);
    lemma_least_root(0, 1000, a, b);
    if samples.len() > VOLATILITY_MIN_SAMPLES && total != 0 {
        assert(a >= 0) by (nonlinear_arith)
            requires
                a == count * total * total,
                count >= 0,
        ;
        lemma_least_root_above(700, 1000, a, b);
        assert(700 * 700 * a == 490_000 * a);
    }
}

/// The peak, where there is one, is the use at a sample of the day and no
/// sample of the day uses more; there is none exactly when no sample is of
/// the day.
pub proof fn lemma_peak_usage(samples: Seq<Sample>, day_start: int)
    ensures
        match peak_usage_since(samples, day_start) {
            Some(peak) => {
                &&& exists|i: int|
                    0 <= i < samples.len() && (#[trigger] samples[i]).timestamp >= day_start
                        && samples[i].memory_used == peak
                &&& forall|i: int|
                    0 <= i < samples.len() && (#[trigger] samples[i]).timestamp >= day_start
                        ==> samples[i].memory_used <= peak
            },
            None => forall|i: int|
                0 <= i < samples.len() ==> (#[trigger] samples[i]).timestamp < day_start,
        },
    decreases samples.len(),
{
    if samples.len() > 0 {
        let front = samples.drop_last();
        lemma_peak_usage(front, day_start);
        let last = samples.last();
        assert(samples[samples.len() - 1] == last);
        assert forall|i: int| 0 <= i < front.len() implies front[i] == samples[i] by {}
        match peak_usage_since(samples, day_start) {
            Some(peak) => {
                if last.timestamp >= day_start && last.memory_used == peak {
                    assert(samples[samples.len() - 1].memory_used == peak);
                } else {
                    let i = choose|i: int|
                        0 <= i < front.len() && (#[trigger] front[i]).timestamp >= day_start
                            && front[i].memory_used == peak;
                    assert(samples[i] == front[i]);
                }
                assert forall|i: int|
                    0 <= i < samples.len() && (#[trigger] samples[i]).timestamp
                        >= day_start implies samples[i].memory_used <= peak by {
                    if i < front.len() {
                        assert(front[i] == samples[i]);
                    }
                }
            },
            None => {
                assert forall|i: int| 0 <= i < samples.len() implies (
                #[trigger] samples[i]).timestamp < day_start by {
                    if i < front.len() {
                        assert(front[i] == samples[i]);
                    }
                }
            },
        }
    }
}

/// Suspicion of a leak stays within the whole. It lies above three, seven
/// and eight tenths, the levels at which it costs points or raises an
/// alert, exactly when the growth exceeds 15, 35 and 40 MiB a minute.
pub proof fn lemma_leak_suspicion_levels(trend: int)
    ensures
        0 <= leak_suspicion(trend) <= 1000,
        trend <= LEAK_ONSET ==> leak_suspicion(trend) == 0,
        trend >= LEAK_CERTAIN ==> leak_suspicion(trend) == 1000,
        leak_suspicion(trend) > 300 <==> trend > 15 * MIB,
        leak_suspicion(trend) > 700 <==> trend > 35 * MIB,
        leak_suspicion(trend) > 800 <==> trend > 40 * MIB,
{
}

fn suspicion(trend: i128) -> (share: u32)
    requires
        -0x1_0000_0000_0000_0000 < trend < 0x1_0000_0000_0000_0000,
    ensures
        share == leak_suspicion(trend as int),
        share <= 1000,
{
    if trend > LEAK_ONSET {
        let share = (trend * 1000 + LEAK_CERTAIN - 1) / LEAK_CERTAIN;
        if share > 1000 {
            1000
        } else {
            share as u32
        }
    } else {
        0
    }
}

fn peak_usage(window: &RollingWindow<Sample>, day_start: i64) -> (peak: Option<u64>)
    ensures
        peak == peak_usage_since(window@, day_start as int),
{
    let n = window.len();
    let mut peak: Option<u64> = None;
    let mut i: usize = 0;
    assert(window@.take(0) =~= Seq::<Sample>::empty());
    while i < n
        invariant
            n == window@.len(),
            i <= n,
            peak == peak_usage_since(window@.take(i as int), day_start as int),
        decreases n - i,
    {
        assert(window@.take(i + 1).drop_last() =~= window@.take(i as int));
        let s = window.get(i);
        if s.timestamp >= day_start {
            peak = match peak {
                Some(p) => if s.memory_used > p {
                    Some(s.memory_used)
                } else {
                    peak
                },
                None => Some(s.memory_used),
            };
        }
        i += 1;
    }
    assert(window@.take(n as int) =~= window@);
    peak
}

/// The least `k` up to a thousand with `k * k * a >= b`, and a thousand
/// where there is none below it.
fn root_in_thousandths(a: u128, b: u128) -> (k: u32)
    requires
        1_000_000 * a <= u128::MAX,
    ensures
        k == least_root(0, 1000, a as int, b as int),
        k <= 1000,
{
    let mut k: u32 = 0;
    while k < 1000
        invariant
            k <= 1000,
            1_000_000 * a <= u128::MAX,
            least_root(0, 1000, a as int, b as int) == least_root(
                k as nat,
                1000,
                a as int,
                b as int,
            ),
        decreases 1000 - k,
    {
        assert(k * k * a <= 1_000_000 * a) by (nonlinear_arith)
            requires
                0 <= k <= 1000,
                a >= 0,
        ;
        assert(k * k <= 1_000_000) by (nonlinear_arith)
            requires
                0 <= k <= 1000,
        ;
        if (k as u128) * (k as u128) * a >= b {
            return k;
        }
        k += 1;
    }
    k
}

/// Sixty times `READING_LIMIT`: the sum of sixty readings stays within it,
/// and so does the distance of sixty times a reading from that sum.
const SPREAD_LIMIT: u64 = 1_055_531_162_664_960;

/// The square of `SPREAD_LIMIT`.
const SQUARE_LIMIT: u128 = 1_114_146_035_356_842_247_409_211_801_600;

/// No sample has more memory in use than the highest use.
pub proof fn lemma_highest_use(samples: Seq<Sample>)
    ensures
        forall|i: int|
            0 <= i < samples.len() ==> (#[trigger] samples[i]).memory_used <= highest_use(samples),
    decreases samples.len(),
{
    if samples.len() > 0 {
        let front = samples.drop_last();
        lemma_highest_use(front);
        assert forall|i: int| 0 <= i < samples.len() implies (#[trigger] samples[i]).memory_used
            <= highest_use(samples) by {
            if i < front.len() {
                assert(front[i] == samples[i]);
            }
        }
    }
}

/// In the unit of the estimate every reading stays below `READING_LIMIT`.
pub proof fn lemma_readings_bounded(samples: Seq<Sample>)
    ensures
        volatility_unit(samples) >= 1,
        highest_use(samples) < READING_LIMIT ==> volatility_unit(samples) == 1,
        forall|i: int|
            0 <= i < samples.len() ==> 0 <= reading(#[trigger] samples[i], volatility_unit(samples))
                < READING_LIMIT,
{
    lemma_highest_use(samples);
    let highest = highest_use(samples) as int;
    let unit = volatility_unit(samples);
    assert forall|i: int| 0 <= i < samples.len() implies 0 <= reading(
        #[trigger] samples[i],
        unit,
    ) < READING_LIMIT by {
        let x = samples[i].memory_used as int;
        assert(0 <= x / unit < READING_LIMIT) by (nonlinear_arith)
            requires
                0 <= x <= highest,
                unit >= 1,
                highest < unit * READING_LIMIT,
        ;
    }
}

fn highest_reading(window: &RollingWindow<Sample>, start: usize) -> (highest: u64)
    requires
        start <= window@.len(),
    ensures
        highest == highest_use(window@.subrange(start as int, window@.len() as int)),
{
    let n = window.len();
    let mut highest: u64 = 0;
    let mut i: usize = start;
    assert(window@.subrange(start as int, start as int) =~= Seq::<Sample>::empty());
    while i < n
        invariant
            n == window@.len(),
            start <= i <= n,
            highest == highest_use(window@.subrange(start as int, i as int)),
        decreases n - i,
    {
        assert(window@.subrange(start as int, i + 1).drop_last() =~= window@.subrange(
            start as int,
            i as int,
        ));
        let used = window.get(i).memory_used;
        if used > highest {
            highest = used;
        }
        i += 1;
    }
    highest
}

fn volatility(window: &RollingWindow<Sample>) -> (score: u32)
    ensures
        score == fragmentation_score(window@),
        score <= 1000,
{
    let n = window.len();
    if n <= VOLATILITY_MIN_SAMPLES {
        return 0;
    }
    let start: usize = if n > VOLATILITY_SAMPLES {
        n - VOLATILITY_SAMPLES
    } else {
        0
    };
    let count: usize = n - start;
    let ghost recent = window@.subrange(start as int, n as int);
    assert(recent =~= keep_newest(window@, VOLATILITY_SAMPLES as nat));
    let unit: u64 = highest_reading(window, start) / READING_LIMIT + 1;
    proof {
        lemma_readings_bounded(recent);
    }
    let mut total: u64 = 0;
    let mut i: usize = start;
    assert(window@.subrange(start as int, start as int) =~= Seq::<Sample>::empty());
    while i < n
        invariant
            n == window@.len(),
            start <= i <= n,
            n - start <= 60,
            unit >= 1,
            recent == window@.subrange(start as int, n as int),
            forall|k: int|
                0 <= k < recent.len() ==> 0 <= reading(#[trigger] recent[k], unit as int)
                    < READING_LIMIT,
            total == total_readings(window@.subrange(start as int, i as int), unit as int),
            total <= (i - start) * READING_LIMIT,
        decreases n - i,
    {
        assert(window@.subrange(start as int, i + 1).drop_last() =~= window@.subrange(
            start as int,
            i as int,
        ));
        assert(recent[i - start] == window@[i as int]);
        total += window.get(i).memory_used / unit;
        i += 1;
    }
    if total == 0 {
        return 0;
    }
    let mut squares: u128 = 0;
    let mut j: usize = start;
    while j < n
        invariant
            n == window@.len(),
            start <= j <= n,
            count == n - start,
            count <= 60,
            unit >= 1,
            total <= SPREAD_LIMIT,
            recent == window@.subrange(start as int, n as int),
            forall|k: int|
                0 <= k < recent.len() ==> 0 <= reading(#[trigger] recent[k], unit as int)
                    < READING_LIMIT,
            squares == squared_deviations(
                window@.subrange(start as int, j as int),
                unit as int,
                count as int,
                total as int,
            ),
            squares <= (j - start) * SQUARE_LIMIT,
        decreases n - j,
    {
        assert(window@.subrange(start as int, j + 1).drop_last() =~= window@.subrange(
            start as int,
            j as int,
        ));
        assert(recent[j - start] == window@[j as int]);
        let x = window.get(j).memory_used / unit;
        assert(0 <= count * x <= SPREAD_LIMIT) by (nonlinear_arith)
            requires
                0 <= count <= 60,
                0 <= x < READING_LIMIT,
                SPREAD_LIMIT == 60 * READING_LIMIT,
        ;
        let d: i128 = count as i128 * x as i128 - total as i128;
        assert(0 <= d * d <= SQUARE_LIMIT) by (nonlinear_arith)
            requires
                -1_055_531_162_664_960 <= d <= 1_055_531_162_664_960,
                SQUARE_LIMIT == 1_055_531_162_664_960 * 1_055_531_162_664_960,
        ;
        squares += (d * d) as u128;
        j += 1;
    }
    assert(0 <= total * total <= SQUARE_LIMIT) by (nonlinear_arith)
        requires
            0 <= total <= 1_055_531_162_664_960,
            SQUARE_LIMIT == 1_055_531_162_664_960 * 1_055_531_162_664_960,
    ;
    let total_squared: u128 = total as u128 * total as u128;
    assert(count * total * total == count * total_squared) by (nonlinear_arith)
        requires
            total_squared == total * total,
    ;
    assert(0 <= count * total_squared <= 60 * SQUARE_LIMIT) by (nonlinear_arith)
        requires
            0 <= count <= 60,
            0 <= total_squared <= SQUARE_LIMIT,
    ;
    let a: u128 = count as u128 * total_squared;
    let b: u128 = 1_000_000 * squares;
    root_in_thousandths(a, b)
}

impl HealthMonitor {
    /// Derives the memory metrics from the window and the current sample.
    /// `day_start` is the instant at which the current sample's day began.
    /// The device's total memory has no part in them.
    pub fn calculate_memory_metrics(&self, current: &Sample, _total_memory: u64, day_start: i64) -> (metrics:
        MemoryHealthMetrics)
        ensures
            metrics == memory_metrics(self.samples(), *current, day_start as int),
            metrics.fragmentation_score <= 1000,
            metrics.leak_suspicion <= 1000,
    {
        proof {
            self.lemma_parts();
        }
        let current_usage = current.memory_used;
        let usage_trend: i128 = match find_first_since(
            &self.history_window,
            current.timestamp,
            USAGE_SPAN_MS,
        ) {
            Some(earliest) => current_usage as i128 - earliest.memory_used as i128,
            None => 0,
        };
        let fragmentation_score = volatility(&self.history_window);
        let leak_suspicion = suspicion(usage_trend);
        let peak_usage_today = match peak_usage(&self.history_window, day_start) {
            Some(peak) => peak,
            None => current_usage,
        };
        MemoryHealthMetrics { usage_trend, fragmentation_score, leak_suspicion, peak_usage_today }
    }
}

} // verus!
