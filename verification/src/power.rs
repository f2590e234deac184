//! The power analyzer.

use crate::health::{PowerMetrics, Sample};
use crate::monitor::HealthMonitor;
use crate::window::RollingWindow;
use vstd::prelude::*;

verus! {

/// A rise of more than this many milliwatts from one sample to the next is
/// a spike: 20 W.
pub const SPIKE_RISE: u32 = 20_000;

/// How many of the newest sample pairs are searched for spikes.
pub const SPIKE_PAIRS: usize = 10;

/// Utilization per watt, in thousandths of a percent per watt, rounded
/// down; zero where no power is drawn.
pub open spec fn efficiency(utilization: int, power_draw: int) -> int {
    if power_draw > 0 {
        utilization * 1000 / power_draw
    } else {
        0
    }
}

/// Whether the sample at position `i` draws over 20 W more than the one
/// just before it.
pub open spec fn is_spike(samples: Seq<Sample>, i: int) -> bool {
    1 <= i < samples.len() && samples[i].power_draw - samples[i - 1].power_draw > SPIKE_RISE
}

/// The number of spikes at the positions from `lo` up to, not including, `hi`.
pub open spec fn spikes_between(samples: Seq<Sample>, lo: int, hi: int) -> nat
    decreases hi - lo,
{
    if hi <= lo {
        0
    } else {
        spikes_between(samples, lo, hi - 1) + if is_spike(samples, hi - 1) {
            1nat
        } else {
            0nat
        }
    }
}

/// The position of the oldest sample that is the later one of a searched
/// pair: the pairs are the ten newest, fewer in a short window.
pub open spec fn spike_search_start(len: int) -> int {
    if len > SPIKE_PAIRS {
        len - SPIKE_PAIRS
    } else {
        1
    }
}

/// The spikes among the ten newest pairs of neighbouring samples.
pub open spec fn power_spikes(samples: Seq<Sample>) -> nat {
    spikes_between(samples, spike_search_start(samples.len() as int), samples.len() as int)
}

/// The sum of the power draws.
pub open spec fn total_draw(samples: Seq<Sample>) -> nat
    decreases samples.len(),
{
    if samples.len() == 0 {
        0
    } else {
        total_draw(samples.drop_last()) + samples.last().power_draw as nat
    }
}

/// The mean draw over the window, rounded down; the current draw where the
/// window is empty.
pub open spec fn average_draw(samples: Seq<Sample>, current: int) -> int {
    if samples.len() == 0 {
        current
    } else {
        total_draw(samples) as int / samples.len() as int
    }
}

/// The power metrics of a cycle.
pub open spec fn power_metrics(samples: Seq<Sample>, current: Sample) -> PowerMetrics {
    PowerMetrics {
        current_draw: current.power_draw,
        efficiency: efficiency(current.gpu_utilization as int, current.power_draw as int) as u64,
        power_spikes: power_spikes(samples) as u32,
        avg_draw_1hr: average_draw(samples, current.power_draw as int) as u32,
    }
}

/// The efficiency lies below half a percent per watt, the level below
/// which it costs points, exactly when no power is drawn or the power in
/// watts is more than twice the utilization in percent: rounding down has
/// no part in the comparison.
pub proof fn lemma_efficiency_below_half(utilization: int, power_draw: int)
    requires
        utilization >= 0,
    ensures
        efficiency(utilization, power_draw) < 500 <==> power_draw <= 0 || 2 * utilization
            < power_draw,
{
    if power_draw > 0 {
        let n = utilization * 1000;
        assert(n / power_draw < 500 <==> n < 500 * power_draw) by (nonlinear_arith)
            requires
                power_draw > 0,
                n >= 0,
        ;
    }
}

/// No more spikes are counted than positions are searched.
pub proof fn lemma_spikes_between_bounded(samples: Seq<Sample>, lo: int, hi: int)
    ensures
        spikes_between(samples, lo, hi) <= if hi > lo {
            hi - lo
        } else {
            0
        },
    decreases hi - lo,
{
    if hi > lo {
        lemma_spikes_between_bounded(samples, lo, hi - 1);
    }
}

/// At most ten spikes are ever counted, so the count alone never exceeds
/// the level of ten above which an alert is raised.
pub proof fn lemma_power_spikes_bounded(samples: Seq<Sample>)
    ensures
        power_spikes(samples) <= SPIKE_PAIRS,
{
    lemma_spikes_between_bounded(
        samples,
        spike_search_start(samples.len() as int),
        samples.len() as int,
    );
}

/// The sum of the draws is at most the largest draw times their number.
pub proof fn lemma_total_draw_bounded(samples: Seq<Sample>)
    ensures
        total_draw(samples) <= samples.len() * u32::MAX,
    decreases samples.len(),
{
    if samples.len() > 0 {
        lemma_total_draw_bounded(samples.drop_last());
        assert((samples.len() - 1) * u32::MAX + u32::MAX == samples.len() * u32::MAX)
            by (nonlinear_arith);
    }
}

fn count_spikes(window: &RollingWindow<Sample>) -> (count: u32)
    ensures
        count == power_spikes(window@),
        count <= SPIKE_PAIRS,
{
    let n = window.len();
    let start: usize = if n > SPIKE_PAIRS {
        n - SPIKE_PAIRS
    } else {
        1
    };
    let mut count: u32 = 0;
    let mut i: usize = start;
    while i < n
        invariant
            n == window@.len(),
            start == spike_search_start(n as int),
            start <= i,
            i <= n || i == start,
            count == spikes_between(window@, start as int, i as int),
            count <= i - start,
            i - start <= SPIKE_PAIRS,
        decreases n - i,
    {
        let later = window.get(i).power_draw;
        let earlier = window.get(i - 1).power_draw;
        if later > earlier && later - earlier > SPIKE_RISE {
            count += 1;
        }
        i += 1;
    }
    count
}

fn sum_draw(window: &RollingWindow<Sample>) -> (sum: u128)
    ensures
        sum == total_draw(window@),
        sum <= window@.len() * u32::MAX,
{
    let n = window.len();
    let mut sum: u128 = 0;
    let mut i: usize = 0;
    assert(window@.take(0) =~= Seq::<Sample>::empty());
    while i < n
        invariant
            n == window@.len(),
            i <= n,
            sum == total_draw(window@.take(i as int)),
            sum <= i * u32::MAX,
        decreases n - i,
    {
        assert(window@.take(i + 1).drop_last() =~= window@.take(i as int));
        assert(i * u32::MAX + u32::MAX == (i + 1) * u32::MAX) by (nonlinear_arith);
        assert(i * u32::MAX <= usize::MAX * u32::MAX) by (nonlinear_arith)
            requires
                i <= usize::MAX,
        ;
        sum += window.get(i).power_draw as u128;
        i += 1;
    }
    assert(window@.take(n as int) =~= window@);
    sum
}

impl HealthMonitor {
    /// Derives the power metrics from the window and the current sample.
    pub fn calculate_power_metrics(&self, current: &Sample) -> (metrics: PowerMetrics)
        ensures
            metrics == power_metrics(self.samples(), *current),
            metrics.power_spikes <= SPIKE_PAIRS,
    {
        proof {
            self.lemma_parts();
        }
        let power = current.power_draw;
        let utilization = current.gpu_utilization;
        let efficiency: u64 = if power > 0 {
            utilization as u64 * 1000 / power as u64
        } else {
            0
        };
        let power_spikes = count_spikes(&self.history_window);
        let n = self.history_window.len();
        let avg_draw_1hr: u32 = if n == 0 {
            power
        } else {
            let sum = sum_draw(&self.history_window);
            let mean = sum / n as u128;
            assert(mean <= u32::MAX) by (nonlinear_arith)
                requires
                    mean == sum / n as u128,
                    sum <= n * u32::MAX,
                    n > 0,
            ;
            mean as u32
        };
        PowerMetrics { current_draw: power, efficiency, power_spikes, avg_draw_1hr }
    }
}

} // verus!
