//! What the screens say of a reading at a glance: tones, marks and words,
//! and the small chart of a series.

use crate::decimal::{decimal, push_decimal, push_signed_ratio, signed_ratio_text};
use crate::health::{HealthStatus, TemperatureMetrics};
use crate::state::ViewMode;
use crate::utils::{create_sparkline, sparkline};
use vstd::prelude::*;
use vstd::string::StringExecFns;

verus! {

/// A colour by its name.
#[derive(Debug, Clone, Copy, PartialEq, Eq, Structural)]
pub enum Tone {
    Red,
    Yellow,
    Green,
    Blue,
    Cyan,
    Magenta,
    White,
}

/// How warm the device is.
#[derive(Debug, Clone, Copy, PartialEq, Eq, Structural)]
pub enum TemperatureState {
    Critical,
    High,
    Warm,
    Cool,
}

/// How likely a memory leak is.
#[derive(Debug, Clone, Copy, PartialEq, Eq, Structural)]
pub enum LeakState {
    LeakLikely,
    Monitor,
    Healthy,
}

/// The tone of a share in use, in thousandths of a percent: red above 80 %,
/// yellow above 60 %, green above 30 %, blue below.
pub open spec fn usage_tone(usage: int) -> Tone {
    if usage > 80_000 {
        Tone::Red
    } else if usage > 60_000 {
        Tone::Yellow
    } else if usage > 30_000 {
        Tone::Green
    } else {
        Tone::Blue
    }
}

/// The tone of a temperature, in thousandths of a degree: red above 85 °C,
/// yellow above 75 °C, green below.
pub open spec fn temperature_tone(temperature: int) -> Tone {
    if temperature > 85_000 {
        Tone::Red
    } else if temperature > 75_000 {
        Tone::Yellow
    } else {
        Tone::Green
    }
}

/// The mark of a process by its share of the device, in thousandths of a
/// percent.
pub open spec fn usage_mark(usage: int) -> Seq<char> {
    if usage > 80_000 {
        "🔴"@
    } else if usage > 50_000 {
        "🟡"@
    } else if usage > 0 {
        "🟢"@
    } else {
        "⚫"@
    }
}

/// How warm the device is by its metrics: critical and high by its own
/// limits, warm above 70 °C.
pub open spec fn temperature_state_of(temperature: TemperatureMetrics) -> TemperatureState {
    if temperature.current >= temperature.critical {
        TemperatureState::Critical
    } else if temperature.current >= temperature.max_safe {
        TemperatureState::High
    } else if temperature.current > 70_000 {
        TemperatureState::Warm
    } else {
        TemperatureState::Cool
    }
}

/// How likely a leak is by the suspicion of one, in thousandths.
pub open spec fn leak_state_of(leak_suspicion: int) -> LeakState {
    if leak_suspicion > 700 {
        LeakState::LeakLikely
    } else if leak_suspicion > 300 {
        LeakState::Monitor
    } else {
        LeakState::Healthy
    }
}

impl HealthStatus {
    pub open spec fn spec_tone(self) -> Tone {
        match self {
            HealthStatus::Excellent => Tone::Green,
            HealthStatus::Good => Tone::Blue,
            HealthStatus::Warning => Tone::Yellow,
            HealthStatus::Critical => Tone::Red,
        }
    }

    /// The colour of the level.
    pub fn tone(&self) -> (tone: Tone)
        ensures
            tone == self.spec_tone(),
    {
        match self {
            HealthStatus::Excellent => Tone::Green,
            HealthStatus::Good => Tone::Blue,
            HealthStatus::Warning => Tone::Yellow,
            HealthStatus::Critical => Tone::Red,
        }
    }
}

impl TemperatureState {
    pub open spec fn spec_mark(self) -> Seq<char> {
        match self {
            TemperatureState::Critical => "🔥"@,
            TemperatureState::High => "🌡️"@,
            TemperatureState::Warm => "🟡"@,
            TemperatureState::Cool => "❄️"@,
        }
    }

    pub open spec fn spec_label(self) -> Seq<char> {
        match self {
            TemperatureState::Critical => "Critical"@,
            TemperatureState::High => "High"@,
            TemperatureState::Warm => "Warm"@,
            TemperatureState::Cool => "Cool"@,
        }
    }

    pub open spec fn spec_tone(self) -> Tone {
        match self {
            TemperatureState::Critical => Tone::Red,
            TemperatureState::High => Tone::Yellow,
            TemperatureState::Warm => Tone::Yellow,
            TemperatureState::Cool => Tone::Green,
        }
    }

    /// How warm the device is by its metrics.
    pub fn of(temperature: &TemperatureMetrics) -> (state: TemperatureState)
        ensures
            state == temperature_state_of(*temperature),
    {
        if temperature.current >= temperature.critical {
            TemperatureState::Critical
        } else if temperature.current >= temperature.max_safe {
            TemperatureState::High
        } else if temperature.current > 70_000 {
            TemperatureState::Warm
        } else {
            TemperatureState::Cool
        }
    }

    pub fn mark(&self) -> (mark: &'static str)
        ensures
            mark@ == self.spec_mark(),
    {
        match self {
            TemperatureState::Critical => "🔥",
            TemperatureState::High => "🌡️",
            TemperatureState::Warm => "🟡",
            TemperatureState::Cool => "❄️",
        }
    }

    pub fn label(&self) -> (label: &'static str)
        ensures
            label@ == self.spec_label(),
    {
        match self {
            TemperatureState::Critical => "Critical",
            TemperatureState::High => "High",
            TemperatureState::Warm => "Warm",
            TemperatureState::Cool => "Cool",
        }
    }

    pub fn tone(&self) -> (tone: Tone)
        ensures
            tone == self.spec_tone(),
    {
        match self {
            TemperatureState::Critical => Tone::Red,
            TemperatureState::High => Tone::Yellow,
            TemperatureState::Warm => Tone::Yellow,
            TemperatureState::Cool => Tone::Green,
        }
    }
}

impl LeakState {
    pub open spec fn spec_mark(self) -> Seq<char> {
        match self {
            LeakState::LeakLikely => "🔴"@,
            LeakState::Monitor => "🟡"@,
            LeakState::Healthy => "🟢"@,
        }
    }

    pub open spec fn spec_label(self) -> Seq<char> {
        match self {
            LeakState::LeakLikely => "Leak Likely"@,
            LeakState::Monitor => "Monitor"@,
            LeakState::Healthy => "Healthy"@,
        }
    }

    pub open spec fn spec_tone(self) -> Tone {
        match self {
            LeakState::LeakLikely => Tone::Red,
            LeakState::Monitor => Tone::Yellow,
            LeakState::Healthy => Tone::Cyan,
        }
    }

    /// How likely a leak is by the suspicion of one, in thousandths.
    pub fn of(leak_suspicion: u32) -> (state: LeakState)
        ensures
            state == leak_state_of(leak_suspicion as int),
    {
        if leak_suspicion > 700 {
            LeakState::LeakLikely
        } else if leak_suspicion > 300 {
            LeakState::Monitor
        } else {
            LeakState::Healthy
        }
    }

    pub fn mark(&self) -> (mark: &'static str)
        ensures
            mark@ == self.spec_mark(),
    {
        match self {
            LeakState::LeakLikely => "🔴",
            LeakState::Monitor => "🟡",
            LeakState::Healthy => "🟢",
        }
    }

    pub fn label(&self) -> (label: &'static str)
        ensures
            label@ == self.spec_label(),
    {
        match self {
            LeakState::LeakLikely => "Leak Likely",
            LeakState::Monitor => "Monitor",
            LeakState::Healthy => "Healthy",
        }
    }

    pub fn tone(&self) -> (tone: Tone)
        ensures
            tone == self.spec_tone(),
    {
        match self {
            LeakState::LeakLikely => Tone::Red,
            LeakState::Monitor => Tone::Yellow,
            LeakState::Healthy => Tone::Cyan,
        }
    }
}

impl ViewMode {
    /// The place of the page among the tabs.
    pub open spec fn spec_tab(self) -> usize {
        match self {
            ViewMode::Processes => 0,
            ViewMode::Performance => 1,
            ViewMode::Hardware => 2,
            ViewMode::Health => 3,
        }
    }

    /// The keys that the foot of the page names.
    pub open spec fn spec_help(self) -> Seq<char> {
        match self {
            ViewMode::Processes => "q=Quit • ↑↓=Nav • Enter=Details • Del=Kill • Ctrl+E=Export • h=Help"@,
            _ => "q=Quit • F1-F4=GPU • Ctrl+E=Export • h=Help"@,
        }
    }

    pub fn tab(&self) -> (index: usize)
        ensures
            index == self.spec_tab(),
    {
        match self {
            ViewMode::Processes => 0,
            ViewMode::Performance => 1,
            ViewMode::Hardware => 2,
            ViewMode::Health => 3,
        }
    }

    pub fn help(&self) -> (text: &'static str)
        ensures
            text@ == self.spec_help(),
    {
        match self {
            ViewMode::Processes => "q=Quit • ↑↓=Nav • Enter=Details • Del=Kill • Ctrl+E=Export • h=Help",
            _ => "q=Quit • F1-F4=GPU • Ctrl+E=Export • h=Help",
        }
    }
}

/// The tone of a share in use, in thousandths of a percent.
pub fn get_usage_color(usage: u32) -> (tone: Tone)
    ensures
        tone == usage_tone(usage as int),
{
    if usage > 80_000 {
        Tone::Red
    } else if usage > 60_000 {
        Tone::Yellow
    } else if usage > 30_000 {
        Tone::Green
    } else {
        Tone::Blue
    }
}

/// The tone of a temperature, in thousandths of a degree.
pub fn get_temp_color(temperature: i32) -> (tone: Tone)
    ensures
        tone == temperature_tone(temperature as int),
{
    if temperature > 85_000 {
        Tone::Red
    } else if temperature > 75_000 {
        Tone::Yellow
    } else {
        Tone::Green
    }
}

/// The mark of a process by its share of the device.
pub fn get_usage_mark(usage: u32) -> (mark: &'static str)
    ensures
        mark@ == usage_mark(usage as int),
{
    if usage > 80_000 {
        "🔴"
    } else if usage > 50_000 {
        "🟡"
    } else if usage > 0 {
        "🟢"
    } else {
        "⚫"
    }
}

/// The share of memory in use, in thousandths of a percent, rounded down
/// and as far as a `u32` reaches; zero for a device without memory.
pub open spec fn memory_share_of(used: u64, total: u64) -> u32 {
    if total == 0 {
        0
    } else if used * 100_000 / (total as int) > u32::MAX {
        u32::MAX
    } else {
        (used * 100_000 / (total as int)) as u32
    }
}

/// How far a gauge is filled by a reading given in thousandths, a hundred
/// units being the whole: the reading itself, kept between nothing and the
/// whole.
pub open spec fn gauge_fill_of(reading: int) -> int {
    if reading < 0 {
        0
    } else if reading > 100_000 {
        100_000
    } else {
        reading
    }
}

/// The share of memory in use, in thousandths of a percent.
pub fn memory_share(used: u64, total: u64) -> (share: u32)
    ensures
        share == memory_share_of(used, total),
{
    if total == 0 {
        0
    } else {
        let share = used as u128 * 100_000 / total as u128;
        if share > u32::MAX as u128 {
            u32::MAX
        } else {
            share as u32
        }
    }
}

/// How far a gauge is filled by a reading, in hundred-thousandths of the
/// whole.
pub fn gauge_fill(reading: i64) -> (fill: u32)
    ensures
        fill == gauge_fill_of(reading as int),
        fill <= 100_000,
{
    if reading < 0 {
        0
    } else if reading > 100_000 {
        100_000
    } else {
        reading as u32
    }
}

/// The margin, in percent, either side of a box that takes `percent` of
/// the room and stands in its middle.
pub fn centered_margin(percent: u16) -> (margin: u16)
    requires
        percent <= 100,
    ensures
        margin == (100 - percent) / 2,
{
    (100 - percent) / 2
}

/// The least value of a series that is not empty.
pub open spec fn least(data: Seq<i64>) -> i64
    recommends
        data.len() > 0,
    decreases data.len(),
{
    if data.len() <= 1 {
        data[0]
    } else {
        let rest = least(data.drop_last());
        if data.last() < rest {
            data.last()
        } else {
            rest
        }
    }
}

/// The greatest value of a series that is not empty.
pub open spec fn greatest(data: Seq<i64>) -> i64
    recommends
        data.len() > 0,
    decreases data.len(),
{
    if data.len() <= 1 {
        data[0]
    } else {
        let rest = greatest(data.drop_last());
        if data.last() > rest {
            data.last()
        } else {
            rest
        }
    }
}

/// The level of a value on a scale from `low` (level 0) to `high` (level
/// 7), rounded towards zero and kept within the scale. On a scale of no
/// extent, what lies above it stands at the top and the rest at the
/// bottom.
pub open spec fn chart_level(value: int, low: int, high: int) -> int {
    let (climb, extent) = if high >= low {
        ((value - low) * 7, high - low)
    } else {
        ((low - value) * 7, low - high)
    };
    if climb <= 0 {
        0
    } else if extent == 0 || climb / extent > 7 {
        7
    } else {
        climb / extent
    }
}

/// The levels of a series on a scale.
pub open spec fn chart_levels(data: Seq<i64>, low: int, high: int) -> Seq<u64> {
    Seq::new(data.len(), |i: int| chart_level(data[i] as int, low, high) as u64)
}

/// The mark of a chart by its tone.
pub open spec fn tone_mark(tone: Tone) -> Seq<char> {
    match tone {
        Tone::Green => "🟢"@,
        Tone::Blue => "🔵"@,
        Tone::Red => "🔴"@,
        _ => "⚪"@,
    }
}

/// The number of points that a chart claims to show: those of the series,
/// three hundred at most.
pub open spec fn points_shown(len: nat) -> nat {
    if len > 300 {
        300
    } else {
        len
    }
}

/// The chart of a series of values held in thousandths: a box with the
/// sparkline of the levels, and the newest, the least and the greatest
/// value beneath it.
pub open spec fn time_series_chart(data: Seq<i64>, tone: Tone, low: int, high: int) -> Seq<char> {
    if data.len() == 0 {
        "No data available"@
    } else {
        "┌─────────────────────────────────────────────────────┐\n│ "@ + sparkline(chart_levels(data, low, high)) + "                                                    │\n│ "@ + blanks(52) + "                                           │\n│                                                     │\n│ "@
            + tone_mark(tone) + " Current: "@ + signed_ratio_text(data.last() as int, 1000, 1) + "  Min: "@
            + signed_ratio_text(least(data) as int, 1000, 1) + "  Max: "@ + signed_ratio_text(
            greatest(data) as int,
            1000,
            1,
        ) + "              │\n│ ⏱️  Time Range: Last "@ + decimal(points_shown(data.len())) + " points                      │\n└─────────────────────────────────────────────────────┘"@
    }
}

/// A run of blanks.
pub open spec fn blanks(count: nat) -> Seq<char> {
    Seq::new(count, |i: int| ' ')
}

fn level(value: i64, low: i64, high: i64) -> (l: u64)
    ensures
        l == chart_level(value as int, low as int, high as int),
        l <= 7,
{
    let (climb, extent): (i128, i128) = if high >= low {
        ((value as i128 - low as i128) * 7, high as i128 - low as i128)
    } else {
        ((low as i128 - value as i128) * 7, low as i128 - high as i128)
    };
    if climb <= 0 {
        0
    } else if extent == 0 || climb / extent > 7 {
        7
    } else {
        (climb / extent) as u64
    }
}

fn bounds(data: &[i64]) -> (range: (i64, i64))
    requires
        data@.len() > 0,
    ensures
        range.0 == least(data@),
        range.1 == greatest(data@),
{
    let mut low = data[0];
    let mut high = data[0];
    let mut i: usize = 1;
    assert(data@.take(1) =~= seq![data@[0]]);
    while i < data.len()
        invariant
            1 <= i <= data@.len(),
            low == least(data@.take(i as int)),
            high == greatest(data@.take(i as int)),
        decreases data@.len() - i,
    {
        assert(data@.take(i + 1).drop_last() =~= data@.take(i as int));
        let value = data[i];
        if value < low {
            low = value;
        }
        if value > high {
            high = value;
        }
        i += 1;
    }
    assert(data@.take(data@.len() as int) =~= data@);
    (low, high)
}

fn push_blanks(s: &mut String, count: usize)
    ensures
        final(s)@ == old(s)@ + blanks(count as nat),
{
    let mut i: usize = 0;
    assert(s@ =~= old(s)@ + blanks(0));
    while i < count
        invariant
            i <= count,
            s@ == old(s)@ + blanks(i as nat),
        decreases count - i,
    {
        s.push(' ');
        i += 1;
        assert(s@ =~= old(s)@ + blanks(i as nat));
    }
}

/// Draws a series of values, held in thousandths, as a small chart in a
/// box: the sparkline of the values on the scale from `min_val` to
/// `max_val`, and the newest, the least and the greatest value.
pub fn create_time_series_chart(data: &[i64], tone: Tone, min_val: i64, max_val: i64) -> (chart:
    String)
    ensures
        chart@ == time_series_chart(data@, tone, min_val as int, max_val as int),
{
    if data.len() == 0 {
        return String::from_str("No data available");
    }
    let mut levels: Vec<u64> = Vec::new();
    let mut i: usize = 0;
    while i < data.len()
        invariant
            i <= data@.len(),
            levels@.len() == i,
            forall|j: int|
                0 <= j < i ==> levels@[j] == chart_level(
                    data@[j] as int,
                    min_val as int,
                    max_val as int,
                ) as u64,
        decreases data@.len() - i,
    {
        levels.push(level(data[i], min_val, max_val));
        i += 1;
    }
    assert(levels@ =~= chart_levels(data@, min_val as int, max_val as int));
    let line = create_sparkline(levels.as_slice());
    let (low, high) = bounds(data);
    let shown: usize = if data.len() > 300 {
        300
    } else {
        data.len()
    };
    let mut chart = String::from_str("┌─────────────────────────────────────────────────────┐\n│ ");
    chart.append(line.as_str());
    chart.append("                                                    │\n│ ");
    push_blanks(&mut chart, 52);
    chart.append("                                           │\n│                                                     │\n│ ");
    chart.append(
        match tone {
            Tone::Green => "🟢",
            Tone::Blue => "🔵",
            Tone::Red => "🔴",
            _ => "⚪",
        },
    );
    chart.append(" Current: ");
    push_signed_ratio(&mut chart, data[data.len() - 1] as i128, 1000, 1);
    chart.append("  Min: ");
    push_signed_ratio(&mut chart, low as i128, 1000, 1);
    chart.append("  Max: ");
    push_signed_ratio(&mut chart, high as i128, 1000, 1);
    chart.append("              │\n│ ⏱️  Time Range: Last ");
    push_decimal(&mut chart, shown as u128);
    chart.append(" points                      │\n└─────────────────────────────────────────────────────┘");
    chart
}

} // verus!
