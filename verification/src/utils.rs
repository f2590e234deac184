//! Small text helpers: sparklines, byte counts, truncation to a width.

use crate::decimal::{
    decimal, div_round_half_even, push_decimal, push_with_places, round_half_even, with_places,
};
use crate::width::{char_width, str_width, width_of_char, width_of_str};
use vstd::prelude::*;
use vstd::string::StringExecFns;

verus! {

/// The smallest value of a sequence that is not empty.
pub open spec fn lowest(data: Seq<u64>) -> u64
    recommends
        data.len() > 0,
    decreases data.len(),
{
    if data.len() <= 1 {
        data[0]
    } else {
        let rest = lowest(data.drop_last());
        if data.last() < rest {
            data.last()
        } else {
            rest
        }
    }
}

/// The largest value of a sequence that is not empty.
pub open spec fn highest(data: Seq<u64>) -> u64
    recommends
        data.len() > 0,
    decreases data.len(),
{
    if data.len() <= 1 {
        data[0]
    } else {
        let rest = highest(data.drop_last());
        if data.last() > rest {
            data.last()
        } else {
            rest
        }
    }
}

/// The eight bar characters, from the lowest bar (level 0) to the full
/// block (level 7).
pub open spec fn spark_char(level: int) -> char {
    if level <= 0 {
        '▁'
    } else if level == 1 {
        '▂'
    } else if level == 2 {
        '▃'
    } else if level == 3 {
        '▄'
    } else if level == 4 {
        '▅'
    } else if level == 5 {
        '▆'
    } else if level == 6 {
        '▇'
    } else {
        '█'
    }
}

/// The bar level of a value between `low` and `high`: its place in the
/// range scaled to 0..=7 and rounded down. A range of no extent counts as
/// one.
pub open spec fn spark_level(value: int, low: int, high: int) -> int {
    let range = if high == low {
        1
    } else {
        high - low
    };
    (value - low) * 7 / range
}

/// The sparkline of the data: one bar for each value.
pub open spec fn sparkline(data: Seq<u64>) -> Seq<char> {
    Seq::new(
        data.len(),
        |i: int| spark_char(spark_level(data[i] as int, lowest(data) as int, highest(data) as int)),
    )
}

/// `lowest` and `highest` bound every value and are values of the data.
pub proof fn lemma_extremes(data: Seq<u64>)
    requires
        data.len() > 0,
    ensures
        forall|i: int| 0 <= i < data.len() ==> lowest(data) <= #[trigger] data[i] <= highest(data),
        exists|i: int| 0 <= i < data.len() && data[i] == lowest(data),
        exists|i: int| 0 <= i < data.len() && data[i] == highest(data),
    decreases data.len(),
{
    if data.len() > 1 {
        let front = data.drop_last();
        lemma_extremes(front);
        assert forall|i: int| 0 <= i < data.len() implies lowest(data) <= #[trigger] data[i]
            <= highest(data) by {
            if i < front.len() {
                assert(front[i] == data[i]);
            }
        }
        let lo = choose|i: int| 0 <= i < front.len() && front[i] == lowest(front);
        let hi = choose|i: int| 0 <= i < front.len() && front[i] == highest(front);
        assert(data[lo] == front[lo]);
        assert(data[hi] == front[hi]);
        assert(data[data.len() - 1] == data.last());
    } else {
        assert(data[0] == lowest(data));
    }
}

fn extremes(data: &[u64]) -> (range: (u64, u64))
    requires
        data@.len() > 0,
    ensures
        range.0 == lowest(data@),
        range.1 == highest(data@),
{
    let mut low = data[0];
    let mut high = data[0];
    let mut i: usize = 1;
    assert(data@.take(1) =~= seq![data@[0]]);
    while i < data.len()
        invariant
            1 <= i <= data@.len(),
            low == lowest(data@.take(i as int)),
            high == highest(data@.take(i as int)),
        decreases data@.len() - i,
    {
        assert(data@.take(i + 1).drop_last() =~= data@.take(i as int));
        let value = data[i];
        if value < low {
            low = value;
        }
        if value > high {
            high = value;
        }
        i += 1;
    }
    assert(data@.take(data@.len() as int) =~= data@);
    (low, high)
}

fn bar(level: u128) -> (c: char)
    ensures
        c == spark_char(level as int),
{
    if level == 0 {
        '▁'
    } else if level == 1 {
        '▂'
    } else if level == 2 {
        '▃'
    } else if level == 3 {
        '▄'
    } else if level == 4 {
        '▅'
    } else if level == 5 {
        '▆'
    } else if level == 6 {
        '▇'
    } else {
        '█'
    }
}

/// Draws the data as a row of bars, the smallest value as the lowest bar
/// and the largest as the full block; nothing for no data.
pub fn create_sparkline(data: &[u64]) -> (line: String)
    ensures
        line@ == sparkline(data@),
        line@.len() == data@.len(),
{
    let mut line = String::new();
    if data.len() == 0 {
        assert(line@ =~= sparkline(data@));
        return line;
    }
    let (low, high) = extremes(data);
    proof {
        lemma_extremes(data@);
    }
    let range: u64 = if high == low {
        1
    } else {
        high - low
    };
    let mut i: usize = 0;
    while i < data.len()
        invariant
            i <= data@.len(),
            low == lowest(data@),
            high == highest(data@),
            range == if high == low {
                1
            } else {
                high - low
            },
            forall|j: int| 0 <= j < data@.len() ==> low <= #[trigger] data@[j] <= high,
            line@ == sparkline(data@).take(i as int),
        decreases data@.len() - i,
    {
        let level = (data[i] - low) as u128 * 7 / range as u128;
        line.push(bar(level));
        assert(line@ =~= sparkline(data@).take(i + 1));
        i += 1;
    }
    assert(sparkline(data@).take(data@.len() as int) =~= sparkline(data@));
    line
}

/// Which unit a byte count is written in: 0 for bytes, up to 4 for
/// tebibytes.
pub open spec fn unit_index(bytes: nat) -> nat {
    if bytes < 1024 {
        0
    } else if bytes < 1_048_576 {
        1
    } else if bytes < 1_073_741_824 {
        2
    } else if bytes < 1_099_511_627_776 {
        3
    } else {
        4
    }
}

/// How many bytes make one of the unit.
pub open spec fn unit_size(index: nat) -> nat {
    if index == 0 {
        1
    } else if index == 1 {
        1024
    } else if index == 2 {
        1_048_576
    } else if index == 3 {
        1_073_741_824
    } else {
        1_099_511_627_776
    }
}

pub open spec fn unit_name(index: nat) -> Seq<char> {
    if index == 0 {
        "B"@
    } else if index == 1 {
        "KB"@
    } else if index == 2 {
        "MB"@
    } else if index == 3 {
        "GB"@
    } else {
        "TB"@
    }
}

/// A byte count in the largest binary unit that it fills, up to TB: whole
/// bytes as they are, any larger unit with two decimal places, rounded to
/// the nearest hundredth (a tie to the even one).
pub open spec fn bytes_text(bytes: nat) -> Seq<char> {
    let index = unit_index(bytes);
    if index == 0 {
        decimal(bytes) + " B"@
    } else {
        with_places(round_half_even(bytes * 100, unit_size(index)), 2).push(' ') + unit_name(index)
    }
}

/// Writes a byte count for people to read, as in `1.50 KB`.
pub fn format_bytes(bytes: u64) -> (text: String)
    ensures
        text@ == bytes_text(bytes as nat),
{
    let mut text = String::new();
    if bytes < 1024 {
        push_decimal(&mut text, bytes as u128);
        text.append(" B");
        assert(text@ =~= bytes_text(bytes as nat));
        return text;
    }
    let (size, name): (u64, &str) = if bytes < 1_048_576 {
        (1024, "KB")
    } else if bytes < 1_073_741_824 {
        (1_048_576, "MB")
    } else if bytes < 1_099_511_627_776 {
        (1_073_741_824, "GB")
    } else {
        (1_099_511_627_776, "TB")
    };
    let hundredths = div_round_half_even(bytes as u128 * 100, size as u128);
    push_with_places(&mut text, hundredths, 2);
    text.push(' ');
    text.append(name);
    assert(text@ =~= bytes_text(bytes as nat));
    text
}

/// The columns a character takes when it is counted one by one: a control
/// character takes none.
pub open spec fn columns(c: char) -> nat {
    match char_width(c) {
        Some(w) => w as nat,
        None => 0,
    }
}

/// The longest run of leading characters of `rest` that leaves room for an
/// ellipsis of three columns, `used` columns being taken already, followed
/// by the ellipsis; all of `rest` and no ellipsis where every character
/// fits.
pub open spec fn fitted(rest: Seq<char>, used: nat, max_width: nat) -> Seq<char>
    decreases rest.len(),
{
    if rest.len() == 0 {
        Seq::<char>::empty()
    } else if used + columns(rest[0]) + 3 > max_width {
        "..."@
    } else {
        seq![rest[0]] + fitted(rest.drop_first(), used + columns(rest[0]), max_width)
    }
}

/// The string itself where it is no wider than `max_width` columns, else
/// its beginning cut to leave room for an ellipsis.
pub open spec fn truncated(s: Seq<char>, max_width: nat) -> Seq<char> {
    if str_width(s) <= max_width {
        s
    } else {
        fitted(s, 0, max_width)
    }
}

/// Whether every character of the text takes one column and the text as
/// many columns as it has characters, as is so of printable ASCII.
pub open spec fn single_width(s: Seq<char>) -> bool {
    &&& str_width(s) == s.len()
    &&& forall|i: int| 0 <= i < s.len() ==> char_width(#[trigger] s[i]) == Some(1usize)
}

/// A text of characters one column wide that is too long for `max_width`
/// columns is cut to the length that, with the ellipsis, fills them.
pub proof fn lemma_fitted_single_width(s: Seq<char>, from: int, max_width: nat)
    requires
        single_width(s),
        max_width >= 3,
        s.len() > max_width,
        0 <= from <= max_width - 3,
    ensures
        fitted(s.skip(from), from as nat, max_width) == s.subrange(from, max_width - 3) + "..."@,
    decreases max_width - 3 - from,
{
    let rest = s.skip(from);
    assert(rest[0] == s[from]);
    assert(columns(rest[0]) == 1);
    if from == max_width - 3 {
        assert(s.subrange(from, max_width - 3) + "..."@ =~= "..."@);
    } else {
        lemma_fitted_single_width(s, from + 1, max_width);
        assert(rest.drop_first() =~= s.skip(from + 1));
        assert(seq![s[from]] + (s.subrange(from + 1, max_width - 3) + "..."@) =~= s.subrange(
            from,
            max_width - 3,
        ) + "..."@);
    }
}

/// Text of printable ASCII, and any other whose characters are one column
/// wide each, is kept where it fits and else cut so that it fills
/// `max_width` columns with the ellipsis: the result is never wider than
/// `max_width`, given room for the ellipsis.
pub proof fn lemma_truncated_fits(s: Seq<char>, max_width: nat)
    requires
        single_width(s),
        max_width >= 3,
    ensures
        truncated(s, max_width).len() <= max_width,
        s.len() <= max_width ==> truncated(s, max_width) == s,
        s.len() > max_width ==> truncated(s, max_width) == s.take(max_width - 3) + "..."@,
{
    reveal_strlit("...");
    if s.len() > max_width {
        lemma_fitted_single_width(s, 0, max_width);
        assert(s.skip(0) =~= s);
        assert(s.subrange(0, max_width - 3) =~= s.take(max_width - 3));
    }
}

/// Whether every character of the text is a printable ASCII character:
/// one from the blank to the tilde.
pub open spec fn printable_ascii(s: Seq<char>) -> bool {
    forall|i: int| 0 <= i < s.len() ==> ' ' <= #[trigger] s[i] <= '~'
}

/// Shortens a string to at most `max_width` terminal columns, marking the
/// cut with `...`. Text of printable ASCII is one column wide for each
/// character: it is kept where it is no longer than `max_width`, and else
/// cut so that with the ellipsis it is `max_width` long, or to the
/// ellipsis alone where there is not even room for that.
pub fn truncate_string(s: &str, max_width: usize) -> (text: String)
    ensures
        text@ == truncated(s@, max_width as nat),
        printable_ascii(s@) && s@.len() <= max_width ==> text@ == s@,
        printable_ascii(s@) && s@.len() > max_width && max_width >= 3 ==> text@ == s@.take(
            max_width - 3,
        ) + "..."@,
        printable_ascii(s@) && s@.len() > max_width && max_width < 3 ==> text@ == "..."@,
{
    if width_of_str(s) <= max_width {
        return String::from_str(s);
    }
    let mut text = String::new();
    let mut used: usize = 0;
    assert(s@.skip(0) =~= s@);
    assert(s@.take(0) =~= Seq::<char>::empty());
    for c in it: s.chars()
        invariant
            it.seq() == s@,
            used + 3 <= max_width || it.index() == 0,
            it.index() == 0 ==> used == 0,
            truncated(s@, max_width as nat) == text@ + fitted(
                s@.skip(it.index() as int),
                used as nat,
                max_width as nat,
            ),
            printable_ascii(s@) ==> s@.len() > max_width && used == it.index() && text@
                == s@.take(it.index() as int),
    {
        let ghost i = it.index() as int;
        let w: usize = match width_of_char(c) {
            Some(w) => w,
            None => 0,
        };
        assert(s@[i] == c);
        assert(s@.skip(i)[0] == c);
        assert(s@.skip(i).drop_first() =~= s@.skip(i + 1));
        if max_width < 3 || w > max_width - 3 - used {
            text.append("...");
            assert(text@ =~= truncated(s@, max_width as nat));
            proof {
                if printable_ascii(s@) {
                    if max_width < 3 {
                        assert(text@ =~= "..."@);
                    } else {
                        assert(i == max_width - 3);
                    }
                }
            }
            return text;
        }
        text.push(c);
        used += w;
        assert(truncated(s@, max_width as nat) =~= text@ + fitted(
            s@.skip(i + 1),
            used as nat,
            max_width as nat,
        ));
        assert(printable_ascii(s@) ==> text@ =~= s@.take(i + 1));
    }
    assert(text@ =~= truncated(s@, max_width as nat));
    text
}

} // verus!
