//! The pieces that tables and screens are made of: quantities written with
//! a fixed number of places, flags, and texts with a word for what is
//! absent.

use crate::decimal::{
    decimal, plus_signed_ratio_text, push_decimal, push_plus_signed_ratio, push_ratio,
    push_signed_ratio, ratio_text, signed_ratio_text,
};
use crate::health::MIB;
use vstd::prelude::*;
use vstd::string::StringExecFns;

verus! {

/// Bytes per gibibyte.
pub const GIB: u64 = 1_073_741_824;

/// A quantity held in thousandths, written with one decimal place.
pub open spec fn tenths(milli: int) -> Seq<char> {
    signed_ratio_text(milli, 1000, 1)
}

/// A quantity held in thousandths, written without decimal places.
pub open spec fn rounded(milli: int) -> Seq<char> {
    signed_ratio_text(milli, 1000, 0)
}

/// The share `part / whole` in percent with one decimal place. A whole of
/// zero gives `NaN` for no part and `inf` for any other.
pub open spec fn percent_text(part: nat, whole: nat) -> Seq<char> {
    if whole == 0 {
        if part == 0 {
            "NaN"@
        } else {
            "inf"@
        }
    } else {
        ratio_text(part * 100, whole, 1)
    }
}

pub open spec fn yes_no(flag: bool) -> Seq<char> {
    if flag {
        "Yes"@
    } else {
        "No"@
    }
}

/// The text, or `fallback` for none.
pub open spec fn text_or(text: Option<Seq<char>>, fallback: Seq<char>) -> Seq<char> {
    match text {
        Some(t) => t,
        None => fallback,
    }
}

/// The number in decimal, or `fallback` for none.
pub open spec fn number_or(number: Option<u32>, fallback: Seq<char>) -> Seq<char> {
    match number {
        Some(n) => decimal(n as nat),
        None => fallback,
    }
}

/// A memory trend as it is written: within the range of a `u64` either way.
pub open spec fn written_trend(trend: i128) -> int {
    if trend > u64::MAX {
        u64::MAX as int
    } else if trend < -(u64::MAX as int) {
        -(u64::MAX as int)
    } else {
        trend as int
    }
}

/// A quantity held in thousandths, rounded to a whole number, or
/// `fallback` for none.
pub open spec fn rounded_or(quantity: Option<u32>, fallback: Seq<char>) -> Seq<char> {
    match quantity {
        Some(q) => rounded(q as int),
        None => fallback,
    }
}

/// A number of bytes in gibibytes, with the given number of places.
pub open spec fn gibibytes(bytes: u64, places: nat) -> Seq<char> {
    ratio_text(bytes as nat, GIB as nat, places)
}

/// A memory trend, given in bytes a minute, in mebibytes a minute with its
/// sign and the given number of places.
pub open spec fn trend_text(trend: i128, places: nat) -> Seq<char> {
    plus_signed_ratio_text(written_trend(trend), MIB as nat, places)
}

/// Appends the piece of the same name.
pub fn push_tenths(s: &mut String, milli: i64)
    ensures
        final(s)@ == old(s)@ + tenths(milli as int),
{
    push_signed_ratio(s, milli as i128, 1000, 1);
}

/// Appends the piece of the same name.
pub fn push_rounded(s: &mut String, milli: i64)
    ensures
        final(s)@ == old(s)@ + rounded(milli as int),
{
    push_signed_ratio(s, milli as i128, 1000, 0);
}

/// Appends the piece of the same name.
pub fn push_percent(s: &mut String, part: u64, whole: u64)
    ensures
        final(s)@ == old(s)@ + percent_text(part as nat, whole as nat),
{
    if whole == 0 {
        if part == 0 {
            s.append("NaN");
        } else {
            s.append("inf");
        }
    } else {
        push_ratio(s, part as u128 * 100, whole as u128, 1);
    }
}

/// Appends the piece of the same name.
pub fn push_yes_no(s: &mut String, flag: bool)
    ensures
        final(s)@ == old(s)@ + yes_no(flag),
{
    if flag {
        s.append("Yes");
    } else {
        s.append("No");
    }
}

/// Appends the piece of the same name.
pub fn push_number_or(s: &mut String, number: Option<u32>, fallback: &str)
    ensures
        final(s)@ == old(s)@ + number_or(number, fallback@),
{
    match number {
        Some(n) => push_decimal(s, n as u128),
        None => s.append(fallback),
    }
}

/// Appends the piece of the same name.
pub fn push_text_or(s: &mut String, text: &Option<String>, fallback: &str)
    ensures
        final(s)@ == old(s)@ + text_or(
            match *text {
                Some(t) => Some(t@),
                None => None,
            },
            fallback@,
        ),
{
    match text {
        Some(t) => s.append(t.as_str()),
        None => s.append(fallback),
    }
}

/// Appends the piece of the same name.
pub fn push_rounded_or(s: &mut String, quantity: Option<u32>, fallback: &str)
    ensures
        final(s)@ == old(s)@ + rounded_or(quantity, fallback@),
{
    match quantity {
        Some(q) => push_rounded(s, q as i64),
        None => s.append(fallback),
    }
}

/// Appends a number of bytes in gibibytes.
pub fn push_gibibytes(s: &mut String, bytes: u64, places: u32)
    requires
        places <= 3,
    ensures
        final(s)@ == old(s)@ + gibibytes(bytes, places as nat),
{
    push_ratio(s, bytes as u128, GIB as u128, places);
}

/// Appends a memory trend in mebibytes a minute.
pub fn push_trend(s: &mut String, trend: i128, places: u32)
    requires
        places <= 3,
    ensures
        final(s)@ == old(s)@ + trend_text(trend, places as nat),
{
    let written: i128 = if trend > u64::MAX as i128 {
        u64::MAX as i128
    } else if trend < -(u64::MAX as i128) {
        -(u64::MAX as i128)
    } else {
        trend
    };
    push_plus_signed_ratio(s, written, MIB as u128, places);
}

} // verus!
