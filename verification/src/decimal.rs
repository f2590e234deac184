//! Decimal rendering of integers and of fixed-point quantities.
//!
//! Quantities that carry a fraction are held as integers scaled by a power
//! of ten; this module writes them out in decimal notation.

use vstd::prelude::*;

verus! {

/// The character for a single decimal digit.
pub open spec fn digit_char(d: nat) -> char
    recommends
        d < 10,
{
    (d + 48) as char
}

/// Decimal notation of `n`, most significant digit first, no leading zero.
pub open spec fn decimal(n: nat) -> Seq<char>
    decreases n,
{
    if n < 10 {
        seq![digit_char(n)]
    } else {
        decimal(n / 10).push(digit_char(n % 10))
    }
}

/// The number that a run of decimal digits stands for.
pub open spec fn digits_value(digits: Seq<char>) -> nat
    decreases digits.len(),
{
    if digits.len() == 0 {
        0
    } else {
        10 * digits_value(digits.drop_last()) + (digits.last() as nat - 48) as nat
    }
}

/// The decimal notation of a number is made of digits alone, begins with a
/// zero only for zero itself, and stands for the number.
pub proof fn lemma_decimal(n: nat)
    ensures
        decimal(n).len() >= 1,
        forall|i: int| 0 <= i < decimal(n).len() ==> '0' <= #[trigger] decimal(n)[i] <= '9',
        decimal(n)[0] == '0' <==> n == 0,
        digits_value(decimal(n)) == n,
    decreases n,
{
    if n < 10 {
        assert(decimal(n).drop_last() =~= Seq::<char>::empty());
        reveal_with_fuel(digits_value, 2);
    } else {
        lemma_decimal(n / 10);
        let front = decimal(n / 10);
        assert(decimal(n).drop_last() =~= front);
        assert(decimal(n)[0] == front[0]);
    }
}

/// The lowest `width` decimal digits of `n`, padded with zeros on the left.
pub open spec fn zero_padded(n: nat, width: nat) -> Seq<char>
    decreases width,
{
    if width == 0 {
        Seq::<char>::empty()
    } else {
        zero_padded(n / 10, (width - 1) as nat).push(digit_char(n % 10))
    }
}

/// `n` without its lowest `places` decimal digits: `n / 10^places`.
pub open spec fn without_lowest(n: nat, places: nat) -> nat
    decreases places,
{
    if places == 0 {
        n
    } else {
        without_lowest(n / 10, (places - 1) as nat)
    }
}

/// `scaled / 10^places` written with exactly `places` digits after the point
/// (and no point when `places` is zero).
pub open spec fn with_places(scaled: nat, places: nat) -> Seq<char> {
    if places == 0 {
        decimal(scaled)
    } else {
        decimal(without_lowest(scaled, places)).push('.') + zero_padded(scaled, places)
    }
}

/// The quotient `n / d` rounded to the nearest integer, a tie going to the
/// even neighbour.
pub open spec fn round_half_even(n: nat, d: nat) -> nat
    recommends
        d > 0,
{
    let q = n / d;
    let r = n % d;
    if 2 * r > d || (2 * r == d && q % 2 == 1) {
        q + 1
    } else {
        q
    }
}

/// `zero_padded` without its trailing zeros.
pub open spec fn trimmed_fraction(n: nat, width: nat) -> Seq<char>
    decreases width,
{
    if width == 0 {
        Seq::<char>::empty()
    } else if n % 10 == 0 {
        trimmed_fraction(n / 10, (width - 1) as nat)
    } else {
        zero_padded(n, width)
    }
}

/// A quantity held in thousandths, written as briefly as its value allows:
/// a minus sign when negative, the whole part, and the fraction without
/// trailing zeros (no point at all for a whole number).
pub open spec fn shortest_milli(v: int) -> Seq<char> {
    let a = (if v < 0 { -v } else { v }) as nat;
    let sign = if v < 0 { seq!['-'] } else { Seq::<char>::empty() };
    let whole = decimal(a / 1000);
    if a % 1000 == 0 {
        sign + whole
    } else {
        sign + whole.push('.') + trimmed_fraction(a % 1000, 3)
    }
}

fn digit(d: u128) -> (c: char)
    requires
        d < 10,
    ensures
        c == digit_char(d as nat),
{
    let b: u8 = (d as u8) + 48u8;
    b as char
}

/// Appends the decimal notation of `n`.
pub fn push_decimal(s: &mut String, n: u128)
    ensures
        final(s)@ == old(s)@ + decimal(n as nat),
    decreases n,
{
    if n >= 10 {
        push_decimal(s, n / 10);
    }
    s.push(digit(n % 10));
    assert(s@ =~= old(s)@ + decimal(n as nat));
}

/// Appends the lowest `width` digits of `n`, zero-padded.
pub fn push_zero_padded(s: &mut String, n: u128, width: u32)
    ensures
        final(s)@ == old(s)@ + zero_padded(n as nat, width as nat),
    decreases width,
{
    if width > 0 {
        push_zero_padded(s, n / 10, width - 1);
        s.push(digit(n % 10));
    }
    assert(s@ =~= old(s)@ + zero_padded(n as nat, width as nat));
}

fn drop_lowest(n: u128, places: u32) -> (r: u128)
    ensures
        r == without_lowest(n as nat, places as nat),
    decreases places,
{
    if places == 0 {
        n
    } else {
        drop_lowest(n / 10, places - 1)
    }
}

/// Appends `scaled / 10^places` with exactly `places` digits after the point.
pub fn push_with_places(s: &mut String, scaled: u128, places: u32)
    ensures
        final(s)@ == old(s)@ + with_places(scaled as nat, places as nat),
{
    if places == 0 {
        push_decimal(s, scaled);
    } else {
        push_decimal(s, drop_lowest(scaled, places));
        s.push('.');
        push_zero_padded(s, scaled, places);
        assert(s@ =~= old(s)@ + with_places(scaled as nat, places as nat));
    }
}

/// `n / d` rounded to the nearest integer, ties to even.
pub fn div_round_half_even(n: u128, d: u128) -> (q: u128)
    requires
        d > 0,
        d <= u128::MAX / 2,
    ensures
        q == round_half_even(n as nat, d as nat),
{
    let q = n / d;
    let r = n % d;
    if 2 * r > d || (2 * r == d && q % 2 == 1) {
        assert(q < u128::MAX) by {
            assert(d >= 2);
            assert(q * d <= n) by (nonlinear_arith)
                requires
                    q == n / d,
                    d > 0,
            ;
            assert(q * 2 <= q * d) by (nonlinear_arith)
                requires
                    d >= 2,
                    q >= 0,
            ;
        }
        q + 1
    } else {
        q
    }
}

fn push_trimmed_fraction(s: &mut String, n: u128, width: u32)
    ensures
        final(s)@ == old(s)@ + trimmed_fraction(n as nat, width as nat),
    decreases width,
{
    if width == 0 {
        assert(s@ =~= old(s)@ + trimmed_fraction(n as nat, width as nat));
    } else if n % 10 == 0 {
        push_trimmed_fraction(s, n / 10, width - 1);
    } else {
        push_zero_padded(s, n, width);
    }
}

/// Appends a quantity held in thousandths in its briefest form.
pub fn push_shortest_milli(s: &mut String, v: i64)
    ensures
        final(s)@ == old(s)@ + shortest_milli(v as int),
{
    let a: u128 = if v < 0 {
        (-(v as i128)) as u128
    } else {
        v as u128
    };
    if v < 0 {
        s.push('-');
    }
    push_decimal(s, a / 1000);
    if a % 1000 != 0 {
        s.push('.');
        push_trimmed_fraction(s, a % 1000, 3);
    }
    assert(s@ =~= old(s)@ + shortest_milli(v as int));
}

/// Ten to the power `places`.
pub open spec fn pow10(places: nat) -> nat
    decreases places,
{
    if places == 0 {
        1
    } else {
        10 * pow10((places - 1) as nat)
    }
}

/// The quotient `n / d` written with `places` digits after the point,
/// rounded to the nearest, a tie to the even neighbour.
pub open spec fn ratio_text(n: nat, d: nat, places: nat) -> Seq<char>
    recommends
        d > 0,
{
    with_places(round_half_even(n * pow10(places), d), places)
}

/// A whole number with its sign: a minus for a negative one, nothing for
/// the others.
pub open spec fn signed_decimal(v: int) -> Seq<char> {
    if v < 0 {
        seq!['-'] + decimal((-v) as nat)
    } else {
        decimal(v as nat)
    }
}

/// The quotient `v / d` of a signed `v` written with `places` digits after
/// the point: the sign of `v`, then its size rounded as `ratio_text` rounds.
/// A negative quotient that rounds to zero keeps its minus.
pub open spec fn signed_ratio_text(v: int, d: nat, places: nat) -> Seq<char>
    recommends
        d > 0,
{
    if v < 0 {
        seq!['-'] + ratio_text((-v) as nat, d, places)
    } else {
        ratio_text(v as nat, d, places)
    }
}

/// As `signed_ratio_text`, with a plus before what is not negative.
pub open spec fn plus_signed_ratio_text(v: int, d: nat, places: nat) -> Seq<char>
    recommends
        d > 0,
{
    if v < 0 {
        seq!['-'] + ratio_text((-v) as nat, d, places)
    } else {
        seq!['+'] + ratio_text(v as nat, d, places)
    }
}

fn power_of_ten(places: u32) -> (unit: u128)
    requires
        places <= 3,
    ensures
        unit == pow10(places as nat),
        unit <= 1000,
{
    reveal_with_fuel(pow10, 4);
    if places == 0 {
        1
    } else if places == 1 {
        10
    } else if places == 2 {
        100
    } else {
        1000
    }
}

/// Appends `n / d` with `places` digits after the point, rounded to the
/// nearest.
pub fn push_ratio(s: &mut String, n: u128, d: u128, places: u32)
    requires
        0 < d <= u128::MAX / 2,
        n <= u128::MAX / 1000,
        places <= 3,
    ensures
        final(s)@ == old(s)@ + ratio_text(n as nat, d as nat, places as nat),
{
    let unit = power_of_ten(places);
    assert(n * unit <= u128::MAX) by (nonlinear_arith)
        requires
            0 <= n <= u128::MAX / 1000,
            0 <= unit <= 1000,
    ;
    let rounded = div_round_half_even(n * unit, d);
    push_with_places(s, rounded, places);
}

/// Appends a whole number with its sign.
pub fn push_signed_decimal(s: &mut String, v: i64)
    ensures
        final(s)@ == old(s)@ + signed_decimal(v as int),
{
    if v < 0 {
        s.push('-');
        push_decimal(s, (-(v as i128)) as u128);
        assert(s@ =~= old(s)@ + signed_decimal(v as int));
    } else {
        push_decimal(s, v as u128);
    }
}

/// Appends `v / d` with `places` digits after the point and a minus before
/// a negative `v`.
pub fn push_signed_ratio(s: &mut String, v: i128, d: u128, places: u32)
    requires
        0 < d <= u128::MAX / 2,
        -(u64::MAX as int) * 1000 <= v <= (u64::MAX as int) * 1000,
        places <= 3,
    ensures
        final(s)@ == old(s)@ + signed_ratio_text(v as int, d as nat, places as nat),
{
    if v < 0 {
        s.push('-');
        push_ratio(s, (-v) as u128, d, places);
        assert(s@ =~= old(s)@ + signed_ratio_text(v as int, d as nat, places as nat));
    } else {
        push_ratio(s, v as u128, d, places);
    }
}

/// Appends `v / d` with `places` digits after the point and its sign, a
/// plus or a minus.
pub fn push_plus_signed_ratio(s: &mut String, v: i128, d: u128, places: u32)
    requires
        0 < d <= u128::MAX / 2,
        -(u64::MAX as int) * 1000 <= v <= (u64::MAX as int) * 1000,
        places <= 3,
    ensures
        final(s)@ == old(s)@ + plus_signed_ratio_text(v as int, d as nat, places as nat),
{
    if v < 0 {
        s.push('-');
        push_ratio(s, (-v) as u128, d, places);
    } else {
        s.push('+');
        push_ratio(s, v as u128, d, places);
    }
    assert(s@ =~= old(s)@ + plus_signed_ratio_text(v as int, d as nat, places as nat));
}

} // verus!
