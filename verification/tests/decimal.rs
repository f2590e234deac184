use gputop::decimal::{
    div_round_half_even, push_decimal, push_shortest_milli, push_with_places, push_zero_padded,
};

fn decimal(n: u128) -> String {
    let mut s = String::new();
    push_decimal(&mut s, n);
    s
}

fn places(scaled: u128, places: u32) -> String {
    let mut s = String::new();
    push_with_places(&mut s, scaled, places);
    s
}

fn milli(v: i64) -> String {
    let mut s = String::new();
    push_shortest_milli(&mut s, v);
    s
}

#[test]
fn integers_in_decimal() {
    assert_eq!(decimal(0), "0");
    assert_eq!(decimal(7), "7");
    assert_eq!(decimal(10), "10");
    assert_eq!(decimal(1234567890), "1234567890");
    assert_eq!(decimal(u64::MAX as u128), "18446744073709551615");
    assert_eq!(decimal(u128::MAX), "340282366920938463463374607431768211455");
}

#[test]
fn digits_are_appended() {
    let mut s = String::from("n=");
    push_decimal(&mut s, 42);
    assert_eq!(s, "n=42");
    push_zero_padded(&mut s, 7, 3);
    assert_eq!(s, "n=42007");
    push_zero_padded(&mut s, 12345, 2);
    assert_eq!(s, "n=4200745");
    push_zero_padded(&mut s, 9, 0);
    assert_eq!(s, "n=4200745");
}

#[test]
fn fixed_number_of_places() {
    assert_eq!(places(0, 0), "0");
    assert_eq!(places(0, 1), "0.0");
    assert_eq!(places(5, 2), "0.05");
    assert_eq!(places(150, 2), "1.50");
    assert_eq!(places(123456, 3), "123.456");
    assert_eq!(places(220, 1), "22.0");
}

#[test]
fn thousandths_in_briefest_form() {
    assert_eq!(milli(0), "0");
    assert_eq!(milli(92_000), "92");
    assert_eq!(milli(92_500), "92.5");
    assert_eq!(milli(92_050), "92.05");
    assert_eq!(milli(92_005), "92.005");
    assert_eq!(milli(1), "0.001");
    assert_eq!(milli(-5_500), "-5.5");
    assert_eq!(milli(-1), "-0.001");
    assert_eq!(milli(i64::MAX), "9223372036854775.807");
    assert_eq!(milli(i64::MIN), "-9223372036854775.808");
}

#[test]
fn whole_degrees_read_like_floating_point() {
    for degrees in [0i64, 1, 65, 80, 92, 100] {
        assert_eq!(milli(degrees * 1000), format!("{}", degrees as f32));
    }
    assert_eq!(milli(92_500), format!("{}", 92.5f32));
    assert_eq!(milli(-250), format!("{}", -0.25f32));
}

#[test]
fn rounding_to_nearest_with_ties_to_even() {
    assert_eq!(div_round_half_even(0, 10), 0);
    assert_eq!(div_round_half_even(14, 10), 1);
    assert_eq!(div_round_half_even(15, 10), 2);
    assert_eq!(div_round_half_even(16, 10), 2);
    assert_eq!(div_round_half_even(25, 10), 2);
    assert_eq!(div_round_half_even(35, 10), 4);
    assert_eq!(div_round_half_even(7, 2), 4);
    assert_eq!(div_round_half_even(5, 2), 2);
    assert_eq!(div_round_half_even(9, 1), 9);
}
