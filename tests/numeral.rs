use pricebot::numeral::{
    divide, fixed4_string, numeral_sign, parse_decimal, power_of_ten, round_to_whole,
    to_fixed4_units, Decimal, Sign,
};

fn d(m: u64, s: u32) -> Decimal {
    Decimal { mantissa: m, scale: s }
}

#[test]
fn numerals_are_read_exactly() {
    assert_eq!(parse_decimal("1.2345"), Some(d(12345, 4)));
    assert_eq!(parse_decimal("1000"), Some(d(1000, 0)));
    assert_eq!(parse_decimal("0.000000001234"), Some(d(1234, 12)));
    assert_eq!(parse_decimal("007.50"), Some(d(750, 2)));
}

#[test]
fn malformed_numerals_are_refused() {
    assert_eq!(parse_decimal(""), None);
    assert_eq!(parse_decimal("."), None);
    assert_eq!(parse_decimal("1."), None);
    assert_eq!(parse_decimal(".5"), None);
    assert_eq!(parse_decimal("1.2.3"), None);
    assert_eq!(parse_decimal("-1"), None);
    assert_eq!(parse_decimal("1e5"), None);
    assert_eq!(parse_decimal(" 1"), None);
}

#[test]
fn numerals_beyond_the_limits_are_refused() {
    assert_eq!(parse_decimal("18446744073709551615"), Some(d(u64::MAX, 0)));
    assert_eq!(parse_decimal("18446744073709551616"), None);
    assert_eq!(parse_decimal("0.000000000000000001"), Some(d(1, 18)));
    assert_eq!(parse_decimal("0.0000000000000000001"), None);
}

#[test]
fn rounding_to_whole_goes_half_up() {
    assert_eq!(round_to_whole(d(205, 1)), 21);
    assert_eq!(round_to_whole(d(2049, 2)), 20);
    assert_eq!(round_to_whole(d(7, 0)), 7);
    assert_eq!(power_of_ten(18), 1_000_000_000_000_000_000);
}

#[test]
fn four_decimals_round_half_to_even() {
    assert_eq!(fixed4_string(to_fixed4_units(d(12345, 4))), "1.2345");
    assert_eq!(fixed4_string(to_fixed4_units(d(123455, 5))), "1.2346");
    assert_eq!(fixed4_string(to_fixed4_units(d(123445, 5))), "1.2344");
    assert_eq!(fixed4_string(to_fixed4_units(d(1234451, 6))), "1.2345");
    assert_eq!(fixed4_string(to_fixed4_units(d(5, 0))), "5.0000");
    assert_eq!(fixed4_string(to_fixed4_units(d(7, 6))), "0.0000");
    assert_eq!(fixed4_string(0), "0.0000");
}

#[test]
fn division_cuts_towards_zero() {
    assert_eq!(divide(d(100, 1), d(20, 1)), Some(d(500_000_000, 8)));
    assert_eq!(divide(d(2, 0), d(3, 0)), Some(d(66_666_666, 8)));
    assert_eq!(divide(d(1, 18), d(3, 0)), Some(d(0, 8)));
    assert_eq!(divide(d(1, 0), d(0, 0)), None);
    assert_eq!(divide(d(u64::MAX, 0), d(1, 18)), None);
}

#[test]
fn signs_of_numerals() {
    assert_eq!(numeral_sign("3.5"), Sign::Positive);
    assert_eq!(numeral_sign("-0.01"), Sign::Negative);
    assert_eq!(numeral_sign("0.000"), Sign::Zero);
    assert_eq!(numeral_sign(""), Sign::Zero);
}
