use clip_engine::decimal::{parse_decimal, Decimal};
use clip_engine::text::{parse_u64, strip_trailing, trim_str, u64_to_string};

fn dec(micros: u64) -> Decimal {
    Decimal { negative: false, micros }
}

fn neg(micros: u64) -> Decimal {
    Decimal { negative: true, micros }
}

#[test]
fn parse_decimal_plain_and_fractional() {
    assert_eq!(parse_decimal("3"), Some(dec(3_000_000)));
    assert_eq!(parse_decimal("29.97"), Some(dec(29_970_000)));
    assert_eq!(parse_decimal("0.5"), Some(dec(500_000)));
    assert_eq!(parse_decimal("1.5"), Some(dec(1_500_000)));
}

#[test]
fn parse_decimal_signs_and_bare_points() {
    assert_eq!(parse_decimal("+2"), Some(dec(2_000_000)));
    assert_eq!(parse_decimal("-1.5"), Some(neg(1_500_000)));
    assert_eq!(parse_decimal(".5"), Some(dec(500_000)));
    assert_eq!(parse_decimal("5."), Some(dec(5_000_000)));
    assert_eq!(parse_decimal("-0"), Some(dec(0)));
    assert_eq!(parse_decimal("-0.0"), Some(dec(0)));
}

#[test]
fn parse_decimal_truncates_beyond_micro_precision() {
    assert_eq!(parse_decimal("1.0000009"), Some(dec(1_000_000)));
    assert_eq!(parse_decimal("0.1234567"), Some(dec(123_456)));
}

#[test]
fn parse_decimal_rejects_garbage() {
    assert_eq!(parse_decimal(""), None);
    assert_eq!(parse_decimal("."), None);
    assert_eq!(parse_decimal("-"), None);
    assert_eq!(parse_decimal("1.2.3"), None);
    assert_eq!(parse_decimal("1e5"), None);
    assert_eq!(parse_decimal("abc"), None);
    assert_eq!(parse_decimal("1.5x"), None);
    assert_eq!(parse_decimal("--1"), None);
    assert_eq!(parse_decimal(" 1"), None);
}

#[test]
fn parse_decimal_rejects_magnitudes_that_do_not_fit() {
    assert_eq!(parse_decimal("18446744073709551616"), None);
    assert_eq!(parse_decimal("18446744073709.551615"), Some(dec(u64::MAX)));
}

#[test]
fn render_drops_whole_point_and_trailing_zeros() {
    assert_eq!(dec(3_000_000).render(), "3");
    assert_eq!(dec(1_500_000).render(), "1.5");
    assert_eq!(dec(500_000).render(), "0.5");
    assert_eq!(dec(2_000_000).render(), "2");
    assert_eq!(dec(0).render(), "0");
    assert_eq!(dec(1_250_000).render(), "1.25");
    assert_eq!(dec(1).render(), "0.000001");
    assert_eq!(neg(1_250_000).render(), "-1.25");
}

#[test]
fn clamp_forces_value_into_range() {
    let lo = dec(500_000);
    let hi = dec(2_000_000);
    assert_eq!(dec(3_000_000).clamp(lo, hi), hi);
    assert_eq!(dec(100_000).clamp(lo, hi), lo);
    assert_eq!(dec(1_000_000).clamp(lo, hi), dec(1_000_000));
    assert_eq!(neg(1_000_000).clamp(lo, hi), lo);
}

#[test]
fn mul_truncates_toward_zero() {
    assert_eq!(dec(30_000_000).mul(dec(500_000)), Some(dec(15_000_000)));
    assert_eq!(dec(1_500_000).mul(neg(2_000_000)), Some(neg(3_000_000)));
    assert_eq!(neg(1_000_000).mul(neg(1_000_000)), Some(dec(1_000_000)));
    assert_eq!(dec(3).mul(dec(3)), Some(dec(0)));
}

#[test]
fn mul_reports_overflow_as_none() {
    assert_eq!(dec(u64::MAX).mul(dec(u64::MAX)), None);
}

#[test]
fn lt_orders_signed_values() {
    assert!(neg(1).lt(dec(0)));
    assert!(dec(1).lt(dec(2)));
    assert!(neg(2_000_000).lt(neg(1_000_000)));
    assert!(!dec(2).lt(dec(2)));
}

#[test]
fn from_units_scales_to_micros() {
    assert_eq!(Decimal::from_units(3), dec(3_000_000));
    assert_eq!(Decimal::from_units(0), dec(0));
}

#[test]
fn new_normalises_negative_zero() {
    assert_eq!(Decimal::new(true, 0), dec(0));
    assert_eq!(Decimal::new(true, 5), neg(5));
}

#[test]
fn parse_u64_matches_the_unsigned_grammar() {
    assert_eq!(parse_u64("0"), Some(0));
    assert_eq!(parse_u64("+123"), Some(123));
    assert_eq!(parse_u64("18446744073709551615"), Some(u64::MAX));
    assert_eq!(parse_u64("18446744073709551616"), None);
    assert_eq!(parse_u64(""), None);
    assert_eq!(parse_u64("+"), None);
    assert_eq!(parse_u64("-1"), None);
    assert_eq!(parse_u64("12a"), None);
    assert_eq!(parse_u64(" 12"), None);
}

#[test]
fn u64_to_string_renders_decimal_digits() {
    assert_eq!(u64_to_string(0), "0");
    assert_eq!(u64_to_string(7), "7");
    assert_eq!(u64_to_string(240), "240");
    assert_eq!(u64_to_string(u64::MAX), "18446744073709551615");
}

#[test]
fn trim_removes_ascii_whitespace_both_sides() {
    assert_eq!(trim_str("  a b \r\n"), "a b");
    assert_eq!(trim_str(""), "");
    assert_eq!(trim_str(" \t "), "");
    assert_eq!(trim_str("x"), "x");
}

#[test]
fn strip_trailing_removes_all_trailing_occurrences() {
    assert_eq!(strip_trailing("1.5x", 'x'), "1.5");
    assert_eq!(strip_trailing("1.5xx", 'x'), "1.5");
    assert_eq!(strip_trailing("1.5x ", 'x'), "1.5x ");
    assert_eq!(strip_trailing("", 'x'), "");
}
