use fitui::amount::{format_cents, parse_amount};

#[test]
fn parse_plain_integer() {
    assert_eq!(parse_amount("100"), 10000);
}

#[test]
fn parse_two_fraction_digits() {
    assert_eq!(parse_amount("12.34"), 1234);
}

#[test]
fn parse_one_fraction_digit() {
    assert_eq!(parse_amount("7.5"), 750);
}

#[test]
fn parse_trailing_point() {
    assert_eq!(parse_amount("3."), 300);
}

#[test]
fn parse_leading_point() {
    assert_eq!(parse_amount(".5"), 50);
}

#[test]
fn parse_extra_fraction_digits_truncate() {
    assert_eq!(parse_amount("1.239"), 123);
}

#[test]
fn parse_trims_whitespace() {
    assert_eq!(parse_amount("  42.00 \n"), 4200);
}

#[test]
fn parse_unparsable_text_falls_back_to_zero() {
    assert_eq!(parse_amount("abc"), 0);
}

#[test]
fn parse_empty_falls_back_to_zero() {
    assert_eq!(parse_amount(""), 0);
    assert_eq!(parse_amount("   "), 0);
}

#[test]
fn parse_lone_point_falls_back_to_zero() {
    assert_eq!(parse_amount("."), 0);
}

#[test]
fn parse_two_points_falls_back_to_zero() {
    assert_eq!(parse_amount("1.2.3"), 0);
}

#[test]
fn parse_negative_falls_back_to_zero() {
    assert_eq!(parse_amount("-5"), 0);
}

#[test]
fn parse_overflowing_value_falls_back_to_zero() {
    assert_eq!(parse_amount("99999999999999999999999999999999"), 0);
}

#[test]
fn format_zero() {
    assert_eq!(format_cents(0), "0.00");
}

#[test]
fn format_fraction_only() {
    assert_eq!(format_cents(5), "0.05");
}

#[test]
fn format_mixed() {
    assert_eq!(format_cents(12345), "123.45");
}

#[test]
fn format_parse_round_trip_samples() {
    for a in [0u64, 1, 99, 100, 101, 10000, 123456789, u64::MAX] {
        assert_eq!(parse_amount(&format_cents(a)), a);
    }
}
