use midgard_sync::numeric::{
    i64_to_string, parse_decimal, parse_decimal_or_zero, parse_i64, parse_i64_or_zero,
    u64_to_string, DecimalValue,
};

#[test]
fn parses_plain_integers() {
    assert_eq!(parse_i64("0"), Some(0));
    assert_eq!(parse_i64("1730430000"), Some(1730430000));
    assert_eq!(parse_i64("+42"), Some(42));
    assert_eq!(parse_i64("-42"), Some(-42));
}

#[test]
fn parses_i64_bounds() {
    assert_eq!(parse_i64("9223372036854775807"), Some(i64::MAX));
    assert_eq!(parse_i64("-9223372036854775808"), Some(i64::MIN));
    assert_eq!(parse_i64("9223372036854775808"), None);
    assert_eq!(parse_i64("-9223372036854775809"), None);
    assert_eq!(parse_i64("99999999999999999999999"), None);
}

#[test]
fn rejects_malformed_integers() {
    assert_eq!(parse_i64(""), None);
    assert_eq!(parse_i64("-"), None);
    assert_eq!(parse_i64("+"), None);
    assert_eq!(parse_i64("12a"), None);
    assert_eq!(parse_i64("not-a-number"), None);
    assert_eq!(parse_i64(" 5"), None);
    assert_eq!(parse_i64("5 "), None);
    assert_eq!(parse_i64("1.5"), None);
}

#[test]
fn integer_default_policy() {
    assert_eq!(parse_i64_or_zero("not-a-number"), 0);
    assert_eq!(parse_i64_or_zero(""), 0);
    assert_eq!(parse_i64_or_zero("7"), 7);
}

#[test]
fn parses_decimals_through_backing_crate() {
    let d = parse_decimal("1.5").expect("1.5 parses");
    assert_eq!(d, DecimalValue { mantissa: 15, scale: 1 });
    let d = parse_decimal("-0.25").expect("-0.25 parses");
    assert_eq!(d, DecimalValue { mantissa: -25, scale: 2 });
    let d = parse_decimal("12").expect("12 parses");
    assert_eq!(d, DecimalValue { mantissa: 12, scale: 0 });
    assert_eq!(parse_decimal("not-a-number"), None);
}

#[test]
fn decimal_default_policy() {
    assert_eq!(parse_decimal_or_zero("garbage"), DecimalValue { mantissa: 0, scale: 0 });
    assert_eq!(parse_decimal_or_zero("2.75"), DecimalValue { mantissa: 275, scale: 2 });
}

#[test]
fn renders_integers() {
    assert_eq!(u64_to_string(0), "0");
    assert_eq!(u64_to_string(1730430000), "1730430000");
    assert_eq!(i64_to_string(-1), "-1");
    assert_eq!(i64_to_string(i64::MIN), "-9223372036854775808");
    assert_eq!(i64_to_string(i64::MAX), "9223372036854775807");
}
