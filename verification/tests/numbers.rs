use event_sink::num::{bool_to_text, i64_to_text, parse_i64};

#[test]
fn format_zero() {
    assert_eq!(i64_to_text(0), "0");
}

#[test]
fn format_positive() {
    assert_eq!(i64_to_text(42), "42");
    assert_eq!(i64_to_text(1070), "1070");
}

#[test]
fn format_negative() {
    assert_eq!(i64_to_text(-5), "-5");
    assert_eq!(i64_to_text(-500), "-500");
}

#[test]
fn format_extremes() {
    assert_eq!(i64_to_text(i64::MAX), "9223372036854775807");
    assert_eq!(i64_to_text(i64::MIN), "-9223372036854775808");
}

#[test]
fn format_booleans() {
    assert_eq!(bool_to_text(true), "true");
    assert_eq!(bool_to_text(false), "false");
}

#[test]
fn parse_plain() {
    assert_eq!(parse_i64("42"), Some(42));
    assert_eq!(parse_i64("0"), Some(0));
    assert_eq!(parse_i64("007"), Some(7));
}

#[test]
fn parse_signs() {
    assert_eq!(parse_i64("-5"), Some(-5));
    assert_eq!(parse_i64("+10"), Some(10));
    assert_eq!(parse_i64("-"), None);
    assert_eq!(parse_i64("+"), None);
}

#[test]
fn parse_extremes() {
    assert_eq!(parse_i64("9223372036854775807"), Some(i64::MAX));
    assert_eq!(parse_i64("-9223372036854775808"), Some(i64::MIN));
    assert_eq!(parse_i64("9223372036854775808"), None);
    assert_eq!(parse_i64("-9223372036854775809"), None);
    assert_eq!(parse_i64("99999999999999999999999999"), None);
}

#[test]
fn parse_rejects_other_text() {
    assert_eq!(parse_i64(""), None);
    assert_eq!(parse_i64("abc"), None);
    assert_eq!(parse_i64("1x"), None);
    assert_eq!(parse_i64("4 2"), None);
    assert_eq!(parse_i64(" 42"), None);
    assert_eq!(parse_i64("4.2"), None);
}

#[test]
fn format_then_parse_restores_value() {
    for v in [0i64, 7, -7, 1070, -1070, i64::MAX, i64::MIN] {
        assert_eq!(parse_i64(&i64_to_text(v)), Some(v));
    }
}
