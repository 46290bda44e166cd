use derpiboorust::encode::{encode_bool, encode_i64, encode_u64, parse_u64};

#[test]
fn unsigned_decimal_form() {
    assert_eq!(encode_u64(0), "0");
    assert_eq!(encode_u64(7), "7");
    assert_eq!(encode_u64(42), "42");
    assert_eq!(encode_u64(1941825), "1941825");
    assert_eq!(encode_u64(u64::MAX), "18446744073709551615");
}

#[test]
fn signed_decimal_form() {
    assert_eq!(encode_i64(0), "0");
    assert_eq!(encode_i64(322), "322");
    assert_eq!(encode_i64(-42), "-42");
    assert_eq!(encode_i64(i64::MIN), "-9223372036854775808");
    assert_eq!(encode_i64(i64::MAX), "9223372036854775807");
}

#[test]
fn boolean_form() {
    assert_eq!(encode_bool(true), "true");
    assert_eq!(encode_bool(false), "false");
}

#[test]
fn encoding_is_deterministic() {
    assert_eq!(encode_u64(1941825), encode_u64(1941825));
    assert_eq!(encode_i64(-322), encode_i64(-322));
    assert_eq!(encode_bool(true), encode_bool(true));
}

#[test]
fn parse_accepts_decimal_u64() {
    assert_eq!(parse_u64("0"), Some(0));
    assert_eq!(parse_u64("1941825"), Some(1941825));
    assert_eq!(parse_u64("+123"), Some(123));
    assert_eq!(parse_u64("0042"), Some(42));
    assert_eq!(parse_u64("18446744073709551615"), Some(u64::MAX));
}

#[test]
fn parse_rejects_bad_text() {
    assert_eq!(parse_u64(""), None);
    assert_eq!(parse_u64("+"), None);
    assert_eq!(parse_u64("abc"), None);
    assert_eq!(parse_u64("-1"), None);
    assert_eq!(parse_u64(" 1"), None);
    assert_eq!(parse_u64("1 "), None);
    assert_eq!(parse_u64("12.5"), None);
    assert_eq!(parse_u64("++1"), None);
}

#[test]
fn parse_rejects_overflow() {
    assert_eq!(parse_u64("18446744073709551616"), None);
    assert_eq!(parse_u64("99999999999999999999999"), None);
}

#[test]
fn encode_then_parse_round_trip() {
    for n in [0u64, 1, 9, 10, 99, 1941825, u64::MAX] {
        assert_eq!(parse_u64(encode_u64(n).as_str()), Some(n));
    }
}
