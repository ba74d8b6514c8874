use cryptocurrency::timestamp::{
    millis_from_parts, parse_timestamp, within_window, TRANSFER_WINDOW_MS,
};

#[test]
fn parse_timestamp_reads_plain_digits() {
    assert_eq!(parse_timestamp("0"), Some(0));
    assert_eq!(parse_timestamp("7"), Some(7));
    assert_eq!(parse_timestamp("1541234567890"), Some(1_541_234_567_890));
    assert_eq!(parse_timestamp("0007"), Some(7));
}

#[test]
fn parse_timestamp_reads_signs() {
    assert_eq!(parse_timestamp("-1"), Some(-1));
    assert_eq!(parse_timestamp("+15"), Some(15));
    assert_eq!(parse_timestamp("-0"), Some(0));
    assert_eq!(parse_timestamp("-000120"), Some(-120));
}

#[test]
fn parse_timestamp_reaches_both_ends_of_the_range() {
    assert_eq!(parse_timestamp("9223372036854775807"), Some(i64::MAX));
    assert_eq!(parse_timestamp("+9223372036854775807"), Some(i64::MAX));
    assert_eq!(parse_timestamp("-9223372036854775808"), Some(i64::MIN));
    assert_eq!(parse_timestamp("-9223372036854775807"), Some(i64::MIN + 1));
}

#[test]
fn parse_timestamp_refuses_numbers_out_of_range() {
    assert_eq!(parse_timestamp("9223372036854775808"), None);
    assert_eq!(parse_timestamp("-9223372036854775809"), None);
    assert_eq!(parse_timestamp("92233720368547758070"), None);
    assert_eq!(parse_timestamp("-92233720368547758080"), None);
    assert_eq!(parse_timestamp("100000000000000000000000000000000000000000"), None);
}

#[test]
fn parse_timestamp_refuses_what_is_not_a_number() {
    assert_eq!(parse_timestamp(""), None);
    assert_eq!(parse_timestamp("+"), None);
    assert_eq!(parse_timestamp("-"), None);
    assert_eq!(parse_timestamp(" 1"), None);
    assert_eq!(parse_timestamp("1 "), None);
    assert_eq!(parse_timestamp("12a"), None);
    assert_eq!(parse_timestamp("a12"), None);
    assert_eq!(parse_timestamp("1_000"), None);
    assert_eq!(parse_timestamp("--1"), None);
    assert_eq!(parse_timestamp("+-1"), None);
    assert_eq!(parse_timestamp("1.5"), None);
    assert_eq!(parse_timestamp("0x10"), None);
    assert_eq!(parse_timestamp("12\u{ff11}"), None);
    assert_eq!(parse_timestamp("\u{0663}"), None);
    assert_eq!(parse_timestamp("99999999999999999999x"), None);
}

#[test]
fn parse_timestamp_agrees_with_the_standard_parser() {
    let samples = vec![
        "0", "1", "-1", "+1", "", "+", "-", "007", "-007", "+007", "12345678901234567890",
        "9223372036854775807", "9223372036854775808", "-9223372036854775808",
        "-9223372036854775809", "1e3", "0.0", " 5", "5\n", "\u{0663}", "1541234567890", "++1", "1+", "1-",
        "0000000000000000000000000000000000001", "-0000000000000000000000000000000000001",
    ];
    for text in samples {
        assert_eq!(parse_timestamp(text), text.parse::<i64>().ok(), "{:?}", text);
    }
}

#[test]
fn window_is_open_at_both_ends() {
    let tx_time = 1_000_000;
    assert!(!within_window(tx_time, tx_time - 1));
    assert!(!within_window(tx_time, tx_time));
    assert!(within_window(tx_time, tx_time + 1));
    assert!(within_window(tx_time, tx_time + 2_159_999));
    assert!(!within_window(tx_time, tx_time + 2_160_000));
    assert!(!within_window(tx_time, tx_time + 2_160_001));
}

#[test]
fn window_length_is_fixed() {
    assert_eq!(TRANSFER_WINDOW_MS, 2_160_000);
}

#[test]
fn window_does_not_wrap_at_the_ends_of_the_range() {
    assert!(within_window(i64::MAX - 5, i64::MAX));
    assert!(!within_window(i64::MAX, i64::MAX));
    assert!(!within_window(i64::MAX, i64::MIN));
    assert!(within_window(i64::MIN, i64::MIN + 1));
    assert!(!within_window(i64::MIN, i64::MIN + 2_160_000));
    assert!(!within_window(i64::MIN, i64::MAX));
    assert!(!within_window(-1, i64::MAX));
}

#[test]
fn millis_from_parts_drops_what_is_finer() {
    assert_eq!(millis_from_parts(1_541_234_567, 890_123_456), 1_541_234_567_890);
    assert_eq!(millis_from_parts(0, 0), 0);
    assert_eq!(millis_from_parts(0, 999_999), 0);
    assert_eq!(millis_from_parts(0, 1_000_000), 1);
    assert_eq!(millis_from_parts(12, 999_999_999), 12_999);
}

#[test]
fn millis_from_parts_before_the_epoch_and_in_a_leap_second() {
    assert_eq!(millis_from_parts(-1, 999_000_000), -1);
    assert_eq!(millis_from_parts(-2, 0), -2000);
    assert_eq!(millis_from_parts(5, 1_999_999_999), 6_999);
}
