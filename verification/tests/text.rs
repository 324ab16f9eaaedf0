use bathis::text::{decimal_text, is_space, parse_i64, same_text, trim, two_digit_text};

#[test]
fn trim_cuts_both_ends() {
    assert_eq!(trim("  Battery \n"), "Battery");
    assert_eq!(trim("Not charging\n"), "Not charging");
    assert_eq!(trim("\t a  b \r\n"), "a  b");
    assert_eq!(trim("plain"), "plain");
}

#[test]
fn trim_of_blank_text_is_empty() {
    assert_eq!(trim(""), "");
    assert_eq!(trim(" \n\t "), "");
}

#[test]
fn trim_knows_unicode_whitespace() {
    assert_eq!(trim("\u{00A0}\u{2003}x\u{3000}\u{2028}"), "x");
    assert_eq!(trim("\u{200B}x"), "\u{200B}x");
    assert_eq!(trim(" é "), "é");
}

#[test]
fn whitespace_agrees_with_the_standard_library() {
    for code in 0u32..0x3100 {
        if let Some(c) = char::from_u32(code) {
            assert_eq!(is_space(c), c.is_whitespace(), "U+{:04X}", code);
        }
    }
}

#[test]
fn parse_reads_signed_decimals() {
    assert_eq!(parse_i64("0"), Some(0));
    assert_eq!(parse_i64("95"), Some(95));
    assert_eq!(parse_i64("+17"), Some(17));
    assert_eq!(parse_i64("-17"), Some(-17));
    assert_eq!(parse_i64("-0"), Some(0));
    assert_eq!(parse_i64("007"), Some(7));
    assert_eq!(parse_i64("12345678"), Some(12_345_678));
}

#[test]
fn parse_refuses_what_is_no_integer() {
    assert_eq!(parse_i64(""), None);
    assert_eq!(parse_i64("+"), None);
    assert_eq!(parse_i64("-"), None);
    assert_eq!(parse_i64(" 5"), None);
    assert_eq!(parse_i64("5 "), None);
    assert_eq!(parse_i64("5\n"), None);
    assert_eq!(parse_i64("1_000"), None);
    assert_eq!(parse_i64("12a"), None);
    assert_eq!(parse_i64("--1"), None);
    assert_eq!(parse_i64("1.5"), None);
    assert_eq!(parse_i64("٣"), None);
}

#[test]
fn parse_keeps_to_the_range() {
    assert_eq!(parse_i64("9223372036854775807"), Some(i64::MAX));
    assert_eq!(parse_i64("-9223372036854775808"), Some(i64::MIN));
    assert_eq!(parse_i64("9223372036854775808"), None);
    assert_eq!(parse_i64("-9223372036854775809"), None);
    assert_eq!(parse_i64("99999999999999999999999999999999999999999999"), None);
    assert_eq!(parse_i64("000000000000000000000000000000000000000000042"), Some(42));
}

#[test]
fn parse_agrees_with_the_standard_library() {
    for text in ["0", "-1", "+1", "", "+", "-", "9223372036854775807", "9223372036854775808", "1e3", "0x10", "00", "+-1"] {
        assert_eq!(parse_i64(text), text.parse::<i64>().ok(), "{:?}", text);
    }
}

#[test]
fn numbers_are_written_in_decimal() {
    assert_eq!(decimal_text(0), "0");
    assert_eq!(decimal_text(7), "7");
    assert_eq!(decimal_text(10), "10");
    assert_eq!(decimal_text(1234567890), "1234567890");
    assert_eq!(decimal_text(u64::MAX), "18446744073709551615");
    assert_eq!(two_digit_text(0), "00");
    assert_eq!(two_digit_text(5), "05");
    assert_eq!(two_digit_text(59), "59");
    assert_eq!(two_digit_text(123), "123");
}

#[test]
fn written_numbers_are_read_back() {
    for n in [0u64, 1, 9, 10, 99, 100, 40000, 9223372036854775807] {
        assert_eq!(parse_i64(&decimal_text(n)), Some(n as i64));
    }
}

#[test]
fn texts_are_told_apart() {
    assert!(same_text("Battery", "Battery"));
    assert!(!same_text("Battery", "battery"));
    assert!(!same_text("Battery", "Battery "));
    assert!(same_text("", ""));
}
