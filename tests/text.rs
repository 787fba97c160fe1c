use std::cmp::Ordering;

use graph::text::{compare_text, decimal_text};
use graph::value::{decode_hex, parse_i64};
use graph::ConversionErrorKind;

#[test]
fn compare_text_orders_by_code_point() {
    assert_eq!(compare_text("", ""), Ordering::Equal);
    assert_eq!(compare_text("", "a"), Ordering::Less);
    assert_eq!(compare_text("b", "a"), Ordering::Greater);
    assert_eq!(compare_text("Z", "a"), Ordering::Less);
    assert_eq!(compare_text("abc", "abd"), Ordering::Less);
    assert_eq!(compare_text("é", "z"), Ordering::Greater);
    assert_eq!(compare_text("same", "same"), Ordering::Equal);
}

#[test]
fn decimal_text_renders_integers() {
    assert_eq!(decimal_text(0), "0");
    assert_eq!(decimal_text(7), "7");
    assert_eq!(decimal_text(10), "10");
    assert_eq!(decimal_text(-305), "-305");
    assert_eq!(decimal_text(i32::MAX), "2147483647");
    assert_eq!(decimal_text(i32::MIN), "-2147483648");
}

#[test]
fn decode_hex_pairs_digits() {
    assert_eq!(decode_hex("0xdeadBEEF"), Some(vec![0xde, 0xad, 0xbe, 0xef]));
    assert_eq!(decode_hex("10"), Some(vec![0x10]));
    assert_eq!(decode_hex("0X10"), None);
    assert_eq!(decode_hex("g0"), None);
}

#[test]
fn parse_i64_values() {
    assert_eq!(parse_i64("0"), Ok(0));
    assert_eq!(parse_i64("-1"), Ok(-1));
    assert_eq!(parse_i64("+-1"), Err(ConversionErrorKind::InvalidInteger));
    assert_eq!(parse_i64("99999999999999999999x"), Err(ConversionErrorKind::InvalidInteger));
    assert_eq!(parse_i64("-9223372036854775808"), Ok(i64::MIN));
}
