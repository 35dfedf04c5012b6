use valid8r::hexnum::{parse_dec, parse_hex, ParseError};

#[test]
fn parse_hex_with_prefix() {
    assert_eq!(parse_hex("0x11"), Ok(17));
    assert_eq!(parse_hex("0x100"), Ok(256));
    assert_eq!(parse_hex("0X1f"), Ok(31));
    assert_eq!(parse_hex("0x0"), Ok(0));
}

#[test]
fn parse_hex_without_prefix() {
    assert_eq!(parse_hex("ff"), Ok(255));
    assert_eq!(parse_hex("A"), Ok(10));
    assert_eq!(parse_hex("deadBEEF"), Ok(0xdeadbeefi64));
}

#[test]
fn parse_hex_leading_zeros_do_not_overflow() {
    assert_eq!(parse_hex("0x00000000000000000000ff"), Ok(255));
}

#[test]
fn parse_hex_rejects_non_hex() {
    assert_eq!(parse_hex("0x10g"), Err(ParseError::NotHex));
    assert_eq!(parse_hex("xyz"), Err(ParseError::NotHex));
    assert_eq!(parse_hex("0x 1"), Err(ParseError::NotHex));
    assert_eq!(parse_hex("-ff"), Err(ParseError::NotHex));
}

#[test]
fn parse_hex_rejects_empty() {
    assert_eq!(parse_hex(""), Err(ParseError::NotHex));
    assert_eq!(parse_hex("0x"), Err(ParseError::NotHex));
    assert_eq!(parse_hex("0X"), Err(ParseError::NotHex));
}

#[test]
fn parse_hex_boundary_of_signed_range() {
    assert_eq!(parse_hex("0x7FFFFFFFFFFFFFFF"), Ok(i64::MAX));
    assert_eq!(parse_hex("0x8000000000000000"), Err(ParseError::Overflow));
    assert_eq!(parse_hex("0xFFFFFFFFFFFFFFFFFF"), Err(ParseError::Overflow));
}

#[test]
fn parse_dec_values() {
    assert_eq!(parse_dec("0"), Ok(0));
    assert_eq!(parse_dec("42"), Ok(42));
    assert_eq!(parse_dec("0042"), Ok(42));
    assert_eq!(parse_dec("9223372036854775807"), Ok(i64::MAX));
}

#[test]
fn parse_dec_rejects_bad_input() {
    assert_eq!(parse_dec(""), Err(ParseError::NotHex));
    assert_eq!(parse_dec("12a"), Err(ParseError::NotHex));
    assert_eq!(parse_dec("-5"), Err(ParseError::NotHex));
    assert_eq!(parse_dec("9223372036854775808"), Err(ParseError::Overflow));
}
