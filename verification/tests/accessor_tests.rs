use lid_backlightd::accessor::{encode_value, parse_value};
use lid_backlightd::errors::AccessError;

#[test]
fn parse_plain_number() {
    assert_eq!(parse_value(b"80"), Ok(80));
}

#[test]
fn parse_trims_whitespace() {
    assert_eq!(parse_value(b" 80\n"), Ok(80));
    assert_eq!(parse_value(b"\t 1234 \r\n"), Ok(1234));
}

#[test]
fn parse_zero_and_leading_zeros() {
    assert_eq!(parse_value(b"0"), Ok(0));
    assert_eq!(parse_value(b"007"), Ok(7));
}

#[test]
fn parse_max_value() {
    assert_eq!(parse_value(b"4294967295"), Ok(u32::MAX));
}

#[test]
fn parse_rejects_overflow() {
    assert_eq!(parse_value(b"4294967296"), Err(AccessError::ParseError));
    assert_eq!(parse_value(b"99999999999999999999"), Err(AccessError::ParseError));
}

#[test]
fn parse_rejects_empty_and_blank() {
    assert_eq!(parse_value(b""), Err(AccessError::ParseError));
    assert_eq!(parse_value(b" \n\t"), Err(AccessError::ParseError));
}

#[test]
fn parse_rejects_malformed() {
    assert_eq!(parse_value(b"abc"), Err(AccessError::ParseError));
    assert_eq!(parse_value(b"12x"), Err(AccessError::ParseError));
    assert_eq!(parse_value(b"-5"), Err(AccessError::ParseError));
    assert_eq!(parse_value(b"1 2"), Err(AccessError::ParseError));
}

#[test]
fn encode_digits() {
    assert_eq!(encode_value(0), b"0".to_vec());
    assert_eq!(encode_value(5), b"5".to_vec());
    assert_eq!(encode_value(80), b"80".to_vec());
    assert_eq!(encode_value(4294967295), b"4294967295".to_vec());
}

#[test]
fn encode_then_parse_round_trip() {
    assert_eq!(parse_value(&encode_value(12345)), Ok(12345));
    assert_eq!(parse_value(&encode_value(0)), Ok(0));
    assert_eq!(parse_value(&encode_value(u32::MAX)), Ok(u32::MAX));
}
