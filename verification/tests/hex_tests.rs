use asmedia_xhc_trace::hex::hex_digit_value;
use asmedia_xhc_trace::hex::parse_hex_u16;

#[test]
fn digit_values_cover_all_cases() {
    assert_eq!(hex_digit_value(b'0'), Some(0));
    assert_eq!(hex_digit_value(b'9'), Some(9));
    assert_eq!(hex_digit_value(b'A'), Some(10));
    assert_eq!(hex_digit_value(b'F'), Some(15));
    assert_eq!(hex_digit_value(b'a'), Some(10));
    assert_eq!(hex_digit_value(b'f'), Some(15));
    assert_eq!(hex_digit_value(b'g'), None);
    assert_eq!(hex_digit_value(b'G'), None);
    assert_eq!(hex_digit_value(b' '), None);
    assert_eq!(hex_digit_value(b'/'), None);
    assert_eq!(hex_digit_value(b':'), None);
}

#[test]
fn parses_vendor_id() {
    assert_eq!(parse_hex_u16(b"1b21"), Some(0x1b21));
}

#[test]
fn parses_device_id_upper_case() {
    assert_eq!(parse_hex_u16(b"2142"), Some(0x2142));
    assert_eq!(parse_hex_u16(b"ABCD"), Some(0xabcd));
    assert_eq!(parse_hex_u16(b"abcd"), Some(0xabcd));
}

#[test]
fn parses_extremes() {
    assert_eq!(parse_hex_u16(b"0000"), Some(0x0000));
    assert_eq!(parse_hex_u16(b"ffff"), Some(0xffff));
}

#[test]
fn rejects_any_non_hex_byte() {
    assert_eq!(parse_hex_u16(b"1b2x"), None);
    assert_eq!(parse_hex_u16(b"x142"), None);
    assert_eq!(parse_hex_u16(b"1 42"), None);
    assert_eq!(parse_hex_u16(b"0x12"), None);
}
