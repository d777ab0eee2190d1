use trackhound::number::{parse_i64, parse_u16, parse_u64, IntErrorKind};

#[test]
fn integers_parse_like_std() {
    let cases = ["", "+", "-", "0", "+7", "-7", "007", "12a", " 1", "18446744073709551615",
        "18446744073709551616", "9223372036854775807", "9223372036854775808",
        "-9223372036854775808", "-9223372036854775809", "65535", "65536", "99999999999999999999x"];
    for c in cases {
        assert_eq!(parse_u64(c).ok(), c.parse::<u64>().ok(), "{c}");
        assert_eq!(parse_u16(c).ok(), c.parse::<u16>().ok(), "{c}");
        assert_eq!(parse_i64(c).ok(), c.parse::<i64>().ok(), "{c}");
    }
    assert_eq!(parse_u64(""), Err(IntErrorKind::Empty));
    assert_eq!(parse_u64("-"), Err(IntErrorKind::InvalidDigit));
    assert_eq!(parse_u64("-5"), Err(IntErrorKind::InvalidDigit));
    assert_eq!(parse_u64("99999999999999999999x"), Err(IntErrorKind::PosOverflow));
    assert_eq!(parse_i64("-9223372036854775809"), Err(IntErrorKind::NegOverflow));
    assert_eq!(parse_i64("-9223372036854775808"), Ok(i64::MIN));
    assert_eq!(parse_u16("65536"), Err(IntErrorKind::PosOverflow));
    assert_eq!(IntErrorKind::InvalidDigit.message(), "invalid digit found in string");
}
