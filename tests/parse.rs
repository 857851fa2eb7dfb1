use dfu_nusb::parse::{parse_address, parse_unsigned, parse_vid_pid, ParseError};

#[test]
fn hex_address() {
    assert_eq!(parse_address("0x0800C000"), Ok(0x0800_C000));
    assert_eq!(parse_address("0X0800c000"), Ok(0x0800_C000));
}

#[test]
fn decimal_address() {
    assert_eq!(parse_address("2048"), Ok(2048));
    assert_eq!(parse_address("4294967295"), Ok(u32::MAX));
}

#[test]
fn invalid_addresses() {
    assert_eq!(parse_address("0x"), Err(ParseError::InvalidAddress));
    assert_eq!(parse_address("0xZZ"), Err(ParseError::InvalidAddress));
    assert_eq!(parse_address("12ab"), Err(ParseError::InvalidAddress));
    assert_eq!(parse_address(""), Err(ParseError::InvalidAddress));
    assert_eq!(parse_address("4294967296"), Err(ParseError::InvalidAddress));
    assert_eq!(parse_address("0x100000000"), Err(ParseError::InvalidAddress));
    assert_eq!(parse_address("-1"), Err(ParseError::InvalidAddress));
}

#[test]
fn vid_pid() {
    assert_eq!(parse_vid_pid("0483:df11"), Ok((0x0483, 0xdf11)));
    assert_eq!(parse_vid_pid("FFFF:0"), Ok((0xffff, 0)));
}

#[test]
fn vid_pid_without_colon() {
    assert_eq!(parse_vid_pid("0483df11"), Err(ParseError::MissingColon));
    assert_eq!(parse_vid_pid(""), Err(ParseError::MissingColon));
}

#[test]
fn vid_pid_with_bad_halves() {
    assert_eq!(parse_vid_pid(":df11"), Err(ParseError::InvalidVendor));
    assert_eq!(parse_vid_pid("10000:df11"), Err(ParseError::InvalidVendor));
    assert_eq!(parse_vid_pid("0483:"), Err(ParseError::InvalidProduct));
    assert_eq!(parse_vid_pid("0483:df11:1"), Err(ParseError::InvalidProduct));
}

#[test]
fn unsigned_numbers_as_std_reads_them() {
    assert_eq!(parse_unsigned(b"+1f", 16, 0xffff), Some(0x1f));
    assert_eq!(parse_unsigned(b"+", 16, 0xffff), None);
    assert_eq!(parse_unsigned(b"65535", 10, 0xffff), Some(65535));
    assert_eq!(parse_unsigned(b"65536", 10, 0xffff), None);
    for s in ["0", "7", "1234", "+99", "ffff", "x", "", "12a"] {
        let expected = u16::from_str_radix(s, 10).ok().map(|v| v as u64);
        assert_eq!(parse_unsigned(s.as_bytes(), 10, 0xffff), expected, "{s}");
        let expected = u16::from_str_radix(s, 16).ok().map(|v| v as u64);
        assert_eq!(parse_unsigned(s.as_bytes(), 16, 0xffff), expected, "{s}");
    }
}
