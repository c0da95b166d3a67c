use ctld::text::{blank, parse_u16, parse_u32, parse_u64, str_eq};

#[test]
fn decimal_numbers() {
    assert_eq!(parse_u64("0"), Some(0));
    assert_eq!(parse_u64("007"), Some(7));
    assert_eq!(parse_u64("2097152"), Some(2097152));
    assert_eq!(parse_u64("18446744073709551615"), Some(u64::MAX));
    assert_eq!(parse_u64("18446744073709551616"), None);
    assert_eq!(parse_u64("99999999999999999999x"), None);
    assert_eq!(parse_u64(""), None);
    assert_eq!(parse_u64("+1"), None);
    assert_eq!(parse_u64("-1"), None);
    assert_eq!(parse_u64("1a"), None);
    assert_eq!(parse_u64(" 1"), None);
    assert_eq!(parse_u64("\u{663}"), None);
    assert_eq!(parse_u32("4294967295"), Some(u32::MAX));
    assert_eq!(parse_u32("4294967296"), None);
    assert_eq!(parse_u16("65535"), Some(u16::MAX));
    assert_eq!(parse_u16("65536"), None);
}

#[test]
fn blank_text() {
    assert!(blank(""));
    assert!(blank(" \t\r\n"));
    assert!(!blank(" x "));
    assert!(!blank("\u{a0}"));
}

#[test]
fn string_equality() {
    assert!(str_eq("ctllunlist", "ctllunlist"));
    assert!(!str_eq("lun", "luns"));
    assert!(!str_eq("é", "e"));
    assert!(str_eq("", ""));
}
