use tcads_core::symbol::Guid;
use tcads_core::GuidParseError;

const TEST_BYTES: [u8; 16] = [
    0x12, 0x34, 0x56, 0x78, 0x9A, 0xBC, 0xDE, 0xF0, 0x12, 0x34, 0x56, 0x78, 0x9A, 0xBC, 0xDE, 0xF0,
];

#[test]
fn test_from_into_array() {
    let guid: Guid = TEST_BYTES.into();
    let bytes: [u8; 16] = guid.into();
    assert_eq!(bytes, TEST_BYTES);
}

#[test]
fn test_display_and_debug() {
    let guid = Guid::new(TEST_BYTES);
    let expected = "12345678-9abc-def0-1234-56789abcdef0";
    assert_eq!(guid.to_text(), expected);
    assert_eq!(format!("{}", guid.to_text()), expected);
}

#[test]
fn test_from_str_success() {
    let expected = Guid::new(TEST_BYTES);
    // with hyphens
    assert_eq!("12345678-9abc-def0-1234-56789abcdef0".parse::<Guid>().unwrap(), expected);
    // without hyphens
    assert_eq!("123456789abcdef0123456789abcdef0".parse::<Guid>().unwrap(), expected);
    // mixed case and white space
    assert_eq!("  12345678-9ABC-DEF0-1234-56789ABCDEF0  ".parse::<Guid>().unwrap(), expected);
}

#[test]
fn guid_text_roundtrip_and_errors() {
    let g = Guid::new(TEST_BYTES);
    assert_eq!(Guid::parse_str(&g.to_text()).unwrap(), g);
    assert!(matches!(Guid::parse_str("1234"), Err(GuidParseError::InvalidLength(_))));
    assert!(matches!(Guid::parse_str("g2345678-9abc-def0-1234-56789abcdef0"), Err(GuidParseError::InvalidHex)));
    assert!(Guid::new([0u8; 16]).is_nil());
    assert!(!g.is_nil());
    assert!(matches!(Guid::try_from_slice(&[0u8; 15]), Err(GuidParseError::InvalidLength(15))));
    assert_eq!(Guid::try_from_slice(&TEST_BYTES).unwrap(), g);
}
