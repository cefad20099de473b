use tcads_core::AdsSymbolUploadFlags;

const UTF8_64_BIT_PLATFORM_DATA: u32 = 0x00000005;
const INCLUDES_BASE_TYPES_DATA_AND_64_BIT: u32 = 0x00000003;

fn f(raw: u32) -> AdsSymbolUploadFlags {
    AdsSymbolUploadFlags::new(raw)
}

#[test]
fn create_flags_from_raw() {
    assert_eq!(AdsSymbolUploadFlags::new(0), AdsSymbolUploadFlags::empty());
    assert_eq!(AdsSymbolUploadFlags::new(1), f(AdsSymbolUploadFlags::IS_64BIT_PLATFORM));
    assert_eq!(AdsSymbolUploadFlags::new(2), f(AdsSymbolUploadFlags::INCLUDES_BASE_TYPES));
    assert_eq!(
        AdsSymbolUploadFlags::new(3),
        f(AdsSymbolUploadFlags::IS_64BIT_PLATFORM) | f(AdsSymbolUploadFlags::INCLUDES_BASE_TYPES)
    );
    assert_eq!(
        AdsSymbolUploadFlags::new(5),
        f(AdsSymbolUploadFlags::IS_64BIT_PLATFORM) | f(AdsSymbolUploadFlags::UTF8_ENCODED_STRING_DATA)
    );
    assert_eq!(
        AdsSymbolUploadFlags::new(7),
        f(AdsSymbolUploadFlags::IS_64BIT_PLATFORM)
            | f(AdsSymbolUploadFlags::UTF8_ENCODED_STRING_DATA)
            | f(AdsSymbolUploadFlags::INCLUDES_BASE_TYPES)
    );
}

#[test]
fn parses_flags_from_raw() {
    let flag = AdsSymbolUploadFlags::new(UTF8_64_BIT_PLATFORM_DATA);
    assert!(flag.is_64bit_platform());
    assert!(!flag.includes_base_types());
    assert!(flag.is_utf8_encoded());
}

#[test]
fn parses_flags_from_bytes() {
    let flag = AdsSymbolUploadFlags::from_bytes([0x05, 0x00, 0x00, 0x00]);
    assert!(flag.is_64bit_platform());
}

#[test]
fn upload_flags_roundtrip_bytes() {
    let flags = AdsSymbolUploadFlags::new(INCLUDES_BASE_TYPES_DATA_AND_64_BIT);
    assert_eq!(AdsSymbolUploadFlags::from_bytes(flags.to_bytes()), flags);
}

#[test]
fn upload_flags_display_shows_active_flags() {
    let flags = AdsSymbolUploadFlags::new(INCLUDES_BASE_TYPES_DATA_AND_64_BIT);
    let s = flags.to_text();
    assert!(s.contains("IS_64BIT_PLATFORM"));
    assert!(s.contains("INCLUDES_BASE_TYPES"));
}

#[test]
fn upload_flags_zero_displays_none() {
    let flags = AdsSymbolUploadFlags::new(0);
    assert_eq!(flags.to_text(), "None");
}
