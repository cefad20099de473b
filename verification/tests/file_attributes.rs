use tcads_core::AdsFileAttributes;

#[test]
fn parses_directory_hidden() {
    let attrs = AdsFileAttributes::new(0x0012); // DIRECTORY | HIDDEN
    assert!(attrs.is_directory());
    assert!(attrs.is_hidden());
    assert!(!attrs.is_read_only());
}

#[test]
fn file_attributes_roundtrip_bytes() {
    let attrs = AdsFileAttributes::new(AdsFileAttributes::ARCHIVE) | AdsFileAttributes::new(AdsFileAttributes::COMPRESSED);
    assert_eq!(AdsFileAttributes::from_bytes(attrs.to_bytes()), attrs);
}

#[test]
fn file_attributes_zero_displays_none() {
    assert_eq!(AdsFileAttributes::default().to_text(), "None");
}

#[test]
fn file_attributes_text_lists_names_then_unknown_bits() {
    assert_eq!(AdsFileAttributes::new(0x0012).to_text(), "HIDDEN | DIRECTORY");
    assert_eq!(AdsFileAttributes::new(0x1001).to_text(), "READ_ONLY | 0x1000");
    assert_eq!(AdsFileAttributes::new(0xf000).to_text(), "0xf000");
}
