use tcads_core::AdsFileFlags;

#[test]
fn parses_read_binary_ensure_dir() {
    // READ | BINARY | ENSURE_DIR
    let flags = AdsFileFlags::new(0x00000051);
    assert!(flags.is_read());
    assert!(flags.is_binary());
    assert!(flags.has_ensure_dir());
    assert!(!flags.is_write());
    assert!(!flags.is_text());
}

#[test]
fn file_flag_roundtrip_bytes() {
    let flags = AdsFileFlags::new(AdsFileFlags::WRITE) | AdsFileFlags::new(AdsFileFlags::BINARY)
        | AdsFileFlags::new(AdsFileFlags::PLUS);
    assert_eq!(AdsFileFlags::from_bytes(flags.to_bytes()), flags);
}

#[test]
fn file_flag_display_shows_active_flags() {
    let flags = AdsFileFlags::new(AdsFileFlags::WRITE) | AdsFileFlags::new(AdsFileFlags::BINARY);
    let s = flags.to_text();
    assert!(s.contains("WRITE"));
    assert!(s.contains("BINARY"));
    assert!(!s.contains("READ"));
    assert_eq!(s, "WRITE | BINARY");
}

#[test]
fn file_flag_zero_displays_none() {
    assert_eq!(AdsFileFlags::default().to_text(), "None");
}

#[test]
fn file_flag_bitor_combines() {
    let a = AdsFileFlags::new(AdsFileFlags::READ);
    let b = AdsFileFlags::new(AdsFileFlags::ENABLE_DIR);
    assert_eq!((a | b).as_raw(), 0x00000081);
}
