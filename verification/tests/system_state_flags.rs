use tcads_core::AdsSystemStateFlags;

#[test]
fn round_trips_bytes() {
    let flags = AdsSystemStateFlags::new(AdsSystemStateFlags::REDUNDANCY_ACTIVE)
        | AdsSystemStateFlags::new(AdsSystemStateFlags::DATA_FOLDER_SUPPORT);
    let bytes = flags.to_bytes();
    assert_eq!(AdsSystemStateFlags::from_bytes(bytes), flags);
}

#[test]
fn retains_unknown_bits() {
    let flags = AdsSystemStateFlags::new(0x0008);
    assert_eq!(flags.as_raw(), 0x0008);
}

#[test]
fn predicate_helpers() {
    let flags = AdsSystemStateFlags::new(AdsSystemStateFlags::ROUTER_MODE_ONLY)
        | AdsSystemStateFlags::new(AdsSystemStateFlags::REDUNDANCY_PRIMARY);
    assert!(flags.is_router_mode_only());
    assert!(flags.is_redundancy_primary());
    assert!(!flags.is_redundancy_active());
}

#[test]
fn system_state_flags_text() {
    assert_eq!(AdsSystemStateFlags::new(0x0011).to_text(), "ROUTER_MODE_ONLY | REDUNDANCY_ACTIVE");
    assert_eq!(AdsSystemStateFlags::new(0x0009).to_text(), "ROUTER_MODE_ONLY | 0x8");
}
