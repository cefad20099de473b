use tcads_core::AdsTypeFlags;

const DATA_TYPE_WITH_GUID: u32 = 0x00000081;
const DATA_TYPE_WITH_GUID_ATTRS: u32 = 0x00001081;
const DATA_ITEM_WITH_GUID: u32 = 0x00000082;

#[test]
fn type_flags_parses_data_type_with_guid() {
    let flags = AdsTypeFlags::new(DATA_TYPE_WITH_GUID);
    assert!(flags.is_data_type());
    assert!(flags.has_type_guid());
    assert!(!flags.is_data_item());
    assert!(!flags.has_attributes());
}

#[test]
fn type_flags_parses_data_type_with_guid_and_attrs() {
    let flags = AdsTypeFlags::new(DATA_TYPE_WITH_GUID_ATTRS);
    assert!(flags.is_data_type());
    assert!(flags.has_type_guid());
    assert!(flags.has_attributes());
}

#[test]
fn type_flags_parses_data_item_with_guid() {
    let flags = AdsTypeFlags::new(DATA_ITEM_WITH_GUID);
    assert!(flags.is_data_item());
    assert!(flags.has_type_guid());
    assert!(!flags.is_data_type());
}

#[test]
fn type_flags_roundtrip_bytes() {
    let flags = AdsTypeFlags::new(DATA_TYPE_WITH_GUID_ATTRS);
    assert_eq!(AdsTypeFlags::from_bytes(flags.to_bytes()), flags);
}

#[test]
fn type_flags_display_shows_active_flags() {
    let flags = AdsTypeFlags::new(DATA_TYPE_WITH_GUID_ATTRS);
    let s = flags.to_text();
    assert!(s.contains("DATA_TYPE"));
    assert!(s.contains("TYPE_GUID"));
    assert!(s.contains("ATTRIBUTES"));
    assert!(!s.contains("DATA_ITEM"));
}

#[test]
fn type_flags_zero_displays_none() {
    assert_eq!(AdsTypeFlags::default().to_text(), "None");
}

#[test]
fn type_flags_bitor_combines() {
    let a = AdsTypeFlags::new(AdsTypeFlags::DATA_TYPE);
    let b = AdsTypeFlags::new(AdsTypeFlags::TYPE_GUID);
    assert_eq!((a | b).as_raw(), DATA_TYPE_WITH_GUID);
}

#[test]
fn type_flags_text_with_unknown_bit() {
    assert_eq!(AdsTypeFlags::new(0x4000_0081).to_text(), "DATA_TYPE | TYPE_GUID | 0x40000000");
}
