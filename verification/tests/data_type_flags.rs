use tcads_core::AdsDataTypeFlags;

const DATA_TYPE_WITH_GUID: u32 = 0x00000081;
const DATA_TYPE_WITH_GUID_ATTRS: u32 = 0x00001081;
const DATA_ITEM_WITH_GUID: u32 = 0x00000082;

#[test]
fn data_type_flags_parses_data_type_with_guid() {
    let flags = AdsDataTypeFlags::new(DATA_TYPE_WITH_GUID);
    assert!(flags.is_data_type());
    assert!(flags.has_type_guid());
    assert!(!flags.is_data_item());
    assert!(!flags.has_attributes());
}

#[test]
fn data_type_flags_parses_data_type_with_guid_and_attrs() {
    let flags = AdsDataTypeFlags::new(DATA_TYPE_WITH_GUID_ATTRS);
    assert!(flags.is_data_type());
    assert!(flags.has_type_guid());
    assert!(flags.has_attributes());
}

#[test]
fn data_type_flags_parses_data_item_with_guid() {
    let flags = AdsDataTypeFlags::new(DATA_ITEM_WITH_GUID);
    assert!(flags.is_data_item());
    assert!(flags.has_type_guid());
    assert!(!flags.is_data_type());
}

#[test]
fn data_type_flags_roundtrip_bytes() {
    let flags = AdsDataTypeFlags::new(DATA_TYPE_WITH_GUID_ATTRS);
    assert_eq!(AdsDataTypeFlags::from_bytes(flags.to_bytes()), flags);
}

#[test]
fn data_type_flags_display_shows_active_flags() {
    let flags = AdsDataTypeFlags::new(DATA_TYPE_WITH_GUID_ATTRS);
    let s = flags.to_text();
    assert!(s.contains("DATA_TYPE"));
    assert!(s.contains("TYPE_GUID"));
    assert!(s.contains("ATTRIBUTES"));
    assert!(!s.contains("DATA_ITEM"));
}

#[test]
fn data_type_flags_zero_displays_none() {
    assert_eq!(AdsDataTypeFlags::default().to_text(), "None");
}

#[test]
fn data_type_flags_bitor_combines() {
    let a = AdsDataTypeFlags::new(AdsDataTypeFlags::DATA_TYPE);
    let b = AdsDataTypeFlags::new(AdsDataTypeFlags::TYPE_GUID);
    assert_eq!((a | b).as_raw(), DATA_TYPE_WITH_GUID);
}

#[test]
fn data_type_flags_text_marks_unknown_bits() {
    assert_eq!(AdsDataTypeFlags::new(DATA_TYPE_WITH_GUID_ATTRS).to_text(), "DATA_TYPE | TYPE_GUID | ATTRIBUTES");
    assert_eq!(AdsDataTypeFlags::new(0x4000_0001).to_text(), "DATA_TYPE | UNKNOWN");
}
