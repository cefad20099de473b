use tcads_core::symbol::AdsTypeId;

#[test]
fn known_ids_from_captures() {
    assert_eq!(AdsTypeId::from(19u32), AdsTypeId::UInt32); // UDINT
    assert_eq!(AdsTypeId::from(20u32), AdsTypeId::Int64); // LINT
    assert_eq!(AdsTypeId::from(18u32), AdsTypeId::UInt16); // UINT
    assert_eq!(AdsTypeId::from(30u32), AdsTypeId::String); // STRING
    assert_eq!(AdsTypeId::from(33u32), AdsTypeId::Bit); // BOOL
    assert_eq!(AdsTypeId::from(65u32), AdsTypeId::BigType); // struct/reference
    assert_eq!(AdsTypeId::from(17u32), AdsTypeId::UInt8); // BYTE
}

#[test]
fn unknown_preserves_value() {
    let id = AdsTypeId::from(0xDEAD_BEEFu32);
    assert_eq!(id, AdsTypeId::Unknown(0xDEAD_BEEF));
    assert_eq!(u32::from(id), 0xDEAD_BEEF);
}

#[test]
fn bytes_roundtrip() {
    for id in [AdsTypeId::UInt32, AdsTypeId::Int64, AdsTypeId::BigType] {
        assert_eq!(AdsTypeId::from_bytes(id.to_bytes()), id);
    }
}
