use tcads_core::symbol::{AdsAttribute, AdsDataTypeArrayInfo};
use tcads_core::AdsTypeInfoError;

// ARRAY [0..7] OF BYTE: lower bound 0, 8 elements
fn real_bytes() -> [u8; 8] {
    [0, 0, 0, 0, 8, 0, 0, 0]
}

#[test]
fn data_type_array_info_parses_real_capture() {
    let info = AdsDataTypeArrayInfo::try_from_slice(&real_bytes()).unwrap();
    assert_eq!(info.lower_bound(), 0);
    assert_eq!(info.element_count(), 8);
}

#[test]
fn data_type_array_info_roundtrip() {
    let original = AdsDataTypeArrayInfo::try_from_slice(&real_bytes()).unwrap();
    let bytes = original.to_bytes();
    let parsed = AdsDataTypeArrayInfo::try_from_slice(&bytes).unwrap();
    assert_eq!(original, parsed);
}

#[test]
fn data_type_array_info_negative_lower_bound_roundtrips() {
    // ARRAY [-5..5] OF INT
    let info = AdsDataTypeArrayInfo::new(-5, 11);
    let bytes = info.to_bytes();
    let parsed = AdsDataTypeArrayInfo::try_from_slice(&bytes).unwrap();
    assert_eq!(parsed.lower_bound(), -5);
    assert_eq!(parsed.element_count(), 11);
}

#[test]
fn data_type_array_info_too_short_returns_err() {
    assert!(matches!(
        AdsDataTypeArrayInfo::try_from_slice(&[0u8; 7]).unwrap_err(),
        AdsTypeInfoError::TooShort { expected: 8, got: 7 }
    ));
}

#[test]
fn sub_types_parses_real_capture() {
    let info = AdsDataTypeArrayInfo::try_from_slice(&real_bytes()).unwrap();
    assert_eq!(info.lower_bound(), 0);
    assert_eq!(info.element_count(), 8);
}

#[test]
fn sub_types_roundtrip() {
    let original = AdsDataTypeArrayInfo::try_from_slice(&real_bytes()).unwrap();
    let bytes = original.to_bytes();
    let parsed = AdsDataTypeArrayInfo::try_from_slice(&bytes).unwrap();
    assert_eq!(original, parsed);

    let original = AdsAttribute::new("DisplayMinValue", "0");
    let bytes = original.to_vec();
    let parsed = AdsAttribute::try_from_slice(&bytes).unwrap();
    assert_eq!(original, parsed);
}

#[test]
fn sub_types_negative_lower_bound_roundtrips() {
    let info = AdsDataTypeArrayInfo::new(-5, 11);
    let bytes = info.to_bytes();
    let parsed = AdsDataTypeArrayInfo::try_from_slice(&bytes).unwrap();
    assert_eq!(parsed.lower_bound(), -5);
    assert_eq!(parsed.element_count(), 11);
}

#[test]
fn sub_types_too_short_returns_err() {
    assert!(matches!(
        AdsDataTypeArrayInfo::try_from_slice(&[0u8; 7]).unwrap_err(),
        AdsTypeInfoError::TooShort { expected: 8, got: 7 }
    ));
}

#[test]
fn array_info_wire_bytes() {
    assert_eq!(AdsDataTypeArrayInfo::new(-1, 3).to_bytes(), [0xFF, 0xFF, 0xFF, 0xFF, 3, 0, 0, 0]);
}
