use tcads_core::symbol::AdsFieldInfo;
use tcads_core::AdsTypeInfoError;

/// Captured bytes of a field entry.
fn complex_field_bytes() -> &'static [u8] {
    const BYTES: [u8; 147] = [
        147, 0, 0, 0, 1, 0, 0, 0, 5, 0, 0, 0, 0, 0, 0, 0, 4, 0, 0, 0, 56, 0, 0, 0, 19, 0, 0, 0,
        130, 16, 0, 0, 9, 0, 25, 0, 33, 0, 0, 0, 0, 0, 79, 117, 116, 70, 105, 101, 108, 100,
        50, 0, 84, 99, 50, 95, 83, 121, 115, 116, 101, 109, 46, 69, 95, 84, 99, 77, 101, 109,
        111, 114, 121, 65, 114, 101, 97, 0, 32, 84, 104, 105, 115, 32, 105, 115, 32, 97, 32,
        99, 111, 109, 109, 101, 110, 116, 32, 102, 111, 114, 32, 79, 117, 116, 70, 105, 101,
        108, 100, 50, 33, 0, 17, 70, 164, 80, 70, 136, 246, 162, 120, 191, 230, 194, 31, 223,
        55, 174, 1, 0, 11, 2, 104, 101, 108, 108, 111, 32, 116, 104, 101, 114, 101, 0, 52, 50, 0
    ];
    &BYTES
}

#[test]
fn test_parse_complex_field_capture() {
    let data = complex_field_bytes();
    let (field, consumed) = AdsFieldInfo::try_from_slice(data).expect("Should parse complex field");
    assert_eq!(consumed, 147);
    assert_eq!(field.name(), "OutField2");
    assert_eq!(field.data_type_name(), "Tc2_System.E_TcMemoryArea");
    assert_eq!(field.comment(), " This is a comment for OutField2!");
    assert_eq!(field.offset(), 56);
    assert_eq!(field.size(), 4);
    // flags 0x1082
    assert!(field.flags().has_attributes());
    assert!(field.flags().has_type_guid());
    assert_eq!(field.attributes().len(), 1);
    assert_eq!(field.attributes()[0].name(), "hello there");
    assert_eq!(field.attributes()[0].value(), "42");
    assert!(field.guid().is_some());
}

#[test]
fn test_complex_field_wire_size() {
    let data = complex_field_bytes();
    let (field, _) = AdsFieldInfo::try_from_slice(data).unwrap();
    assert_eq!(field.wire_size(), 147);
}

#[test]
fn test_complex_field_roundtrip() {
    let data = complex_field_bytes();
    let (field, _) = AdsFieldInfo::try_from_slice(data).unwrap();
    let serialized = field.to_vec();
    assert_eq!(serialized, data);
}

#[test]
fn field_info_length_errors() {
    let data = complex_field_bytes();
    assert!(matches!(
        AdsFieldInfo::try_from_slice(&data[..41]).unwrap_err(),
        AdsTypeInfoError::TooShort { expected: 42, got: 41 }
    ));
    assert!(matches!(
        AdsFieldInfo::try_from_slice(&data[..100]).unwrap_err(),
        AdsTypeInfoError::EntryLengthMismatch { expected: 147, got: 100 }
    ));
}
