use tcads_core::symbol::AdsAttribute;
use tcads_core::AdsTypeInfoError;

#[test]
fn attributes_parses_attribute() {
    // attribute 'unit' := 'mm'
    let bytes = [4, 2, b'u', b'n', b'i', b't', 0, b'm', b'm', 0];
    let attr = AdsAttribute::try_from_slice(&bytes).unwrap();
    assert_eq!(attr.name(), "unit");
    assert_eq!(attr.value(), "mm");
    assert_eq!(attr.wire_size(), 10);
}

#[test]
fn attributes_parses_windows_1252_encoding() {
    // attribute 'unit' := '°C' (0xB0 in Windows-1252)
    let bytes = [4, 2, b'u', b'n', b'i', b't', 0, 0xB0, b'C', 0];
    let attr = AdsAttribute::try_from_slice(&bytes).unwrap();
    assert_eq!(attr.value(), "°C");
}

#[test]
fn attributes_roundtrip() {
    let original = AdsAttribute::new("DisplayMinValue", "0");
    let bytes = original.to_vec();
    let parsed = AdsAttribute::try_from_slice(&bytes).unwrap();
    assert_eq!(original, parsed);
}

#[test]
fn sub_types_parses_attribute() {
    let bytes = [4, 2, b'u', b'n', b'i', b't', 0, b'm', b'm', 0];
    let attr = AdsAttribute::try_from_slice(&bytes).unwrap();
    assert_eq!(attr.name(), "unit");
    assert_eq!(attr.value(), "mm");
    assert_eq!(attr.wire_size(), 10);
}

#[test]
fn sub_types_parses_windows_1252_encoding() {
    let bytes = [4, 2, b'u', b'n', b'i', b't', 0, 0xB0, b'C', 0];
    let attr = AdsAttribute::try_from_slice(&bytes).unwrap();
    assert_eq!(attr.value(), "°C");
}

#[test]
fn attribute_errors() {
    assert!(matches!(
        AdsAttribute::try_from_slice(&[4, 2, 0]).unwrap_err(),
        AdsTypeInfoError::TooShort { expected: 4, got: 3 }
    ));
    assert!(matches!(
        AdsAttribute::try_from_slice(&[4, 2, b'u', b'n', b'i', b't', 0, b'm']).unwrap_err(),
        AdsTypeInfoError::UnexpectedLength { expected: 10, got: 8 }
    ));
}

#[test]
fn attribute_wire_bytes() {
    let attr = AdsAttribute::new("a", "bc");
    assert_eq!(attr.to_vec(), vec![1, 2, b'a', 0, b'b', b'c', 0]);
    assert_eq!(attr.wire_size(), 7);
}

#[test]
fn attributes_wire_size_counts_windows_1252_bytes() {
    let bytes = [4, 2, b'u', b'n', b'i', b't', 0, 0xB0, b'C', 0];
    let attr = AdsAttribute::try_from_slice(&bytes).unwrap();
    assert_eq!(attr.wire_size(), 10);
    assert_eq!(attr.to_vec(), bytes.to_vec());
}

#[test]
fn attributes_unmappable_character_is_written_as_reference() {
    let attr = AdsAttribute::new("a", "\u{2713}");
    let expected = vec![1, 8, b'a', 0, b'&', b'#', b'1', b'0', b'0', b'0', b'3', b';', 0];
    assert_eq!(attr.to_vec(), expected);
    assert_eq!(attr.wire_size(), 13);
}
