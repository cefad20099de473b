use tcads_core::symbol::{AdsAttribute, AdsEnumInfo};
use tcads_core::AdsTypeInfoError;

#[test]
fn test_enum_builders() {
    let enum_info = AdsEnumInfo::new("PS_None", &[0x00])
        .with_comment("No persistent variables restored")
        .with_attributes(vec![AdsAttribute::new("Display", "None")]);
    assert_eq!(enum_info.name(), "PS_None");
    assert_eq!(enum_info.value(), &[0x00]);
    assert_eq!(enum_info.comment(), "No persistent variables restored");
    assert_eq!(enum_info.attributes().len(), 1);
}

#[test]
fn test_parse_standard_enum() {
    let bytes = [7, b'P', b'S', b'_', b'N', b'o', b'n', b'e', 0, 0x00];
    let (info, consumed) = AdsEnumInfo::try_from_slice(&bytes, 1).unwrap();
    assert_eq!(consumed, 10);
    assert_eq!(info.name(), "PS_None");
    assert_eq!(info.value(), &[0x00]);
    assert!(info.comment().is_empty());
    assert!(info.attributes().is_empty());
}

#[test]
fn test_roundtrip_standard_enum() {
    let original = AdsEnumInfo::new("PS_All", &[0x01]);
    let (std_bytes, ext_bytes) = original.to_vec();
    assert!(ext_bytes.is_empty());
    let (parsed, _) = AdsEnumInfo::try_from_slice(&std_bytes, 1).unwrap();
    assert_eq!(original, parsed);
}

#[test]
fn test_roundtrip_extended_enum() {
    let original = AdsEnumInfo::new_ext(
        "PS_Partial",
        &[0x02],
        "Fewer variables were restored",
        vec![AdsAttribute::new("State", "Warning")],
    );
    let (std_bytes, ext_bytes) = original.to_vec();
    let (mut parsed, _) = AdsEnumInfo::try_from_slice(&std_bytes, 1).unwrap();
    assert_eq!(parsed.name(), "PS_Partial");
    assert_eq!(parsed.value(), &[0x02]);
    assert!(parsed.comment().is_empty());
    assert!(!ext_bytes.is_empty());
    let consumed = parsed.extend_from_slice(&ext_bytes).unwrap();
    assert_eq!(consumed, ext_bytes.len());
    assert_eq!(original, parsed);
}

#[test]
fn enum_info_too_short_errors() {
    assert!(matches!(
        AdsEnumInfo::try_from_slice(&[], 1).unwrap_err(),
        AdsTypeInfoError::TooShort { expected: 1, got: 0 }
    ));
    assert!(matches!(
        AdsEnumInfo::try_from_slice(&[3, b'a', b'b'], 2).unwrap_err(),
        AdsTypeInfoError::TooShort { expected: 7, got: 3 }
    ));
    let mut e = AdsEnumInfo::new("A", &[1]);
    assert!(matches!(e.extend_from_slice(&[1, 0]).unwrap_err(), AdsTypeInfoError::TooShort { expected: 4, got: 2 }));
    assert!(matches!(
        e.extend_from_slice(&[9, 0, 0, 0]).unwrap_err(),
        AdsTypeInfoError::EntryLengthMismatch { expected: 9, got: 4 }
    ));
}
