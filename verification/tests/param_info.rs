use tcads_core::symbol::{AdsAttribute, AdsDataTypeId, AdsMethodParamFlags, AdsMethodParamInfo, Guid};
use tcads_core::AdsTypeInfoError;

// Captured bytes of parameter nA (ULINT, IN).
fn na_bytes() -> Vec<u8> {
    vec![
        58, 0, 0, 0, // entry_length = 58
        8, 0, 0, 0, // size = 8
        8, 0, 0, 0, // align_size = 8
        21, 0, 0, 0, // type_id = UInt64 (ULINT)
        1, 0, 0, 0, // flags = IN
        0, 0, 0, 0, // reserved
        // guid: 95190718-0000-0000-0000-00000000000b
        149, 25, 7, 24, 0, 0, 0, 0, 0, 0, 0, 0, 0, 0, 0, 11,
        0, 0, // length_is_param = 0
        2, 0, // name_len = 2
        5, 0, // type_name_len = 5
        0, 0, // comment_len = 0
        110, 65, 0, // "nA\0"
        85, 76, 73, 78, 84, 0, // "ULINT\0"
        0, // comment "\0"
    ]
}

// Captured bytes of parameter nOut (LINT, OUT, with comment).
fn nout_bytes() -> Vec<u8> {
    vec![
        81, 0, 0, 0, // entry_length = 81
        8, 0, 0, 0, // size = 8
        8, 0, 0, 0, // align_size = 8
        20, 0, 0, 0, // type_id = Int64 (LINT)
        2, 0, 0, 0, // flags = OUT
        0, 0, 0, 0, // reserved
        // guid: 95190718-0000-0000-0000-00000000000c
        149, 25, 7, 24, 0, 0, 0, 0, 0, 0, 0, 0, 0, 0, 0, 12,
        0, 0, // length_is_param = 0
        4, 0, // name_len = 4
        4, 0, // type_name_len = 4
        22, 0, // comment_len = 22
        110, 79, 117, 116, 0, // "nOut\0"
        76, 73, 78, 84, 0, // "LINT\0"
        // " The sum of the inputs\0"
        32, 84, 104, 101, 32, 115, 117, 109, 32, 111, 102, 32, 116, 104, 101, 32, 105, 110, 112,
        117, 116, 115, 0,
    ]
}

fn flags(raw: u32) -> AdsMethodParamFlags {
    AdsMethodParamFlags::new(raw)
}

fn udint_val() -> AdsMethodParamInfo {
    AdsMethodParamInfo::new(4, 4, AdsDataTypeId::UInt32, flags(AdsMethodParamFlags::IN), Guid::default(), 0, "nVal", "UDINT")
}

#[test]
fn parses_na_from_real_capture() {
    let (param, consumed) = AdsMethodParamInfo::try_from_slice(&na_bytes()).unwrap();
    assert_eq!(consumed, 58);
    assert_eq!(param.name(), "nA");
    assert_eq!(param.data_type_name(), "ULINT");
    assert_eq!(param.size(), 8);
    assert_eq!(param.align_size(), 8);
    assert_eq!(param.type_id(), AdsDataTypeId::UInt64);
    assert!(param.flags().is_input());
    assert!(!param.flags().is_output());
    assert!(param.comment().is_empty());
    assert!(param.attributes().is_empty());
    assert!(param.dynamic_length_param_index().is_none());
}

#[test]
fn parses_nout_from_real_capture() {
    let (param, consumed) = AdsMethodParamInfo::try_from_slice(&nout_bytes()).unwrap();
    assert_eq!(consumed, 81);
    assert_eq!(param.name(), "nOut");
    assert_eq!(param.data_type_name(), "LINT");
    assert_eq!(param.size(), 8);
    assert_eq!(param.type_id(), AdsDataTypeId::Int64);
    assert!(param.flags().is_output());
    assert!(!param.flags().is_input());
    assert_eq!(param.comment(), " The sum of the inputs");
    assert!(param.attributes().is_empty());
}

#[test]
fn parses_guid_correctly() {
    let (param, _) = AdsMethodParamInfo::try_from_slice(&na_bytes()).unwrap();
    let expected: Guid = "95190718-0000-0000-0000-00000000000b".parse().unwrap();
    assert_eq!(*param.guid(), expected);
}

#[test]
fn new_has_empty_comment_and_attrs() {
    let param = udint_val();
    assert!(param.comment().is_empty());
    assert!(param.attributes().is_empty());
    assert_eq!(param.name(), "nVal");
    assert_eq!(param.data_type_name(), "UDINT");
}

#[test]
fn param_info_with_comment_sets_comment() {
    let param = udint_val().with_comment("the value");
    assert_eq!(param.comment(), "the value");
}

#[test]
fn param_info_with_attributes_sets_attributes() {
    let param = udint_val().with_attributes(vec![AdsAttribute::new("unit", "mm")]);
    assert_eq!(param.attributes().len(), 1);
    assert_eq!(param.attributes()[0].name(), "unit");
    assert_eq!(param.attributes()[0].value(), "mm");
}

#[test]
fn dynamic_length_none_when_zero() {
    let param = AdsMethodParamInfo::new(8, 8, AdsDataTypeId::UInt64, flags(AdsMethodParamFlags::IN), Guid::default(), 0, "nA", "ULINT");
    assert!(param.dynamic_length_param_index().is_none());
}

#[test]
fn dynamic_length_some_when_nonzero() {
    let param =
        AdsMethodParamInfo::new(8, 8, AdsDataTypeId::UInt64, flags(AdsMethodParamFlags::IN), Guid::default(), 2, "pData", "PVOID");
    // stored as index + 1: 2 means the parameter at index 1
    assert_eq!(param.dynamic_length_param_index(), Some(1));
}

#[test]
fn dynamic_length_first_param_is_index_zero() {
    let param =
        AdsMethodParamInfo::new(8, 8, AdsDataTypeId::UInt64, flags(AdsMethodParamFlags::IN), Guid::default(), 1, "pData", "PVOID");
    assert_eq!(param.dynamic_length_param_index(), Some(0));
}

#[test]
fn param_info_wire_size_matches_to_vec_length() {
    let param = udint_val().with_comment("a value");
    assert_eq!(param.wire_size(), param.to_bytes().len());
}

#[test]
fn wire_size_with_attributes_matches_to_vec_length() {
    let param = udint_val().with_attributes(vec![AdsAttribute::new("unit", "mm"), AdsAttribute::new("min", "0")]);
    assert_eq!(param.wire_size(), param.to_bytes().len());
}

#[test]
fn roundtrip_no_comment_no_attrs() {
    let guid: Guid = "95190718-0000-0000-0000-00000000000b".parse().unwrap();
    let original = AdsMethodParamInfo::new(8, 8, AdsDataTypeId::UInt64, flags(AdsMethodParamFlags::IN), guid, 0, "nA", "ULINT");
    let bytes = original.to_bytes();
    let (parsed, consumed) = AdsMethodParamInfo::try_from_slice(&bytes).unwrap();
    assert_eq!(consumed, bytes.len());
    assert_eq!(parsed, original);
}

#[test]
fn roundtrip_with_comment() {
    let guid: Guid = "95190718-0000-0000-0000-00000000000c".parse().unwrap();
    let original = AdsMethodParamInfo::new(8, 8, AdsDataTypeId::Int64, flags(AdsMethodParamFlags::OUT), guid, 0, "nOut", "LINT")
        .with_comment(" The sum of the inputs");
    let bytes = original.to_bytes();
    let (parsed, consumed) = AdsMethodParamInfo::try_from_slice(&bytes).unwrap();
    assert_eq!(consumed, bytes.len());
    assert_eq!(parsed, original);
}

#[test]
fn roundtrip_with_attributes_sets_attributes_flag() {
    let original =
        AdsMethodParamInfo::new(4, 4, AdsDataTypeId::UInt32, flags(AdsMethodParamFlags::IN), Guid::default(), 0, "nCount", "UDINT")
            .with_attributes(vec![AdsAttribute::new("unit", "items")]);
    let bytes = original.to_bytes();
    let (parsed, consumed) = AdsMethodParamInfo::try_from_slice(&bytes).unwrap();
    assert_eq!(consumed, bytes.len());
    assert_eq!(parsed.attributes().len(), 1);
    assert!(parsed.flags().has_attributes());
}

#[test]
fn roundtrip_real_na_bytes() {
    let (original, _) = AdsMethodParamInfo::try_from_slice(&na_bytes()).unwrap();
    let bytes = original.to_bytes();
    let (parsed, _) = AdsMethodParamInfo::try_from_slice(&bytes).unwrap();
    assert_eq!(parsed, original);
    assert_eq!(bytes, na_bytes());
}

#[test]
fn roundtrip_real_nout_bytes() {
    let (original, _) = AdsMethodParamInfo::try_from_slice(&nout_bytes()).unwrap();
    let bytes = original.to_bytes();
    let (parsed, _) = AdsMethodParamInfo::try_from_slice(&bytes).unwrap();
    assert_eq!(parsed, original);
    assert_eq!(bytes, nout_bytes());
}

#[test]
fn too_short_header_returns_err() {
    assert!(matches!(
        AdsMethodParamInfo::try_from_slice(&[0u8; 10]).unwrap_err(),
        AdsTypeInfoError::TooShort { expected: 48, got: 10 }
    ));
}

#[test]
fn param_info_entry_length_mismatch_returns_err() {
    let mut bytes = na_bytes();
    // claims 200 bytes, only 58 given
    bytes[0] = 200;
    bytes[1] = 0;
    bytes[2] = 0;
    bytes[3] = 0;
    assert!(matches!(
        AdsMethodParamInfo::try_from_slice(&bytes).unwrap_err(),
        AdsTypeInfoError::EntryLengthMismatch { expected: 200, got: 58 }
    ));
}

#[test]
fn param_info_empty_slice_returns_err() {
    assert!(AdsMethodParamInfo::try_from_slice(&[]).is_err());
}
