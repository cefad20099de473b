use tcads_core::symbol::{
    AdsAttribute, AdsMethodFlags, AdsMethodInfo, AdsMethodParamFlags, AdsMethodParamInfo, AdsMethodReturnTypeInfo,
    AdsTypeId, Guid,
};
use tcads_core::AdsTypeInfoError;

/// Captured `Sum` method of a function block (276 bytes).
fn sum_method_bytes() -> Vec<u8> {
    vec![
        20, 1, 0, 0, // entry_length = 276
        1, 0, 0, 0, // version = 1
        7, 0, 0, 0, // vtable_index = 7
        0, 0, 0, 0, // return_size = 0
        0, 0, 0, 0, // return_align_size = 0
        0, 0, 0, 0, // reserved
        0,0,0,0, 0,0,0,0, 0,0,0,0, 0,0,0,0, // return_type_guid = all zeros
        0, 0, 0, 0, // return_data_type = Void
        1, 0, 0, 0, // flags = PLC_CALLING_CONVENTION
        3, 0, // name_len = 3
        0, 0, // return_type_len = 0
        17, 0,  // comment_len = 17
        3, 0, // param_count = 3
        83, 117, 109, 0, // "Sum\0"
        0, // return_type "\0"
        // " Sums two values.\0"
        32, 83, 117, 109, 115, 32, 116, 119, 111, 32, 118, 97, 108, 117, 101, 115, 46, 0,
        // param nA (58 bytes)
        58, 0, 0, 0, 8, 0, 0, 0, 8, 0, 0, 0, 21, 0, 0, 0, 1, 0, 0, 0, 0, 0, 0, 0,
        149, 25, 7, 24, 0, 0, 0, 0, 0, 0, 0, 0, 0, 0, 0, 11,
        0, 0, 2, 0, 5, 0, 0, 0, 110, 65, 0, 85, 76, 73, 78, 84, 0, 0,
        // param nB (58 bytes)
        58, 0, 0, 0, 8, 0, 0, 0, 8, 0, 0, 0, 21, 0, 0, 0, 1, 0, 0, 0, 0, 0, 0, 0,
        149, 25, 7, 24, 0, 0, 0, 0, 0, 0, 0, 0, 0, 0, 0, 11,
        0, 0, 2, 0, 5, 0, 0, 0, 110, 66, 0, 85, 76, 73, 78, 84, 0, 0,
        // param nOut (81 bytes)
        81, 0, 0, 0, 8, 0, 0, 0, 8, 0, 0, 0, 20, 0, 0, 0, 2, 0, 0, 0, 0, 0, 0, 0,
        149, 25, 7, 24, 0, 0, 0, 0, 0, 0, 0, 0, 0, 0, 0, 12,
        0, 0, 4, 0, 4, 0, 22, 0, 110, 79, 117, 116, 0, 76, 73, 78, 84, 0,
        32, 84, 104, 101, 32, 115, 117, 109, 32, 111, 102, 32, 116, 104, 101,
        32, 105, 110, 112, 117, 116, 115, 0,
    ]
}

fn plc() -> AdsMethodFlags {
    AdsMethodFlags::new(AdsMethodFlags::PLC_CALLING_CONVENTION)
}

#[test]
fn parses_sum_method_from_real_capture() {
    let (method, consumed) = AdsMethodInfo::try_from_slice(&sum_method_bytes()).unwrap();
    assert_eq!(consumed, 276);
    assert_eq!(method.name(), "Sum");
    assert_eq!(method.comment(), " Sums two values.");
    assert_eq!(method.vtable_index(), 7);
    assert_eq!(method.version(), 1);
    assert!(method.flags().is_plc_calling_convention());
    assert!(method.return_type().is_none());
    assert_eq!(method.parameters().len(), 3);
    assert!(method.attributes().is_empty());
}

#[test]
fn parses_parameters_correctly() {
    let (method, _) = AdsMethodInfo::try_from_slice(&sum_method_bytes()).unwrap();
    let params = method.parameters();
    assert_eq!(params[0].name(), "nA");
    assert_eq!(params[0].data_type_name(), "ULINT");
    assert!(params[0].flags().is_input());
    assert_eq!(params[1].name(), "nB");
    assert_eq!(params[1].data_type_name(), "ULINT");
    assert!(params[1].flags().is_input());
    assert_eq!(params[2].name(), "nOut");
    assert_eq!(params[2].data_type_name(), "LINT");
    assert!(params[2].flags().is_output());
    assert_eq!(params[2].comment(), " The sum of the inputs");
}

#[test]
fn new_creates_void_method() {
    let method = AdsMethodInfo::new(3, plc(), "Run");
    assert_eq!(method.name(), "Run");
    assert_eq!(method.vtable_index(), 3);
    assert_eq!(method.version(), 1);
    assert!(method.return_type().is_none());
    assert!(method.parameters().is_empty());
    assert!(method.comment().is_empty());
    assert!(method.attributes().is_empty());
}

#[test]
fn mod_with_comment_sets_comment() {
    let method = AdsMethodInfo::new(0, plc(), "Run").with_comment("Starts the machine");
    assert_eq!(method.comment(), "Starts the machine");
}

#[test]
fn with_return_type_sets_return_type() {
    let guid: Guid = "95190718-0000-0000-0000-000000000008".parse().unwrap();
    let ret = AdsMethodReturnTypeInfo::new(4, 4, AdsTypeId::UInt32, guid, "UDINT");
    let method = AdsMethodInfo::new(0, plc(), "GetCount").with_return_type(ret);
    let rt = method.return_type().unwrap();
    assert_eq!(rt.name(), "UDINT");
    assert_eq!(rt.size(), 4);
}

fn uint_param(guid: Guid) -> AdsMethodParamInfo {
    AdsMethodParamInfo::new(
        4,
        4,
        AdsTypeId::UInt32,
        AdsMethodParamFlags::new(AdsMethodParamFlags::IN),
        guid,
        0,
        "nVal",
        "UDINT",
    )
}

#[test]
fn with_parameters_sets_parameters() {
    let param = uint_param(Guid::default());
    let method = AdsMethodInfo::new(0, plc(), "SetValue").with_parameters(vec![param]);
    assert_eq!(method.parameters().len(), 1);
    assert_eq!(method.parameters()[0].name(), "nVal");
}

#[test]
fn mod_with_attributes_sets_attributes() {
    let method =
        AdsMethodInfo::new(0, plc(), "Init").with_attributes(vec![AdsAttribute::new("no_explicit_call", "true")]);
    assert_eq!(method.attributes().len(), 1);
    assert_eq!(method.attributes()[0].name(), "no_explicit_call");
}

#[test]
fn mod_wire_size_matches_to_vec_length() {
    let method = AdsMethodInfo::new(7, plc(), "Sum").with_comment(" Sums two values.");
    assert_eq!(method.wire_size(), method.to_vec().len());
}

#[test]
fn wire_size_with_params_matches_to_vec_length() {
    let param = uint_param(Guid::default());
    let method = AdsMethodInfo::new(0, plc(), "Set").with_parameters(vec![param]);
    assert_eq!(method.wire_size(), method.to_vec().len());
}

#[test]
fn roundtrip_void_no_params() {
    let original = AdsMethodInfo::new(3, plc(), "Reset").with_comment("Resets state");
    let bytes = original.to_vec();
    let (parsed, consumed) = AdsMethodInfo::try_from_slice(&bytes).unwrap();
    assert_eq!(consumed, bytes.len());
    assert_eq!(parsed, original);
}

#[test]
fn roundtrip_with_parameters() {
    let guid: Guid = "95190718-0000-0000-0000-00000000000b".parse().unwrap();
    let param = AdsMethodParamInfo::new(
        8,
        8,
        AdsTypeId::UInt64,
        AdsMethodParamFlags::new(AdsMethodParamFlags::IN),
        guid,
        0,
        "nA",
        "ULINT",
    );
    let original = AdsMethodInfo::new(7, plc(), "Sum").with_comment(" Sums two values.").with_parameters(vec![param]);
    let bytes = original.to_vec();
    let (parsed, consumed) = AdsMethodInfo::try_from_slice(&bytes).unwrap();
    assert_eq!(consumed, bytes.len());
    assert_eq!(parsed, original);
}

#[test]
fn roundtrip_with_return_type() {
    let guid: Guid = "95190718-0000-0000-0000-000000000008".parse().unwrap();
    let ret = AdsMethodReturnTypeInfo::new(4, 4, AdsTypeId::UInt32, guid, "UDINT");
    let original = AdsMethodInfo::new(1, plc(), "GetCount").with_return_type(ret);
    let bytes = original.to_vec();
    let (parsed, consumed) = AdsMethodInfo::try_from_slice(&bytes).unwrap();
    assert_eq!(consumed, bytes.len());
    let rt = parsed.return_type().unwrap();
    assert_eq!(rt.name(), "UDINT");
    assert_eq!(rt.size(), 4);
}

#[test]
fn roundtrip_with_attributes_sets_flag() {
    let original =
        AdsMethodInfo::new(0, plc(), "Init").with_attributes(vec![AdsAttribute::new("no_explicit_call", "true")]);
    let bytes = original.to_vec();
    let (parsed, _) = AdsMethodInfo::try_from_slice(&bytes).unwrap();
    assert!(parsed.flags().has_attributes());
    assert_eq!(parsed.attributes().len(), 1);
    assert_eq!(parsed.attributes()[0].value(), "true");
}

#[test]
fn roundtrip_real_sum_method() {
    let (original, _) = AdsMethodInfo::try_from_slice(&sum_method_bytes()).unwrap();
    let bytes = original.to_vec();
    let (parsed, consumed) = AdsMethodInfo::try_from_slice(&bytes).unwrap();
    assert_eq!(consumed, bytes.len());
    assert_eq!(parsed.name(), original.name());
    assert_eq!(parsed.comment(), original.comment());
    assert_eq!(parsed.parameters().len(), original.parameters().len());
}

#[test]
fn mod_too_short_returns_err() {
    assert!(matches!(
        AdsMethodInfo::try_from_slice(&[0u8; 10]).unwrap_err(),
        AdsTypeInfoError::TooShort { expected: 56, got: 10 }
    ));
}

#[test]
fn mod_entry_length_mismatch_returns_err() {
    let mut bytes = sum_method_bytes();
    bytes[0] = 255;
    bytes[1] = 255;
    bytes[2] = 0;
    bytes[3] = 0;
    assert!(matches!(
        AdsMethodInfo::try_from_slice(&bytes).unwrap_err(),
        AdsTypeInfoError::EntryLengthMismatch { .. }
    ));
}

#[test]
fn mod_empty_slice_returns_err() {
    assert!(AdsMethodInfo::try_from_slice(&[]).is_err());
}

#[test]
fn real_sum_method_bytes_roundtrip_exactly() {
    let data = sum_method_bytes();
    let (method, _) = AdsMethodInfo::try_from_slice(&data).unwrap();
    assert_eq!(method.wire_size(), 276);
    assert_eq!(method.to_vec(), data);
}
