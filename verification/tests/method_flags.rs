use tcads_core::symbol::{AdsMethodFlags, AdsMethodParamFlags};

#[test]
fn ads_method_flags_basics() {
    let flags = AdsMethodFlags::new(0x0000_0005); // PLC_CALLING_CONVENTION | NOT_CALLABLE
    assert!(flags.is_plc_calling_convention());
    assert!(flags.is_not_callable());
    assert!(!flags.is_call_unlocked());
    assert!(!flags.has_attributes());
}

#[test]
fn ads_method_flags_multiple_and_unknown() {
    let flags = AdsMethodFlags::new(0x0000_001B); // PLC + CALL_UNLOCKED + ATTRIBUTES + unknown bit 0x10
    assert!(flags.is_plc_calling_convention());
    assert!(flags.is_call_unlocked());
    assert!(flags.has_attributes());
    assert!(!flags.is_not_callable());
}

#[test]
fn ads_method_flags_roundtrip_bytes() {
    let original = AdsMethodFlags::new(0x0000_000F);
    let roundtripped = AdsMethodFlags::from_bytes(original.to_bytes());
    assert_eq!(roundtripped, original);
}

#[test]
fn ads_method_flags_display() {
    let flags = AdsMethodFlags::new(0x0000_0003); // PLC_CALLING_CONVENTION | CALL_UNLOCKED
    let s = flags.to_text();
    assert!(s.contains("PLC_CALLING_CONVENTION"));
    assert!(s.contains("CALL_UNLOCKED"));
    assert!(!s.contains("NOT_CALLABLE"));
    assert!(!s.contains("ATTRIBUTES"));
}

#[test]
fn ads_method_flags_zero_is_none() {
    assert_eq!(AdsMethodFlags::default().to_text(), "None");
}

#[test]
fn ads_method_flags_debug_format() {
    let flags = AdsMethodFlags::new(0x0000_0005);
    let debug_str = flags.to_debug_text();
    assert!(debug_str.contains("AdsMethodFlags"));
    assert!(debug_str.contains("0x00000005"));
    assert!(debug_str.contains("PLC_CALLING_CONVENTION"));
    assert!(debug_str.contains("NOT_CALLABLE"));
    assert_eq!(debug_str, "AdsMethodFlags(0x00000005, PLC_CALLING_CONVENTION | NOT_CALLABLE)");
}

#[test]
fn ads_method_param_flags_basics() {
    let flags = AdsMethodParamFlags::new(0x0000_0005); // IN | BY_REF
    assert!(flags.is_input());
    assert!(flags.is_reference());
    assert!(!flags.is_output());
    assert!(!flags.has_attributes());
}

#[test]
fn ads_method_param_flags_roundtrip_bytes() {
    let original = AdsMethodParamFlags::new(0x0000_000F);
    assert_eq!(AdsMethodParamFlags::from_bytes(original.to_bytes()), original);
}

#[test]
fn ads_method_param_flags_display() {
    let flags = AdsMethodParamFlags::new(0x0000_0003); // IN | OUT
    let s = flags.to_text();
    assert!(s.contains("IN"));
    assert!(s.contains("OUT"));
    assert!(!s.contains("BY_REF"));
}

#[test]
fn ads_method_param_flags_zero_is_none() {
    assert_eq!(AdsMethodParamFlags::default().to_text(), "None");
}

#[test]
fn ads_method_param_flags_bitor_works() {
    let combined = AdsMethodParamFlags::new(AdsMethodParamFlags::IN) | AdsMethodParamFlags::new(AdsMethodParamFlags::OUT);
    assert!(combined.is_input());
    assert!(combined.is_output());
    assert_eq!(combined.as_raw(), 0x0000_0003);
}

#[test]
fn method_flags_text_with_unknown_bits() {
    assert_eq!(AdsMethodFlags::new(0x1B).to_text(), "PLC_CALLING_CONVENTION | CALL_UNLOCKED | ATTRIBUTES | 0x10");
    assert_eq!(AdsMethodParamFlags::new(0x5).to_debug_text(), "AdsMethodParamFlags(0x00000005, IN | BY_REF)");
}
