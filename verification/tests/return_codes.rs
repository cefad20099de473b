use tcads_core::AdsReturnCode;

#[test]
fn test_from_u32() {
    assert_eq!(AdsReturnCode::from(0x0), AdsReturnCode::NoError);
}

#[test]
fn test_from_ads_return_code() {
    assert_eq!(AdsReturnCode::from(AdsReturnCode::NoError), AdsReturnCode::NoError);
}

#[test]
fn test_from_ads_return_code_to_u32() {
    assert_eq!(u32::from(AdsReturnCode::RtErrIrqlNotLessOrEqual), 0x1010);
}

#[test]
fn test_from_ads_return_code_to_bytes() {
    let bytes: [u8; AdsReturnCode::LENGTH] = AdsReturnCode::RtErrIrqlNotLessOrEqual.into();
    assert_eq!([0x10, 0x10, 0x00, 0x00], bytes);
}

#[test]
fn return_code_bytes_roundtrip_and_success() {
    let code = AdsReturnCode::from_bytes([0x06, 0x07, 0, 0]);
    assert_eq!(code.as_u32(), 0x0706);
    assert_eq!(AdsReturnCode::from_bytes(code.to_bytes()), code);
    assert!(AdsReturnCode::NoError.is_success());
    assert!(!code.is_success());
    assert!(AdsReturnCode::try_from_slice(&[1, 2, 3]).is_err());
}

#[test]
fn return_code_text() {
    assert_eq!(AdsReturnCode::NoError.to_text(), "No Error (0x00)");
    assert_eq!(AdsReturnCode::ErrInternal.to_text(), "Internal error (0x1)");
    assert_eq!(AdsReturnCode::Unknown(0x1F).to_text(), "Unknown ADS Return Code: 0x1F");
    assert_eq!(AdsReturnCode::Unknown(0).to_text(), "Unknown ADS Return Code: 0x0");
    assert!(AdsReturnCode::AdsErrDeviceAccessDenied.to_text().contains("\nSeveral causes"));
}
