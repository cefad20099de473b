use tcads_core::AdsTransMode;

#[test]
fn test_ads_trans_mode_conversion() {
    assert_eq!(AdsTransMode::from(0), AdsTransMode::NoTrans);
    assert_eq!(u32::from(AdsTransMode::NoTrans), 0);
    assert_eq!(AdsTransMode::from(1), AdsTransMode::ClientCycle);
    assert_eq!(u32::from(AdsTransMode::ClientCycle), 1);
    assert_eq!(AdsTransMode::from(2), AdsTransMode::ClientOnChange);
    assert_eq!(u32::from(AdsTransMode::ClientOnChange), 2);
    assert_eq!(AdsTransMode::from(3), AdsTransMode::ServerCycle);
    assert_eq!(u32::from(AdsTransMode::ServerCycle), 3);
    assert_eq!(AdsTransMode::from(4), AdsTransMode::ServerOnChange);
    assert_eq!(u32::from(AdsTransMode::ServerOnChange), 4);
    assert_eq!(AdsTransMode::from(100), AdsTransMode::Unknown(100));
    assert_eq!(u32::from(AdsTransMode::Unknown(100)), 100);
}

#[test]
fn test_ads_trans_mode_bytes() {
    assert_eq!(AdsTransMode::ClientOnChange.to_bytes(), [2, 0, 0, 0]);
}

#[test]
fn test_ads_trans_mode_from_bytes() {
    assert_eq!(AdsTransMode::from_bytes([2, 0, 0, 0]), AdsTransMode::ClientOnChange);
}

#[test]
fn test_ads_trans_mode_try_from_slice() {
    assert_eq!(AdsTransMode::try_from_slice(&[2, 0, 0, 0]).unwrap(), AdsTransMode::ClientOnChange);
}
