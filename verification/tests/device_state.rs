use tcads_core::AdsState;

#[test]
fn test_ads_state_conversion() {
    assert_eq!(AdsState::from(5), AdsState::Run);
    assert_eq!(u16::from(AdsState::Run), 5);

    assert_eq!(AdsState::from(100), AdsState::Unknown(100));
    assert_eq!(u16::from(AdsState::Unknown(100)), 100);
}

#[test]
fn test_ads_state_bytes() {
    assert_eq!(AdsState::Idle.to_bytes(), [1, 0]);
}

#[test]
fn test_ads_state_from_bytes() {
    assert_eq!(AdsState::from_bytes([1, 0]), AdsState::Idle);
}

#[test]
fn test_ads_state_try_from_slice() {
    assert_eq!(AdsState::try_from_slice(&[1, 0]).unwrap(), AdsState::Idle);
}

#[test]
fn ads_state_try_from_slice_reads_the_first_two_bytes() {
    assert!(AdsState::try_from_slice(&[1]).is_err());
    assert_eq!(AdsState::try_from_slice(&[5, 0, 9]).unwrap(), AdsState::Run);
}
