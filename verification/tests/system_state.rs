use tcads_core::{AdsDeviceVersion, AdsOsType, AdsPlatform, AdsState, AdsSystemState, AdsSystemStateError};

#[test]
fn system_state_decodes_all_fields() {
    let mut data = Vec::new();
    data.extend_from_slice(&5u16.to_le_bytes()); // ads_state = Run
    data.extend_from_slice(&0u16.to_le_bytes()); // device_state
    data.extend_from_slice(&3u16.to_le_bytes()); // restart_index
    data.extend_from_slice(&[3, 1, 0x39, 0x05]); // version 3.1.1337
    data.push(1); // platform = X64
    data.push(2); // os_type = UserMode
    data.extend_from_slice(&0x0011u16.to_le_bytes()); // ROUTER_MODE_ONLY | REDUNDANCY_ACTIVE
    data.extend_from_slice(&0u16.to_le_bytes()); // reserved
    let state = AdsSystemState::try_from_slice(&data).unwrap();
    assert_eq!(state.ads_state(), AdsState::Run);
    assert_eq!(state.device_state(), 0);
    assert_eq!(state.restart_index(), 3);
    assert_eq!(state.version(), AdsDeviceVersion::new(3, 1, 1337));
    assert_eq!(state.platform(), AdsPlatform::X64);
    assert_eq!(state.os_type(), AdsOsType::UserMode);
    assert!(state.flags().is_router_mode_only());
    assert!(state.flags().is_redundancy_active());
    assert_eq!(state.reserved(), 0);
}

#[test]
fn system_state_rejects_short_payload() {
    let err = AdsSystemState::try_from_slice(&[0u8; 10]).unwrap_err();
    assert!(matches!(
        err,
        AdsSystemStateError::TooShort {
            expected: 16,
            got: 10
        }
    ));
}

#[test]
fn device_version_text() {
    assert_eq!(AdsDeviceVersion::new(3, 1, 1337).to_text(), "3.1.1337");
}
