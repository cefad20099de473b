use tcads_core::{StateFlag, StateFlagBuilder};

#[test]
fn parses_udp_request() {
    let flag = StateFlag::new(0x0044); // ADS_COMMAND | UDP
    assert!(flag.is_ads_command());
    assert!(flag.is_udp());
    assert!(flag.is_request());
    assert!(!flag.is_response());
    assert!(!flag.is_tcp());
}

#[test]
fn state_flag_roundtrip_bytes() {
    let flag = StateFlag::new(StateFlag::ADS_COMMAND) | StateFlag::new(StateFlag::UDP)
        | StateFlag::new(StateFlag::RESPONSE);
    assert_eq!(StateFlag::from_bytes(flag.to_bytes()), flag);
}

#[test]
fn builder_methods() {
    let flag = StateFlagBuilder::new(0).ads_command().request().udp().broadcast().build();
    assert!(flag.is_ads_command());
    assert!(flag.is_request());
    assert!(flag.is_udp());
    assert!(flag.is_broadcast());
    assert!(!flag.is_tcp());
}

#[test]
fn state_flag_presets_and_text() {
    assert_eq!(StateFlag::tcp_ads_request().as_raw(), 0x0004);
    assert_eq!(StateFlag::tcp_ads_response().as_raw(), 0x0005);
    assert_eq!(StateFlag::udp_ads_request().as_raw(), 0x0044);
    assert_eq!(StateFlag::udp_ads_response().as_raw(), 0x0045);
    assert_eq!(StateFlag::new(0x0045).to_text(), "RESPONSE | ADS_COMMAND | UDP");
    assert_eq!(StateFlag::new(0x0100).to_text(), "0x100");
    assert!(StateFlag::try_from_slice(&[1]).is_err());
}
