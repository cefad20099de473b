use tcads_core::header::ADS_HEADER_LEN;
use tcads_core::{AdsCommand, AdsHeader, AdsReturnCode, AmsAddr, AmsNetId, StateFlag};

#[test]
fn test_roundtrip_serialization() {
    let target = AmsAddr::new(AmsNetId::new(192, 168, 0, 1, 1, 1), 851);
    let source = AmsAddr::new(AmsNetId::new(10, 10, 10, 10, 1, 1), 30000);
    let header = AdsHeader::new(
        target,
        source,
        AdsCommand::AdsRead,
        StateFlag::tcp_ads_request(),
        4,
        AdsReturnCode::NoError,
        12345,
    );
    let bytes = header.to_bytes();
    let parsed = AdsHeader::from_bytes(bytes);
    let parsed_slice = AdsHeader::try_from_slice(&bytes[..ADS_HEADER_LEN]).unwrap();
    assert_eq!(header, parsed);
    assert_eq!(parsed.command_id(), AdsCommand::AdsRead);
    assert_eq!(parsed.invoke_id(), 12345);
    assert_eq!(parsed_slice, parsed);
}

#[test]
fn header_wire_layout() {
    let target = AmsAddr::new(AmsNetId::new(1, 2, 3, 4, 5, 6), 0x0353);
    let source = AmsAddr::new(AmsNetId::new(7, 8, 9, 10, 11, 12), 0x7530);
    let header = AdsHeader::new(
        target,
        source,
        AdsCommand::AdsRead,
        StateFlag::tcp_ads_request(),
        0x0C,
        AdsReturnCode::NoError,
        0x01020304,
    );
    let b = header.to_bytes();
    assert_eq!(&b[0..8], &[1, 2, 3, 4, 5, 6, 0x53, 0x03]);
    assert_eq!(&b[8..16], &[7, 8, 9, 10, 11, 12, 0x30, 0x75]);
    assert_eq!(&b[16..18], &[2, 0]);
    assert_eq!(&b[18..20], &[4, 0]);
    assert_eq!(&b[20..24], &[0x0C, 0, 0, 0]);
    assert_eq!(&b[24..28], &[0, 0, 0, 0]);
    assert_eq!(&b[28..32], &[4, 3, 2, 1]);
}

#[test]
fn header_try_from_slice_rejects_wrong_length() {
    assert!(AdsHeader::try_from_slice(&[0u8; 31]).is_err());
    assert!(AdsHeader::try_from_slice(&[0u8; 33]).is_err());
}
