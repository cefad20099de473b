use tcads_core::{AdsProductVersion, AdsProductVersionError};

#[test]
fn decodes_reordered_wire_fields() {
    let mut data = Vec::new();
    data.extend_from_slice(&2u16.to_le_bytes()); // v2
    data.extend_from_slice(&3u16.to_le_bytes()); // v1
    data.extend_from_slice(&5u16.to_le_bytes()); // v4
    data.extend_from_slice(&4025u16.to_le_bytes()); // v3
    data.extend_from_slice(&[0u8; 8]); // reserved tail, ignored
    let version = AdsProductVersion::try_from_slice(&data).unwrap();
    assert_eq!(version, AdsProductVersion::new(3, 2, 4025, 5));
    assert_eq!(version.to_text(), "3.2.4025.5");
}

#[test]
fn product_version_rejects_short_payload() {
    let err = AdsProductVersion::try_from_slice(&[0u8; 4]).unwrap_err();
    assert!(matches!(
        err,
        AdsProductVersionError::TooShort {
            expected: 8,
            got: 4
        }
    ));
}
