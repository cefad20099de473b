use tcads_core::{AdsFileStatus, AdsFileStatusError};

#[test]
fn file_status_decodes_all_fields() {
    let mut data = vec![0u8; AdsFileStatus::LENGTH];
    data[0..8].copy_from_slice(&123_456u64.to_le_bytes());
    data[8..16].copy_from_slice(&1_000u64.to_le_bytes());
    data[16..24].copy_from_slice(&2_000u64.to_le_bytes());
    data[24..32].copy_from_slice(&3_000u64.to_le_bytes());
    data[32..36].copy_from_slice(&0x0010u32.to_le_bytes()); // DIRECTORY
    let status = AdsFileStatus::try_from_slice(&data).unwrap();
    assert_eq!(status.size(), 123_456);
    assert_eq!(status.creation_time().as_raw(), 1_000);
    assert_eq!(status.modified_time().as_raw(), 2_000);
    assert_eq!(status.access_time().as_raw(), 3_000);
    assert!(status.is_directory());
}

#[test]
fn file_status_rejects_short_payload() {
    let err = AdsFileStatus::try_from_slice(&[0u8; 10]).unwrap_err();
    assert!(matches!(
        err,
        AdsFileStatusError::UnexpectedLength {
            expected: 36,
            got: 10
        }
    ));
}
