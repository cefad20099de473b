use std::time::UNIX_EPOCH;
use tcads_core::{WindowsFileTime, WindowsFileTimeError};

/// 2026-02-21 12:00:00 UTC as a Windows FILETIME tick count.
const KNOWN_TICKS: u64 = 134_161_488_000_000_000;

#[test]
fn test_from_raw_roundtrip() {
    let ft = WindowsFileTime::from_raw(KNOWN_TICKS);
    assert_eq!(ft.as_raw(), KNOWN_TICKS);
}

#[test]
fn filetime_test_from_bytes_roundtrip() {
    let ft = WindowsFileTime::from_raw(KNOWN_TICKS);
    let bytes = ft.to_bytes();
    let ft2 = WindowsFileTime::from_bytes(bytes);
    assert_eq!(ft, ft2);
}

#[test]
fn filetime_test_try_from_slice_valid() {
    let ft = WindowsFileTime::from_raw(KNOWN_TICKS);
    let bytes = ft.to_bytes();
    let ft2 = WindowsFileTime::try_from_slice(&bytes).unwrap();
    assert_eq!(ft, ft2);
}

#[test]
fn filetime_test_try_from_slice_too_long() {
    let ft = WindowsFileTime::from_raw(KNOWN_TICKS);
    let mut bytes = ft.to_bytes().to_vec();
    bytes.extend_from_slice(&[0xFF, 0xFF]);
    let err = WindowsFileTime::try_from_slice(&bytes).unwrap_err();
    assert!(matches!(
        err,
        WindowsFileTimeError::UnexpectedLength {
            expected: 8,
            got: 10
        }
    ));
}

#[test]
fn filetime_test_try_from_slice_too_short() {
    let err = WindowsFileTime::try_from_slice(&[0x01, 0x02, 0x03, 0x04]).unwrap_err();
    assert!(matches!(
        err,
        WindowsFileTimeError::UnexpectedLength {
            expected: 8,
            got: 4
        }
    ));
}

#[test]
fn test_to_system_time_known_value() {
    // 2026-02-21 12:00:00 UTC, Unix timestamp 1771675200
    let ft = WindowsFileTime::from_raw(KNOWN_TICKS);
    let st = ft.to_system_time();
    let unix = st.duration_since(UNIX_EPOCH).unwrap();
    assert_eq!(unix.as_secs(), 1_771_675_200);
}

#[test]
fn test_from_system_time_roundtrip() {
    let original = WindowsFileTime::from_raw(KNOWN_TICKS);
    let st = original.to_system_time();
    let roundtripped = WindowsFileTime::from_system_time(st);
    assert_eq!(original, roundtripped);
}

#[test]
fn test_now_is_after_known_value() {
    let known = WindowsFileTime::from_raw(KNOWN_TICKS);
    let now = WindowsFileTime::now();
    assert!(now > known);
}

#[test]
fn test_pre_unix_epoch_saturates() {
    let pre_epoch = WindowsFileTime::from_raw(100);
    let st = pre_epoch.to_system_time();
    assert_eq!(st, UNIX_EPOCH);
}

#[test]
fn test_ordering() {
    let earlier = WindowsFileTime::from_raw(KNOWN_TICKS);
    let later = WindowsFileTime::from_raw(KNOWN_TICKS + 10_000_000);
    assert!(later > earlier);
}

#[test]
fn test_le_encoding() {
    let ft = WindowsFileTime::from_raw(1);
    assert_eq!(ft.to_bytes(), [1, 0, 0, 0, 0, 0, 0, 0]);
}

#[test]
fn test_from_u64_into_u64() {
    let ft: WindowsFileTime = KNOWN_TICKS.into();
    let back: u64 = ft.into();
    assert_eq!(back, KNOWN_TICKS);
}

#[test]
fn filetime_unix_parts_of_known_value() {
    let ft = WindowsFileTime::from_raw(KNOWN_TICKS + 5);
    assert_eq!(ft.to_unix_parts(), (1_771_675_200, 500));
    assert_eq!(WindowsFileTime::from_raw(5).to_unix_parts(), (0, 0));
    assert_eq!(WindowsFileTime::from_unix_parts(Some((1_771_675_200, 500))).as_raw(), KNOWN_TICKS + 5);
    assert_eq!(WindowsFileTime::from_unix_parts(None).as_raw(), 0);
    assert_eq!(WindowsFileTime::from_unix_parts(Some((u64::MAX, 0))).as_raw(), u64::MAX);
}

#[test]
fn filetime_from_unix_duration_saturates() {
    assert_eq!(WindowsFileTime::from_unix_duration(u64::MAX, 0).as_raw(), u64::MAX);
    assert_eq!(WindowsFileTime::from_unix_duration(1_771_675_200, 0).as_raw(), KNOWN_TICKS);
}

#[test]
fn filetime_from_system_time_before_unix_epoch_is_filetime_epoch() {
    let t = UNIX_EPOCH - std::time::Duration::from_secs(1);
    assert_eq!(WindowsFileTime::from_system_time(t).as_raw(), 0);
    assert_eq!(WindowsFileTime::from_system_time(UNIX_EPOCH).as_raw(), 116_444_736_000_000_000);
}
