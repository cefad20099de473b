use std::collections::HashMap;
use tcads_core::{AdsNotificationHandleError, NotificationHandle};

#[test]
fn notification_handle_test_from_u32_roundtrip() {
    let handle = NotificationHandle::from(0x0000_001A_u32);
    assert_eq!(handle.as_u32(), 0x0000_001A);
    assert_eq!(u32::from(handle), 0x0000_001A);
}

#[test]
fn notification_handle_test_from_bytes_roundtrip() {
    let bytes = [0x1A, 0x00, 0x00, 0x00];
    let handle = NotificationHandle::from_bytes(bytes);
    assert_eq!(handle.to_bytes(), bytes);
    assert_eq!(handle.as_u32(), 0x0000_001A);
}

#[test]
fn notification_handle_test_try_from_slice_valid() {
    let bytes = [0x01, 0x02, 0x03, 0x04];
    let handle = NotificationHandle::try_from_slice(&bytes).unwrap();
    assert_eq!(handle.as_u32(), 0x04030201);
}

#[test]
fn notification_handle_test_try_from_slice_too_long() {
    let bytes = [0x01, 0x02, 0x03, 0x04, 0xFF, 0xFF];
    let err = NotificationHandle::try_from_slice(&bytes).unwrap_err();
    assert!(matches!(
        err,
        AdsNotificationHandleError::UnexpectedLength {
            expected: 4,
            got: 6
        }
    ));
}

#[test]
fn notification_handle_test_try_from_slice_too_short() {
    let err = NotificationHandle::try_from_slice(&[0x01, 0x02, 0x03]).unwrap_err();
    assert!(matches!(
        err,
        AdsNotificationHandleError::UnexpectedLength {
            expected: 4,
            got: 3
        }
    ));
}

#[test]
fn notification_handle_test_equality_and_hash() {
    let h1 = NotificationHandle::from(42_u32);
    let h2 = NotificationHandle::from(42_u32);
    let h3 = NotificationHandle::from(99_u32);
    assert_eq!(h1, h2);
    assert_ne!(h1, h3);
    let mut map = HashMap::new();
    map.insert(h1, "handler_a");
    assert_eq!(map[&h2], "handler_a");
    assert!(!map.contains_key(&h3));
}
