use std::time::Duration;
use tcads_core::{AdsNotificationAttrib, AdsTransMode};

#[test]
fn test_normal_duration_conversion() {
    let attr = AdsNotificationAttrib::new(
        4,
        AdsTransMode::ServerOnChange,
        Duration::from_millis(0),
        Duration::from_millis(100),
    );
    let bytes = attr.to_bytes();
    // 0 ms -> 0 ticks
    assert_eq!(&bytes[8..12], &0u32.to_le_bytes());
    // 100 ms -> 1_000_000 ticks of 100ns
    assert_eq!(&bytes[12..16], &1_000_000u32.to_le_bytes());
    let parsed = AdsNotificationAttrib::from_bytes(bytes);
    assert_eq!(parsed.max_delay(), Duration::ZERO);
    assert_eq!(parsed.cycle_time(), Duration::from_millis(100));
}

#[test]
fn test_overflow_clamping() {
    let attr = AdsNotificationAttrib::new(
        4,
        AdsTransMode::ServerCycle,
        Duration::from_secs(3600),
        Duration::from_secs(500),
    );
    let bytes = attr.to_bytes();
    // Both clamp to u32::MAX
    assert_eq!(&bytes[8..12], &u32::MAX.to_le_bytes());
    assert_eq!(&bytes[12..16], &u32::MAX.to_le_bytes());
    let parsed = AdsNotificationAttrib::from_bytes(bytes);
    let max_duration = Duration::from_nanos(u32::MAX as u64 * 100);
    assert_eq!(parsed.max_delay(), max_duration);
    assert_eq!(parsed.cycle_time(), max_duration);
}

#[test]
fn notification_attrib_wire_layout_and_roundtrip() {
    let attr = AdsNotificationAttrib::new(
        0x0102,
        AdsTransMode::ServerCycle,
        Duration::from_micros(250),
        Duration::from_millis(10),
    );
    let bytes = attr.to_bytes();
    assert_eq!(&bytes[0..4], &0x0102u32.to_le_bytes());
    assert_eq!(&bytes[4..8], &3u32.to_le_bytes());
    assert_eq!(&bytes[8..12], &2_500u32.to_le_bytes());
    assert_eq!(&bytes[12..16], &100_000u32.to_le_bytes());
    let parsed = AdsNotificationAttrib::from_bytes(bytes);
    assert_eq!(parsed.length(), 0x0102);
    assert_eq!(parsed.trans_mode(), AdsTransMode::ServerCycle);
    assert_eq!(parsed.to_bytes(), bytes);
}

#[test]
fn notification_attrib_tick_conversions() {
    assert_eq!(AdsNotificationAttrib::duration_to_ticks(Duration::from_nanos(250)), 2);
    assert_eq!(AdsNotificationAttrib::duration_to_ticks(Duration::from_secs(10_000)), u32::MAX);
    assert_eq!(AdsNotificationAttrib::ticks_to_duration(3), Duration::from_nanos(300));
}
