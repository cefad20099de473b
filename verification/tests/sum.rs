use std::time::Duration;
use tcads_core::sum::{
    SumAddNotificationRequest, SumAddNotificationResponse, SumReadRequest, SumReadResponse, SumReadWriteRequest,
    SumReadWriteResponse,
};
use tcads_core::{AdsNotificationAttrib, AdsReturnCode, AdsTransMode, IndexGroup, IndexOffset, NotificationHandle};

#[test]
fn test_add_notif_request_padding() {
    let req = SumAddNotificationRequest::new(
        0xF005.into(),
        1234.into(),
        AdsNotificationAttrib::new(4, AdsTransMode::ServerCycle, Duration::ZERO, Duration::from_millis(100)),
    );
    let bytes = req.to_bytes();
    // exactly 40 bytes
    assert_eq!(bytes.len(), 40);
    assert_eq!(SumAddNotificationRequest::LENGTH, 40);
    // the 16 reserved bytes at the end are zero
    for &byte in &bytes[24..40] {
        assert_eq!(byte, 0, "Reserved padding bytes must be 0");
    }
}

#[test]
fn test_add_notif_response_parsing() {
    // 8 bytes per item: error code, handle
    let buffer = vec![
        // NoError (0), handle 42
        0x00, 0x00, 0x00, 0x00, 0x2A, 0x00, 0x00, 0x00,
        // AdsErrDeviceSymbolNotFound (0x0710), handle 0
        0x10, 0x07, 0x00, 0x00, 0x00, 0x00, 0x00, 0x00,
    ];
    let resp = SumAddNotificationResponse::new(buffer).unwrap();
    let mut iter = resp.iter();
    assert_eq!(iter.next(), Some(Ok(NotificationHandle::from(42))));
    assert_eq!(iter.next(), Some(Err(AdsReturnCode::AdsErrDeviceSymbolNotFound)));
    assert_eq!(iter.next(), None);
}

#[test]
fn test_read_request_layout() {
    let req = SumReadRequest::new(0x4020.into(), 0.into(), 4);
    assert_eq!(req.to_bytes().len(), 12);
    assert_eq!(SumReadRequest::LENGTH, 12);
}

#[test]
fn test_read_response_misalignment_prevention() {
    let mut buffer = Vec::new();
    // item 1: error 1795, returned length 0
    buffer.extend_from_slice(&[0x03, 0x07, 0x00, 0x00, 0x00, 0x00, 0x00, 0x00]);
    // item 2: success, returned length 4
    buffer.extend_from_slice(&[0x00, 0x00, 0x00, 0x00, 0x04, 0x00, 0x00, 0x00]);
    // only the 4 data bytes of item 2
    buffer.extend_from_slice(&[0xAA, 0xBB, 0xCC, 0xDD]);
    let reqs = vec![
        SumReadRequest::new(0x4020.into(), 0.into(), 4),
        SumReadRequest::new(0x4020.into(), 4.into(), 4),
    ];
    let response = SumReadResponse::new(&buffer, &reqs);
    let mut iter = response.iter();
    assert_eq!(iter.next(), Some(Err(AdsReturnCode::AdsErrDeviceInvalidOffset)));
    assert_eq!(iter.next(), Some(Ok([0xAA, 0xBB, 0xCC, 0xDD].as_slice())));
    assert_eq!(iter.next(), None);
}

#[test]
fn test_read_write_request_header() {
    let data: &[u8] = b"MAIN.bTest\0";
    let req = SumReadWriteRequest::new(IndexGroup::new(0xF003), IndexOffset::new(0), 4, data);
    let header = req.header_to_bytes();
    assert_eq!(header.len(), 16);
    assert_eq!(SumReadWriteRequest::HEADER_LENGTH, 16);
    // the write length is the last 4 bytes of the header
    let encoded_write_len = u32::from_le_bytes(header[12..16].try_into().unwrap());
    assert_eq!(encoded_write_len as usize, data.len());
}

#[test]
fn test_read_write_response_misalignment_prevention() {
    let mut buffer = Vec::new();
    // item 1: AdsErrDeviceSymbolNotFound (0x0710), returned length 0
    buffer.extend_from_slice(&[0x10, 0x07, 0x00, 0x00, 0x00, 0x00, 0x00, 0x00]);
    // item 2: success, returned length 4
    buffer.extend_from_slice(&[0x00, 0x00, 0x00, 0x00, 0x04, 0x00, 0x00, 0x00]);
    let handle_bytes = [137, 0, 0, 84];
    buffer.extend_from_slice(&handle_bytes);
    let reqs = vec![
        SumReadWriteRequest::new(IndexGroup::new(0xF003), IndexOffset::new(0), 4, b"BAD\0"),
        SumReadWriteRequest::new(IndexGroup::new(0xF003), IndexOffset::new(0), 4, b"GOOD\0"),
    ];
    let response = SumReadWriteResponse::new(&buffer, &reqs);
    let mut iter = response.iter();
    assert_eq!(iter.next(), Some(Err(AdsReturnCode::AdsErrDeviceSymbolNotFound)));
    assert_eq!(iter.next(), Some(Ok(handle_bytes.as_slice())));
    assert_eq!(iter.next(), None);
}

#[test]
fn sum_read_request_wire_layout_and_roundtrip() {
    let req = SumReadRequest::new(IndexGroup::new(0x4020), IndexOffset::new(0x10), 8);
    let bytes = req.to_bytes();
    assert_eq!(bytes, [0x20, 0x40, 0, 0, 0x10, 0, 0, 0, 8, 0, 0, 0]);
    assert_eq!(SumReadRequest::from_bytes(bytes), req);
    assert_eq!(SumReadRequest::try_from_slice(&bytes).unwrap(), req);
    assert!(SumReadRequest::try_from_slice(&bytes[..11]).is_err());
}

#[test]
fn sum_add_notification_response_rejects_partial_item() {
    assert!(SumAddNotificationResponse::new(vec![0u8; 7]).is_err());
    let r = SumAddNotificationResponse::new(vec![0u8; 16]).unwrap();
    assert_eq!(r.len(), 2);
}

#[test]
fn sum_write_request_roundtrip() {
    let data = [1u8, 2, 3, 4, 5];
    let req = tcads_core::sum::SumWriteRequest::new(0x4020.into(), 8.into(), &data);
    let mut buf = req.header_to_bytes().to_vec();
    buf.extend_from_slice(&data);
    let parsed = tcads_core::sum::SumWriteRequest::try_from_slice(&buf).unwrap();
    assert_eq!(parsed.index_group(), IndexGroup::from(0x4020));
    assert_eq!(parsed.index_offset(), IndexOffset::from(8));
    assert_eq!(parsed.data(), &data);
}

#[test]
fn sum_read_write_request_roundtrip() {
    let data = [9u8, 8, 7];
    let req = SumReadWriteRequest::new(0xF003.into(), 0.into(), 4, &data);
    let mut buf = req.header_to_bytes().to_vec();
    buf.extend_from_slice(&data);
    let parsed = SumReadWriteRequest::try_from_slice(&buf).unwrap();
    assert_eq!(parsed.index_group(), IndexGroup::from(0xF003));
    assert_eq!(parsed.read_length(), 4);
    assert_eq!(parsed.write_data(), &data);
}

#[test]
fn sum_add_notification_request_roundtrip() {
    let attrib = AdsNotificationAttrib::new(4, AdsTransMode::ServerOnChange, Duration::from_millis(10), Duration::from_nanos(1050));
    let req = SumAddNotificationRequest::new(0x4020.into(), 16.into(), attrib);
    let parsed = SumAddNotificationRequest::from_bytes(req.to_bytes());
    assert_eq!(parsed.index_group(), IndexGroup::from(0x4020));
    assert_eq!(parsed.index_offset(), IndexOffset::from(16));
    assert_eq!(parsed.attributes().length(), 4);
    assert_eq!(parsed.attributes().trans_mode(), AdsTransMode::ServerOnChange);
    assert_eq!(parsed.attributes().max_delay(), Duration::from_millis(10));
    // rounded down to whole 100 ns ticks
    assert_eq!(parsed.attributes().cycle_time(), Duration::from_nanos(1000));
}

#[test]
fn sum_read_collect_items_walks_every_item_in_order() {
    let mut buffer = Vec::new();
    buffer.extend_from_slice(&[0x03, 0x07, 0x00, 0x00, 0x00, 0x00, 0x00, 0x00]);
    buffer.extend_from_slice(&[0x00, 0x00, 0x00, 0x00, 0x02, 0x00, 0x00, 0x00]);
    buffer.extend_from_slice(&[0x00, 0x00, 0x00, 0x00, 0x01, 0x00, 0x00, 0x00]);
    buffer.extend_from_slice(&[0xAA, 0xBB, 0xCC]);
    let reqs = vec![
        SumReadRequest::new(0x4020.into(), 0.into(), 4),
        SumReadRequest::new(0x4020.into(), 4.into(), 2),
        SumReadRequest::new(0x4020.into(), 6.into(), 1),
    ];
    let response = SumReadResponse::new(&buffer, &reqs);
    let mut iter = response.iter();
    let items = iter.collect_items();
    assert_eq!(
        items,
        vec![
            Err(AdsReturnCode::AdsErrDeviceInvalidOffset),
            Ok([0xAA, 0xBB].as_slice()),
            Ok([0xCC].as_slice()),
        ]
    );
    assert_eq!(iter.next(), None);
}
