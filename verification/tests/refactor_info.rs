use tcads_core::symbol::AdsRefactorInfo;
use tcads_core::AdsTypeInfoError;

fn single_entry_bytes(packed: u32, name: &str) -> Vec<u8> {
    let mut buf = Vec::new();
    buf.extend_from_slice(&packed.to_le_bytes());
    buf.extend_from_slice(&(name.len() as u16).to_le_bytes());
    buf.extend_from_slice(name.as_bytes());
    buf.push(0);
    buf
}

#[test]
fn parses_single_entry_no_next() {
    let bytes = single_entry_bytes(0x00000001, "OldName");
    let (entry, consumed) = AdsRefactorInfo::try_from_slice(&bytes).unwrap();
    assert_eq!(consumed, bytes.len());
    assert_eq!(entry.refactor_count(), 0x00000001);
    assert!(!entry.next_refactor_info());
    assert_eq!(entry.name(), Some("OldName"));
}

#[test]
fn parses_entry_with_next_flag() {
    let bytes = single_entry_bytes(0x01000001, "FirstName");
    let (entry, consumed) = AdsRefactorInfo::try_from_slice(&bytes).unwrap();
    assert_eq!(consumed, bytes.len());
    assert!(entry.next_refactor_info());
    assert_eq!(entry.name(), Some("FirstName"));
    // the count mask covers bit 24 too
    assert_eq!(entry.refactor_count(), 0x01000001 & 0x01111111);
}

#[test]
fn parse_chain_two_entries() {
    let mut bytes = single_entry_bytes(0x01000001, "OriginalName");
    bytes.extend(single_entry_bytes(0x00000002, "RenamedOnce"));
    let (entries, consumed) = AdsRefactorInfo::parse_chain(&bytes).unwrap();
    assert_eq!(entries.len(), 2);
    assert_eq!(consumed, bytes.len());
    assert_eq!(entries[0].name(), Some("OriginalName"));
    assert!(entries[0].next_refactor_info());
    assert_eq!(entries[1].name(), Some("RenamedOnce"));
    assert!(!entries[1].next_refactor_info());
}

#[test]
fn parse_chain_stops_at_false() {
    let mut bytes = single_entry_bytes(0x01000001, "First");
    bytes.extend(single_entry_bytes(0x00000001, "Second"));
    bytes.extend(single_entry_bytes(0x00000001, "ShouldNotBeParsed"));
    let (entries, consumed) = AdsRefactorInfo::parse_chain(&bytes).unwrap();
    assert_eq!(entries.len(), 2);
    assert!(consumed < bytes.len());
}

#[test]
fn wire_size_matches_serialised_length() {
    let entry = AdsRefactorInfo { refactor_count: 1, next_refactor_info: false, name: Some("OldName".into()) };
    let buf = entry.to_vec_with_next(false);
    assert_eq!(entry.wire_size(), buf.len());
}

#[test]
fn wire_size_empty_name_matches_serialised_length() {
    let entry = AdsRefactorInfo { refactor_count: 0, next_refactor_info: false, name: None };
    let buf = entry.to_vec_with_next(false);
    assert_eq!(entry.wire_size(), buf.len());
}

#[test]
fn write_into_sets_next_flag_when_has_next_true() {
    let entry = AdsRefactorInfo { refactor_count: 1, next_refactor_info: false, name: Some("A".to_string()) };
    let buf = entry.to_vec_with_next(true);
    let packed = u32::from_le_bytes(buf[0..4].try_into().unwrap());
    assert_ne!(packed & 0x01000000, 0);
}

#[test]
fn roundtrip_single_entry() {
    let entry =
        AdsRefactorInfo { refactor_count: 0x00000001, next_refactor_info: false, name: Some("OriginalName".to_string()) };
    let buf = entry.to_vec_with_next(false);
    let (parsed, consumed) = AdsRefactorInfo::try_from_slice(&buf).unwrap();
    assert_eq!(consumed, buf.len());
    assert_eq!(parsed.refactor_count(), entry.refactor_count());
    assert!(!parsed.next_refactor_info());
    assert_eq!(parsed.name(), Some("OriginalName"));
}

#[test]
fn roundtrip_none_name() {
    let entry = AdsRefactorInfo { refactor_count: 0, next_refactor_info: false, name: None };
    let buf = entry.to_vec_with_next(false);
    let (parsed, _) = AdsRefactorInfo::try_from_slice(&buf).unwrap();
    assert!(parsed.name().is_none());
}

#[test]
fn write_chain_prefix_count() {
    let entries = vec![
        AdsRefactorInfo { refactor_count: 1, next_refactor_info: false, name: Some("A".to_string()) },
        AdsRefactorInfo { refactor_count: 2, next_refactor_info: false, name: Some("B".to_string()) },
    ];
    let buf = AdsRefactorInfo::entries_to_vec(&entries);
    let count = u16::from_le_bytes(buf[0..2].try_into().unwrap());
    assert_eq!(count, 2);
}

#[test]
fn write_chain_roundtrip() {
    let entries = vec![
        AdsRefactorInfo { refactor_count: 0x00000001, next_refactor_info: false, name: Some("OriginalName".to_string()) },
        AdsRefactorInfo { refactor_count: 0x00000011, next_refactor_info: false, name: Some("RenamedOnce".to_string()) },
        AdsRefactorInfo { refactor_count: 0x00000111, next_refactor_info: false, name: None },
    ];
    let buf = AdsRefactorInfo::entries_to_vec(&entries);
    let (parsed, _) = AdsRefactorInfo::parse_chain(&buf[2..]).unwrap();
    assert_eq!(parsed.len(), 3);
    assert_eq!(parsed[0].refactor_count(), 0x01000001);
    assert_eq!(parsed[0].name(), Some("OriginalName"));
    assert!(parsed[0].next_refactor_info());
    assert_eq!(parsed[1].refactor_count(), 0x01000011);
    assert_eq!(parsed[1].name(), Some("RenamedOnce"));
    assert!(parsed[1].next_refactor_info());
    assert_eq!(parsed[2].refactor_count(), 0x00000111);
    assert_eq!(parsed[2].name(), None);
    assert!(!parsed[2].next_refactor_info());
}

#[test]
fn refactor_info_too_short_returns_err() {
    assert!(matches!(
        AdsRefactorInfo::try_from_slice(&[0u8; 4]).unwrap_err(),
        AdsTypeInfoError::TooShort { expected: 7, got: 4 }
    ));
}

#[test]
fn name_longer_than_slice_returns_err() {
    let mut bytes = vec![0u8; 7];
    bytes[4] = 100;
    bytes[5] = 0;
    assert!(matches!(AdsRefactorInfo::try_from_slice(&bytes).unwrap_err(), AdsTypeInfoError::TooShort { .. }));
}

#[test]
fn refactor_info_empty_slice_returns_err() {
    assert!(AdsRefactorInfo::try_from_slice(&[]).is_err());
}

#[test]
fn refactor_wire_size_counts_windows_1252_bytes() {
    let bytes = [0, 0, 0, 0, 1, 0, 0x80, 0];
    let (entry, consumed) = AdsRefactorInfo::try_from_slice(&bytes).unwrap();
    assert_eq!(consumed, 8);
    assert_eq!(entry.name(), Some("\u{20AC}"));
    assert_eq!(entry.wire_size(), 8);
    assert_eq!(entry.to_vec_with_next(false), bytes.to_vec());
}
