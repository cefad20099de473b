use tcads_core::symbol::{AdsSymbolInfo, AdsSymbolInfoIterator, AdsSymbolInfoIteratorOwned, AdsTypeId};
use tcads_core::AdsSymbolInfoError;

fn symbol_entry(flags: u16, name: &str, tname: &str, comment: &str, tail: &[u8]) -> Vec<u8> {
    let body_len = 30 + name.len() + 1 + tname.len() + 1 + comment.len() + 1 + tail.len();
    let mut v = Vec::new();
    v.extend_from_slice(&(body_len as u32).to_le_bytes());
    v.extend_from_slice(&0x4040u32.to_le_bytes());
    v.extend_from_slice(&0x1234u32.to_le_bytes());
    v.extend_from_slice(&2u32.to_le_bytes());
    v.extend_from_slice(&2u32.to_le_bytes());
    v.extend_from_slice(&flags.to_le_bytes());
    v.extend_from_slice(&0u16.to_le_bytes());
    v.extend_from_slice(&(name.len() as u16).to_le_bytes());
    v.extend_from_slice(&(tname.len() as u16).to_le_bytes());
    v.extend_from_slice(&(comment.len() as u16).to_le_bytes());
    v.extend_from_slice(name.as_bytes());
    v.push(0);
    v.extend_from_slice(tname.as_bytes());
    v.push(0);
    v.extend_from_slice(comment.as_bytes());
    v.push(0);
    v.extend_from_slice(tail);
    v
}

#[test]
fn symbol_info_parses_basic_entry() {
    let bytes = symbol_entry(0, "MAIN.nCounter", "INT", "counter", &[]);
    let (info, consumed) = AdsSymbolInfo::try_from_slice(&bytes).unwrap();
    assert_eq!(consumed, bytes.len());
    assert_eq!(info.index_group(), 0x4040);
    assert_eq!(info.index_offset(), 0x1234);
    assert_eq!(info.size(), 2);
    assert_eq!(info.data_type_id(), AdsTypeId::Int16);
    assert_eq!(info.name(), "MAIN.nCounter");
    assert_eq!(info.data_type_name(), "INT");
    assert_eq!(info.comment(), "counter");
    assert!(info.guid().is_none());
    assert!(info.attributes().is_empty());
    assert!(info.extended_flags().is_none());
    assert!(info.refactor_infos().is_empty());
}

#[test]
fn symbol_info_reads_guid_and_attributes() {
    let mut tail: Vec<u8> = (1u8..=16).collect();
    tail.extend_from_slice(&1u16.to_le_bytes());
    tail.extend_from_slice(&[4, 2, b'u', b'n', b'i', b't', 0, b'm', b'm', 0]);
    let bytes = symbol_entry(0x8 | 0x1000, "MAIN.fLen", "REAL", "", &tail);
    let (info, consumed) = AdsSymbolInfo::try_from_slice(&bytes).unwrap();
    assert_eq!(consumed, bytes.len());
    let guid = info.guid().unwrap();
    assert_eq!(guid.as_bytes()[0], 1);
    assert_eq!(guid.as_bytes()[15], 16);
    assert_eq!(info.attributes().len(), 1);
    assert_eq!(info.attributes()[0].name(), "unit");
    assert_eq!(info.attributes()[0].value(), "mm");
}

#[test]
fn symbol_info_reads_extended_flags_and_refactor_chain() {
    let mut tail = Vec::new();
    tail.extend_from_slice(&0x4u32.to_le_bytes());
    tail.extend_from_slice(&0x1u32.to_le_bytes());
    tail.extend_from_slice(&3u16.to_le_bytes());
    tail.extend_from_slice(b"Old");
    tail.push(0);
    let bytes = symbol_entry(0x8000, "MAIN.x", "BOOL", "", &tail);
    let (info, _) = AdsSymbolInfo::try_from_slice(&bytes).unwrap();
    assert!(info.extended_flags().is_some());
    assert_eq!(info.refactor_infos().len(), 1);
    assert_eq!(info.refactor_infos()[0].refactor_count(), 1);
    assert_eq!(info.refactor_infos()[0].name(), Some("Old"));
}

#[test]
fn symbol_info_rejects_short_data() {
    let bytes = [0u8; 10];
    assert_eq!(
        AdsSymbolInfo::try_from_slice(&bytes).unwrap_err(),
        AdsSymbolInfoError::TooShort { expected: 30, got: 10 }
    );
}

#[test]
fn symbol_info_rejects_entry_longer_than_data() {
    let mut bytes = symbol_entry(0, "A", "B", "", &[]);
    let len = bytes.len();
    bytes[0] = 200;
    assert_eq!(
        AdsSymbolInfo::try_from_slice(&bytes).unwrap_err(),
        AdsSymbolInfoError::EntryLengthMismatch { expected: 200, got: len }
    );
}

#[test]
fn symbol_info_rejects_strings_past_entry() {
    let mut bytes = symbol_entry(0, "A", "B", "", &[]);
    bytes[24] = 50;
    let len = bytes.len();
    assert_eq!(
        AdsSymbolInfo::try_from_slice(&bytes).unwrap_err(),
        AdsSymbolInfoError::EntryLengthMismatch { expected: 30 + 51 + 2 + 1, got: len }
    );
}

#[test]
fn symbol_iterator_yields_each_entry() {
    let mut table = symbol_entry(0, "A", "INT", "", &[]);
    table.extend(symbol_entry(0, "B", "BOOL", "", &[]));
    let mut it = AdsSymbolInfoIterator::new(&table);
    assert_eq!(it.next().unwrap().unwrap().name(), "A");
    assert_eq!(it.next().unwrap().unwrap().name(), "B");
    assert!(it.next().is_none());
}

#[test]
fn symbol_iterator_stops_after_truncated_length() {
    let table = vec![1u8, 2];
    let mut it = AdsSymbolInfoIteratorOwned::new(table);
    assert_eq!(it.next(), Some(Err(AdsSymbolInfoError::TooShort { expected: 4, got: 2 })));
    assert!(it.next().is_none());
}

#[test]
fn symbol_iterator_owned_matches_borrowed() {
    let table = symbol_entry(0, "MAIN.y", "DINT", "", &[]);
    let mut owned = AdsSymbolInfoIterator::new(&table).into_owned();
    assert_eq!(owned.next().unwrap().unwrap().name(), "MAIN.y");
    assert!(owned.next().is_none());
}

#[test]
fn symbol_iterator_stops_after_zero_length_entry() {
    let table = [0u8, 0, 0, 0, 5, 6, 7, 8];
    let mut it = AdsSymbolInfoIterator::new(&table);
    assert!(matches!(it.next(), Some(Err(_))));
    assert!(it.next().is_none());
}
