use tcads_core::symbol::{
    AdsMethodFlags, AdsMethodInfo, AdsDataTypeArrayInfo, AdsTypeCategory, AdsTypeId, AdsTypeInfo, AdsTypeInfoIterator, AdsTypeInfoIteratorOwned,
};
use tcads_core::AdsTypeInfoError;

/// Captured bytes of a field entry (offset 56, size 4, with GUID and one attribute).
const FIELD: [u8; 147] = [
    147, 0, 0, 0, 1, 0, 0, 0, 5, 0, 0, 0, 0, 0, 0, 0, 4, 0, 0, 0, 56, 0, 0, 0, 19, 0, 0, 0,
    130, 16, 0, 0, 9, 0, 25, 0, 33, 0, 0, 0, 0, 0, 79, 117, 116, 70, 105, 101, 108, 100,
    50, 0, 84, 99, 50, 95, 83, 121, 115, 116, 101, 109, 46, 69, 95, 84, 99, 77, 101, 109,
    111, 114, 121, 65, 114, 101, 97, 0, 32, 84, 104, 105, 115, 32, 105, 115, 32, 97, 32,
    99, 111, 109, 109, 101, 110, 116, 32, 102, 111, 114, 32, 79, 117, 116, 70, 105, 101,
    108, 100, 50, 33, 0, 17, 70, 164, 80, 70, 136, 246, 162, 120, 191, 230, 194, 31, 223,
    55, 174, 1, 0, 11, 2, 104, 101, 108, 108, 111, 32, 116, 104, 101, 114, 101, 0, 52, 50, 0,
];

#[allow(clippy::too_many_arguments)]
fn type_entry(
    size: u32,
    type_id: u32,
    flags: u32,
    name: &str,
    tname: &str,
    dims: u16,
    fields: u16,
    tail: &[u8],
) -> Vec<u8> {
    let len = 42 + name.len() + 1 + tname.len() + 1 + 1 + tail.len();
    let mut v = Vec::new();
    v.extend_from_slice(&(len as u32).to_le_bytes());
    v.extend_from_slice(&1u32.to_le_bytes());
    v.extend_from_slice(&7u32.to_le_bytes());
    v.extend_from_slice(&9u32.to_le_bytes());
    v.extend_from_slice(&size.to_le_bytes());
    v.extend_from_slice(&0u32.to_le_bytes());
    v.extend_from_slice(&type_id.to_le_bytes());
    v.extend_from_slice(&flags.to_le_bytes());
    v.extend_from_slice(&(name.len() as u16).to_le_bytes());
    v.extend_from_slice(&(tname.len() as u16).to_le_bytes());
    v.extend_from_slice(&0u16.to_le_bytes());
    v.extend_from_slice(&dims.to_le_bytes());
    v.extend_from_slice(&fields.to_le_bytes());
    v.extend_from_slice(name.as_bytes());
    v.push(0);
    v.extend_from_slice(tname.as_bytes());
    v.push(0);
    v.push(0);
    v.extend_from_slice(tail);
    v
}

fn parse(bytes: &[u8]) -> AdsTypeInfo {
    let (info, consumed) = AdsTypeInfo::try_from_slice(bytes).unwrap();
    assert_eq!(consumed, bytes.len());
    info
}

#[test]
fn type_info_parses_primitive() {
    let info = parse(&type_entry(2, 2, 1, "INT", "", 0, 0, &[]));
    assert_eq!(info.version(), 1);
    assert_eq!(info.hash_value(), 7);
    assert_eq!(info.type_hash_value(), 9);
    assert_eq!(info.size(), 2);
    assert_eq!(info.type_id(), AdsTypeId::Int16);
    assert_eq!(info.name(), "INT");
    assert_eq!(info.data_type_name(), "");
    assert_eq!(info.comment(), "");
    assert!(info.field_infos().is_empty());
    assert_eq!(AdsTypeCategory::determine(&info, None), AdsTypeCategory::Primitive);
}

#[test]
fn type_info_parses_array_dimensions() {
    let mut tail = Vec::new();
    tail.extend_from_slice(&AdsDataTypeArrayInfo::new(0, 10).to_bytes());
    tail.extend_from_slice(&AdsDataTypeArrayInfo::new(-1, 3).to_bytes());
    let info = parse(&type_entry(60, 65, 1, "ARRAY [0..9,-1..1] OF INT", "INT", 2, 0, &tail));
    assert_eq!(info.array_infos().len(), 2);
    assert_eq!(info.array_infos()[0].element_count(), 10);
    assert_eq!(info.array_infos()[1].lower_bound(), -1);
    assert_eq!(AdsTypeCategory::determine(&info, None), AdsTypeCategory::Array);
}

#[test]
fn type_info_parses_field() {
    let info = parse(&type_entry(60, 65, 1, "ST_Data", "", 0, 1, &FIELD));
    assert_eq!(info.field_infos().len(), 1);
    assert_eq!(info.field_infos()[0].name(), "OutField2");
    assert_eq!(info.field_infos()[0].offset(), 56);
    // the only field does not start at offset 0: hidden state before it
    assert_eq!(AdsTypeCategory::determine(&info, None), AdsTypeCategory::FunctionBlock);
}

#[test]
fn type_info_parses_enum_values() {
    let mut tail = Vec::new();
    tail.extend_from_slice(&2u16.to_le_bytes());
    tail.extend_from_slice(&[3, b'O', b'f', b'f', 0, 0, 0]);
    tail.extend_from_slice(&[2, b'O', b'n', 0, 1, 0]);
    let info = parse(&type_entry(2, 2, 0x2001, "E_State", "INT", 0, 0, &tail));
    assert_eq!(info.enum_infos().len(), 2);
    assert_eq!(info.enum_infos()[0].name(), "Off");
    assert_eq!(info.enum_infos()[0].value(), &[0, 0]);
    assert_eq!(info.enum_infos()[1].name(), "On");
    assert_eq!(info.enum_infos()[1].value(), &[1, 0]);
    assert_eq!(AdsTypeCategory::determine(&info, None), AdsTypeCategory::Enum);
}

#[test]
fn type_info_rejects_short_data() {
    let bytes = [0u8; 20];
    assert_eq!(
        AdsTypeInfo::try_from_slice(&bytes).unwrap_err(),
        AdsTypeInfoError::TooShort { expected: 42, got: 20 }
    );
}

#[test]
fn type_info_rejects_entry_longer_than_data() {
    let mut bytes = type_entry(2, 2, 1, "INT", "", 0, 0, &[]);
    let len = bytes.len();
    bytes[0] = 250;
    assert_eq!(
        AdsTypeInfo::try_from_slice(&bytes).unwrap_err(),
        AdsTypeInfoError::EntryLengthMismatch { expected: 250, got: len }
    );
}

#[test]
fn type_category_by_name_and_size() {
    let pointer = parse(&type_entry(8, 0, 1, "POINTER TO INT", "", 0, 0, &[]));
    assert_eq!(AdsTypeCategory::determine(&pointer, None), AdsTypeCategory::Pointer);
    let reference = parse(&type_entry(8, 0, 1, "REFERENCE TO INT", "", 0, 0, &[]));
    assert_eq!(AdsTypeCategory::determine(&reference, None), AdsTypeCategory::Reference);
    let sub_range = parse(&type_entry(2, 2, 1, "INT(0..10)", "INT", 0, 0, &[]));
    assert_eq!(AdsTypeCategory::determine(&sub_range, None), AdsTypeCategory::SubRange);
    let alias = parse(&type_entry(2, 2, 1, "T_Count", "INT", 0, 0, &[]));
    assert_eq!(AdsTypeCategory::determine(&alias, None), AdsTypeCategory::Alias);
    let boolean = parse(&type_entry(1, 33, 1, "BOOL", "BIT", 0, 0, &[]));
    assert_eq!(AdsTypeCategory::determine(&boolean, None), AdsTypeCategory::Primitive);
    let string = parse(&type_entry(81, 30, 1, "STRING(80)", "", 0, 0, &[]));
    assert_eq!(AdsTypeCategory::determine(&string, None), AdsTypeCategory::String);
    let time = parse(&type_entry(4, 0, 1, "TIME", "", 0, 0, &[]));
    assert_eq!(AdsTypeCategory::determine(&time, None), AdsTypeCategory::Primitive);
    let empty = parse(&type_entry(0, 65, 1, "ST_Empty", "", 0, 0, &[]));
    assert_eq!(AdsTypeCategory::determine(&empty, None), AdsTypeCategory::Struct);
    let large = parse(&type_entry(12, 65, 1, "FB_Opaque", "", 0, 0, &[]));
    assert_eq!(AdsTypeCategory::determine(&large, None), AdsTypeCategory::FunctionBlock);
    let word = parse(&type_entry(4, 65, 1, "I_Thing", "", 0, 0, &[]));
    assert_eq!(AdsTypeCategory::determine(&word, None), AdsTypeCategory::Interface);
    let odd = parse(&type_entry(3, 65, 1, "X", "", 0, 0, &[]));
    assert_eq!(AdsTypeCategory::determine(&odd, None), AdsTypeCategory::Unknown);
}

#[test]
fn type_iterator_yields_each_entry() {
    let mut table = type_entry(2, 2, 1, "INT", "", 0, 0, &[]);
    table.extend(type_entry(4, 3, 1, "DINT", "", 0, 0, &[]));
    let mut it = AdsTypeInfoIterator::new(&table);
    assert_eq!(it.next().unwrap().unwrap().name(), "INT");
    assert_eq!(it.next().unwrap().unwrap().name(), "DINT");
    assert!(it.next().is_none());
}

#[test]
fn type_iterator_reports_truncated_entry_and_stops() {
    let mut table = type_entry(2, 2, 1, "INT", "", 0, 0, &[]);
    table.extend_from_slice(&[100, 0, 0, 0, 1]);
    let mut it = AdsTypeInfoIteratorOwned::new(table);
    assert!(it.next().unwrap().is_ok());
    assert_eq!(
        it.next(),
        Some(Err(AdsTypeInfoError::EntryLengthMismatch { expected: 100, got: 5 }))
    );
    assert!(it.next().is_none());
}

#[test]
fn type_iterator_skips_corrupt_entry() {
    let mut bad = type_entry(2, 2, 1, "INT", "", 0, 0, &[]);
    bad[32] = 200;
    let bad_len = bad.len();
    let mut table = bad;
    table.extend(type_entry(4, 3, 1, "DINT", "", 0, 0, &[]));
    let mut it = AdsTypeInfoIterator::new(&table);
    assert_eq!(
        it.next(),
        Some(Err(AdsTypeInfoError::EntryLengthMismatch { expected: 42 + 201 + 1 + 1, got: bad_len }))
    );
    assert_eq!(it.next().unwrap().unwrap().name(), "DINT");
    assert!(it.next().is_none());
}

#[test]
fn type_iterator_stops_after_zero_length_entry() {
    let table = [0u8, 0, 0, 0, 5, 6, 7, 8];
    let mut it = AdsTypeInfoIterator::new(&table);
    assert!(matches!(it.next(), Some(Err(_))));
    assert!(it.next().is_none());
}

#[test]
fn type_info_reads_method_section() {
    let method = AdsMethodInfo::new(0, AdsMethodFlags::new(AdsMethodFlags::PLC_CALLING_CONVENTION), "Run");
    let mut tail = vec![1, 0];
    tail.extend(method.to_vec());
    let bytes = type_entry(0, 65, 0x800, "FB_Motor", "", 0, 0, &tail);
    let (info, consumed) = AdsTypeInfo::try_from_slice(&bytes).unwrap();
    assert_eq!(consumed, bytes.len());
    assert_eq!(info.method_infos().len(), 1);
    assert_eq!(info.method_infos()[0].name(), "Run");
}
