use tcads_core::symbol::{
    AdsDataTypeCategory, AdsDataTypeInfo, AdsDataTypeIterator, AdsDataTypeIteratorOwned,
};
use tcads_core::AdsTypeInfoError;

#[allow(clippy::too_many_arguments)]
fn dt_entry(
    size: u32,
    offset: u32,
    type_id: u32,
    flags: u32,
    name: &str,
    tname: &str,
    subs: u16,
    tail: &[u8],
) -> Vec<u8> {
    let len = 42 + name.len() + 1 + tname.len() + 1 + 1 + tail.len();
    let mut v = Vec::new();
    v.extend_from_slice(&(len as u32).to_le_bytes());
    v.extend_from_slice(&1u32.to_le_bytes());
    v.extend_from_slice(&0u32.to_le_bytes());
    v.extend_from_slice(&0u32.to_le_bytes());
    v.extend_from_slice(&size.to_le_bytes());
    v.extend_from_slice(&offset.to_le_bytes());
    v.extend_from_slice(&type_id.to_le_bytes());
    v.extend_from_slice(&flags.to_le_bytes());
    v.extend_from_slice(&(name.len() as u16).to_le_bytes());
    v.extend_from_slice(&(tname.len() as u16).to_le_bytes());
    v.extend_from_slice(&0u16.to_le_bytes());
    v.extend_from_slice(&0u16.to_le_bytes());
    v.extend_from_slice(&subs.to_le_bytes());
    v.extend_from_slice(name.as_bytes());
    v.push(0);
    v.extend_from_slice(tname.as_bytes());
    v.push(0);
    v.push(0);
    v.extend_from_slice(tail);
    v
}

fn member(name: &str, offset: u32) -> Vec<u8> {
    dt_entry(4, offset, 3, 2, name, "DINT", 0, &[])
}

fn parse(bytes: &[u8]) -> AdsDataTypeInfo {
    let (info, consumed) = AdsDataTypeInfo::try_from_slice(bytes).unwrap();
    assert_eq!(consumed, bytes.len());
    info
}

#[test]
fn data_type_parses_struct_members() {
    let mut tail = member("x", 0);
    tail.extend(member("y", 4));
    let info = parse(&dt_entry(8, 0, 65, 1, "ST_Point", "", 2, &tail));
    assert_eq!(info.name(), "ST_Point");
    assert_eq!(info.size(), 8);
    assert_eq!(info.sub_items().len(), 2);
    assert_eq!(info.sub_items()[0].name(), "x");
    assert_eq!(info.sub_items()[1].name(), "y");
    assert_eq!(info.sub_items()[1].offset(), 4);
    assert_eq!(info.sub_items()[1].data_type_name(), "DINT");
    assert_eq!(info.platform_pointer_size(), None);
    assert_eq!(info.category(), AdsDataTypeCategory::Struct);
}

#[test]
fn data_type_overlapping_members_form_union() {
    let mut tail = member("a", 0);
    tail.extend(member("b", 0));
    let info = parse(&dt_entry(4, 0, 65, 1, "U_Value", "", 2, &tail));
    assert_eq!(info.category(), AdsDataTypeCategory::Union);
}

#[test]
fn data_type_hidden_state_is_function_block() {
    let tail = member("n", 8);
    let info = parse(&dt_entry(12, 0, 65, 1, "FB_Counter", "", 1, &tail));
    assert_eq!(info.category(), AdsDataTypeCategory::FunctionBlock);
}

#[test]
fn data_type_alias_and_primitive() {
    let alias = parse(&dt_entry(2, 0, 2, 1, "T_Count", "INT", 0, &[]));
    assert_eq!(alias.category(), AdsDataTypeCategory::Alias);
    let int = parse(&dt_entry(2, 0, 2, 1, "INT", "", 0, &[]));
    assert_eq!(int.category(), AdsDataTypeCategory::Primitive);
    let pointer = parse(&dt_entry(8, 0, 65, 1, "PVOID", "", 0, &[]));
    assert_eq!(pointer.category(), AdsDataTypeCategory::Pointer);
    let odd = parse(&dt_entry(3, 0, 65, 1, "X", "", 0, &[]));
    assert_eq!(odd.category(), AdsDataTypeCategory::Unknown);
}

#[test]
fn data_type_platform_pointer_size() {
    let info = parse(&dt_entry(8, 0, 65, 1, "I_Itf", "", 0, &[]));
    let mut info = info.with_platform_pointer_size(Some(8));
    assert_eq!(info.platform_pointer_size(), Some(8));
    info.set_platform_pointer_size(None);
    assert_eq!(info.platform_pointer_size(), None);
}

#[test]
fn data_type_rejects_short_data() {
    assert_eq!(
        AdsDataTypeInfo::try_from_slice(&[0u8; 41]).unwrap_err(),
        AdsTypeInfoError::TooShort { expected: 42, got: 41 }
    );
}

#[test]
fn data_type_rejects_sub_item_past_entry() {
    let mut tail = member("x", 0);
    tail.truncate(20);
    let bytes = dt_entry(8, 0, 65, 1, "ST_Broken", "", 1, &tail);
    assert!(AdsDataTypeInfo::try_from_slice(&bytes).is_err());
}

#[test]
fn data_type_iterator_sets_platform_pointer_size() {
    let mut table = dt_entry(2, 0, 2, 1, "INT", "", 0, &[]);
    table.extend(dt_entry(4, 0, 3, 1, "DINT", "", 0, &[]));
    let mut it = AdsDataTypeIterator::new(&table).with_platform_pointer_size(Some(4));
    let first = it.next().unwrap().unwrap();
    assert_eq!(first.name(), "INT");
    assert_eq!(first.platform_pointer_size(), Some(4));
    let mut owned = it.into_owned();
    assert_eq!(owned.next().unwrap().unwrap().name(), "DINT");
    assert!(owned.next().is_none());
}

#[test]
fn data_type_iterator_owned_stops_on_short_tail() {
    let mut it = AdsDataTypeIteratorOwned::new(vec![7, 0, 0]);
    assert_eq!(it.next(), Some(Err(AdsTypeInfoError::TooShort { expected: 4, got: 3 })));
    assert!(it.next().is_none());
}

#[test]
fn data_type_iterator_stops_after_zero_length_entry() {
    let mut it = AdsDataTypeIteratorOwned::new(vec![0, 0, 0, 0, 5, 6, 7, 8]);
    assert!(matches!(it.next(), Some(Err(_))));
    assert!(it.next().is_none());
}
