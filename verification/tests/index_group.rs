use tcads_core::IndexGroup;

#[test]
fn index_group_roundtrip() {
    let ig = IndexGroup::new(0xF005);
    assert_eq!(ig.as_u32(), 0xF005);
    assert_eq!(IndexGroup::from_bytes(ig.to_bytes()), ig);
}

#[test]
fn display_is_hex() {
    assert_eq!(IndexGroup::new(IndexGroup::SYMBOL_VALUE_BY_HANDLE).to_text(), "0xF005");
}

#[test]
fn index_group_text_pads_to_four_digits() {
    assert_eq!(IndexGroup::new(0x1).to_text(), "0x0001");
    assert_eq!(IndexGroup::new(0xAB).to_text(), "0x00AB");
    assert_eq!(IndexGroup::new(0x12345).to_text(), "0x12345");
}
