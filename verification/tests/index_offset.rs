use tcads_core::IndexOffset;

#[test]
fn index_offset_roundtrip() {
    let io = IndexOffset::new(0x0001_F400);
    assert_eq!(io.as_u32(), 0x0001_F400);
    assert_eq!(IndexOffset::from_bytes(io.to_bytes()), io);
}

#[test]
fn default_is_zero() {
    assert_eq!(IndexOffset::default(), IndexOffset::new(IndexOffset::ZERO));
}

#[test]
fn index_offset_text_is_decimal() {
    assert_eq!(IndexOffset::new(0x0001_F400).to_text(), "128000");
    assert_eq!(IndexOffset::new(0).to_text(), "0");
}
