use tcads_core::symbol::SymbolHandle;

#[test]
fn test_symbol_handle_conversions() {
    let handle = SymbolHandle::new(0x1234_5678);
    assert_eq!(handle.as_u32(), 0x1234_5678);
    assert_eq!(handle.to_bytes(), [0x78, 0x56, 0x34, 0x12]);
    assert_eq!(SymbolHandle::from_bytes([0x78, 0x56, 0x34, 0x12]), handle);
    assert_eq!(SymbolHandle::from(0x1234_5678), handle);
    assert_eq!(SymbolHandle::from(handle), handle);
    assert_eq!(SymbolHandle::from([0x78, 0x56, 0x34, 0x12]), handle);
}

#[test]
fn symbol_handle_zero() {
    assert_eq!(SymbolHandle::zero().as_u32(), 0);
    assert_eq!(u32::from(SymbolHandle::new(7)), 7);
}
