use tcads_core::WinRegistryValueType;

#[test]
fn test_registry_type_conversion() {
    assert_eq!(WinRegistryValueType::from(1), WinRegistryValueType::String);
    assert_eq!(WinRegistryValueType::from(11), WinRegistryValueType::QWord);
    assert_eq!(WinRegistryValueType::from(0xFF), WinRegistryValueType::Other(0xFF));
    assert_eq!(WinRegistryValueType::from(0), WinRegistryValueType::NoType);
}

#[test]
fn test_registry_type_from_u32() {
    assert_eq!(u32::from(WinRegistryValueType::String), 1);
    assert_eq!(u32::from(WinRegistryValueType::QWord), 11);
    assert_eq!(u32::from(WinRegistryValueType::Other(12345)), 12345);
}

#[test]
fn test_registry_type_ord() {
    assert!(WinRegistryValueType::String < WinRegistryValueType::DWord);
}

#[test]
fn test_registry_type_bytes() {
    assert_eq!(WinRegistryValueType::DWord.to_bytes(), [0x04, 0x00, 0x00, 0x00]);
}

#[test]
fn test_registry_type_from_bytes() {
    assert_eq!(WinRegistryValueType::from_bytes([0x04, 0x00, 0x00, 0x00]), WinRegistryValueType::DWord);
}

#[test]
fn test_registry_type_try_from_slice() {
    assert_eq!(
        WinRegistryValueType::try_from_slice(&[0x04, 0x00, 0x00, 0x00]).unwrap(),
        WinRegistryValueType::DWord
    );
}
