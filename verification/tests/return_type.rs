use tcads_core::symbol::{AdsDataTypeId, AdsMethodReturnTypeInfo, Guid};

#[test]
fn test_ads_method_return_type_info_new() {
    let guid: Guid = "12345678-9abc-def0-1234-56789abcdef0".parse().unwrap();
    let info = AdsMethodReturnTypeInfo::new(10, 20, AdsDataTypeId::Int32, guid.clone(), "MyType");
    assert_eq!(info.size(), 10);
    assert_eq!(info.align_size(), 20);
    assert_eq!(info.type_id(), AdsDataTypeId::Int32);
    assert_eq!(*info.guid(), guid);
    assert_eq!(info.name(), "MyType");
}
