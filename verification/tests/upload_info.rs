use tcads_core::symbol::{AdsSymbolUploadInfo, AdsSymbolUploadInfoV1, AdsSymbolUploadInfoV2, AdsSymbolUploadInfoV3};
use tcads_core::AdsSymbolUploadInfoError;

fn real_v1_bytes() -> [u8; AdsSymbolUploadInfoV1::LENGTH] {
    [
        0x91, 0x00, 0x00, 0x00, // symbol_count        = 145
        0x60, 0x3d, 0x00, 0x00, // symbol_byte_size    = 15712
    ]
}

fn real_v2_bytes() -> [u8; AdsSymbolUploadInfoV2::LENGTH] {
    [
        0x91, 0x00, 0x00, 0x00, // symbol_count        = 145
        0x60, 0x3d, 0x00, 0x00, // symbol_byte_size    = 15712
        0x39, 0x00, 0x00, 0x00, // data_type_count     = 57
        0x20, 0x2c, 0x00, 0x00, // data_type_blob_size = 11296
        0xd0, 0x07, 0x00, 0x00, // dyn_symbol_capacity = 2000
        0x00, 0x00, 0x00, 0x00, // dyn_symbol_count    = 0
    ]
}

fn real_v3_bytes() -> [u8; AdsSymbolUploadInfoV3::LENGTH] {
    [
        0x91, 0x00, 0x00, 0x00, // symbol_count             = 145
        0x60, 0x3d, 0x00, 0x00, // symbol_byte_size         = 15712
        0x39, 0x00, 0x00, 0x00, // data_type_count          = 57
        0x20, 0x2c, 0x00, 0x00, // data_type_blob_size      = 11296
        0xd0, 0x07, 0x00, 0x00, // dyn_symbol_capacity      = 2000
        0x00, 0x00, 0x00, 0x00, // dyn_symbol_count         = 0
        0x00, 0x00, 0x00, 0x00, // invalid_dyn_symbol_count = 0
        0xe4, 0x04, 0x00, 0x00, // encoding_code_page       = 1252
        0x03, 0x00, 0x00, 0x00, // flags                    = 0x03
        0x00, 0x00, 0x00, 0x00, // reserved
        0x00, 0x00, 0x00, 0x00, // reserved
        0x00, 0x00, 0x00, 0x00, // reserved
        0x00, 0x00, 0x00, 0x00, // reserved
        0x00, 0x00, 0x00, 0x00, // reserved
        0x00, 0x00, 0x00, 0x00, // reserved
        0x00, 0x00, 0x00, 0x00, // reserved
    ]
}

#[test]
fn parses_v1() {
    let info = AdsSymbolUploadInfo::try_from_slice(real_v1_bytes().as_ref()).unwrap();
    let AdsSymbolUploadInfo::V1(v1) = &info else { panic!("expected V1") };
    assert_eq!(v1.symbol_count(), 145);
    assert_eq!(v1.symbol_blob_size(), 15712);
}

#[test]
fn parses_v2() {
    let info = AdsSymbolUploadInfo::try_from_slice(real_v2_bytes().as_ref()).unwrap();
    let AdsSymbolUploadInfo::V2(v2) = &info else { panic!("expected V2") };
    assert_eq!(v2.symbol_count(), 145);
    assert_eq!(v2.symbol_blob_size(), 15712);
    assert_eq!(v2.data_type_count(), 57);
    assert_eq!(v2.data_type_blob_size(), 11296);
    assert_eq!(v2.dyn_symbol_capacity(), 2000);
    assert_eq!(v2.dyn_symbol_count(), 0);
}

#[test]
fn parses_v3() {
    let info = AdsSymbolUploadInfo::try_from_slice(real_v3_bytes().as_ref()).unwrap();
    let AdsSymbolUploadInfo::V3(v3) = &info else { panic!("expected V3") };
    assert_eq!(v3.symbol_count(), 145);
    assert_eq!(v3.symbol_blob_size(), 15712);
    assert_eq!(v3.data_type_count(), 57);
    assert_eq!(v3.data_type_blob_size(), 11296);
    assert_eq!(v3.dyn_symbol_capacity(), 2000);
    assert_eq!(v3.dyn_symbol_count(), 0);
    assert_eq!(v3.invalid_dyn_symbol_count(), 0);
    assert_eq!(v3.encoding_code_page(), 1252);
}

#[test]
fn roundtrip_v1() {
    let original = AdsSymbolUploadInfo::try_from_slice(real_v1_bytes().as_ref()).unwrap();
    let bytes = original.to_vec();
    assert_eq!(bytes.len(), AdsSymbolUploadInfoV1::LENGTH);
    let parsed = AdsSymbolUploadInfo::try_from_slice(bytes.as_slice()).unwrap();
    assert_eq!(original, parsed);
}

#[test]
fn roundtrip_v2() {
    let original = AdsSymbolUploadInfo::try_from_slice(real_v2_bytes().as_ref()).unwrap();
    let bytes = original.to_vec();
    assert_eq!(bytes.len(), AdsSymbolUploadInfoV2::LENGTH);
    let parsed = AdsSymbolUploadInfo::try_from_slice(bytes.as_slice()).unwrap();
    assert_eq!(original, parsed);
}

#[test]
fn roundtrip_v3() {
    let original = AdsSymbolUploadInfo::try_from_slice(real_v3_bytes().as_ref()).unwrap();
    let bytes = original.to_vec();
    assert_eq!(bytes.len(), AdsSymbolUploadInfoV3::LENGTH);
    let parsed = AdsSymbolUploadInfo::try_from_slice(bytes.as_slice()).unwrap();
    assert_eq!(original, parsed);
}

#[test]
fn shared_accessors_work_across_variants() {
    let v1 = AdsSymbolUploadInfo::try_from_slice(real_v1_bytes().as_ref()).unwrap();
    let v2 = AdsSymbolUploadInfo::try_from_slice(real_v2_bytes().as_ref()).unwrap();
    let v3 = AdsSymbolUploadInfo::try_from_slice(real_v3_bytes().as_ref()).unwrap();
    assert_eq!(v1.symbol_count(), 145);
    assert_eq!(v2.symbol_count(), 145);
    assert_eq!(v1.symbol_blob_size(), 15712);
    assert_eq!(v2.symbol_blob_size(), 15712);
    assert_eq!(v3.symbol_count(), 145);
    assert_eq!(v3.symbol_blob_size(), 15712);
}

#[test]
fn upload_info_too_short_returns_err() {
    let err = AdsSymbolUploadInfo::try_from_slice(&[0u8; 1]).unwrap_err();
    assert!(matches!(err, AdsSymbolUploadInfoError::TooShort { expected: 8, got: 1 }));
}

#[test]
fn empty_returns_err() {
    assert!(AdsSymbolUploadInfo::try_from_slice(&[]).is_err());
}

#[test]
fn upload_info_optional_accessors() {
    let v1 = AdsSymbolUploadInfo::try_from_slice(real_v1_bytes().as_ref()).unwrap();
    let v3 = AdsSymbolUploadInfo::try_from_slice(real_v3_bytes().as_ref()).unwrap();
    assert_eq!(v1.data_type_count(), None);
    assert_eq!(v3.data_type_count(), Some(57));
    assert_eq!(v3.encoding_code_page(), Some(1252));
    assert_eq!(v3.flags().map(|f| f.as_raw()), Some(3));
    assert_eq!(v1.wire_size(), 8);
    assert_eq!(v3.wire_size(), 64);
}

#[test]
fn upload_info_longer_than_v3_reads_first_64_bytes() {
    let mut data = real_v3_bytes().to_vec();
    data.push(0xFF);
    let info = AdsSymbolUploadInfo::try_from_slice(&data).unwrap();
    let expected = AdsSymbolUploadInfo::try_from_slice(real_v3_bytes().as_ref()).unwrap();
    assert_eq!(info, expected);
    assert_eq!(info.wire_size(), 64);
    let zeros = [0u8; 65];
    assert!(matches!(AdsSymbolUploadInfo::try_from_slice(&zeros), Ok(AdsSymbolUploadInfo::V3(_))));
}
