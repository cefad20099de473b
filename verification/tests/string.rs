use tcads_core::{AdsString, AdsStringError};

#[test]
fn test_encoding_roundtrip() {
    // "€" is 0x80 in CP1252, but 3 bytes in UTF-8
    let input = "Cost: 5€";
    let s: AdsString<20> = AdsString::try_from(input).expect("Should fit");
    assert_eq!(s.as_str(), input);
    // the storage is CP1252 (0x80), not UTF-8
    let bytes = s.as_bytes_until_nul();
    assert!(bytes.contains(&0x80));
}

#[test]
fn test_length_limit() {
    // AdsString<5> holds 4 characters and a NUL
    let s: Result<AdsString<5>, _> = AdsString::try_from("1234");
    assert!(s.is_ok());
    let s: Result<AdsString<5>, _> = AdsString::try_from("12345");
    assert!(matches!(s, Err(AdsStringError::TooLong { .. })));
}

#[test]
fn test_push_and_capacity() {
    let mut s: AdsString<10> = AdsString::new(); // at most 9 characters
    s.push_str("Hello").unwrap();
    assert_eq!(s.len(), 5);
    assert_eq!(s.as_str(), "Hello");
    s.push('!').unwrap();
    assert_eq!(s.as_str(), "Hello!");
    // 6 + 4 = 10 bytes, one too many with the NUL
    let err = s.push_str("1234");
    assert!(err.is_err());
}

#[test]
fn test_indexing() {
    let mut s: AdsString<10> = AdsString::try_from("ABC").unwrap();
    assert_eq!(*s.index(0), 65); // 'A'
    *s.index_mut(0) = 66; // 'B'
    assert_eq!(s.as_str(), "BBC");
}

#[test]
fn test_format_macro() {
    let mut s: AdsString<20> = AdsString::new();
    s.push_str(&format!("Val: {}", 42)).unwrap();
    assert_eq!(s.as_str(), "Val: 42");
}

#[test]
fn test_iteration() {
    let s: AdsString<10> = AdsString::try_from("Hi").unwrap();
    let bytes: Vec<u8> = s.bytes().cloned().collect();
    assert_eq!(bytes, vec![b'H', b'i']);
}

#[test]
fn string_truncate_clear_and_capacity() {
    let mut s: AdsString<10> = AdsString::try_from_str("Hello").unwrap();
    assert_eq!(s.capacity(), 10);
    s.truncate(2);
    assert_eq!(s.as_str(), "He");
    s.truncate(5);
    assert_eq!(s.as_str(), "He");
    s.clear();
    assert!(s.is_empty());
    assert_eq!(s.as_str(), "");
}

#[test]
fn string_rejects_unencodable_text() {
    let r: Result<AdsString<10>, _> = AdsString::try_from_str("日本");
    assert!(matches!(r, Err(AdsStringError::EncodingError)));
}

#[test]
fn string_from_array_reads_until_nul() {
    let s = AdsString::<6>::from_array([b'a', b'b', 0, b'x', 0, 0]);
    assert_eq!(s.len(), 2);
    assert_eq!(s.as_str(), "ab");
    assert_eq!(s.as_bytes().len(), 6);
}

#[test]
fn string_try_from_too_long_reports_lengths() {
    let s: Result<AdsString<5>, _> = AdsString::try_from("12345");
    assert!(matches!(s, Err(AdsStringError::TooLong { expected: 4, got: 5 })));
    let ok: Result<AdsString<5>, _> = AdsString::try_from("1234");
    assert!(ok.is_ok());
}
