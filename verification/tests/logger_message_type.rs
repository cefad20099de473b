use tcads_core::LogMessageType;

#[test]
fn parses_multiple_flags() {
    let flags = LogMessageType::new(0x00001006); // ERROR | WARNING | UTF8
    assert!(flags.is_error());
    assert!(flags.is_warning());
    assert!(flags.is_utf8());
    assert!(!flags.is_hint());
}

#[test]
fn logger_message_type_roundtrip_bytes() {
    let flags = LogMessageType::new(LogMessageType::WARNING) | LogMessageType::new(LogMessageType::LOG)
        | LogMessageType::new(LogMessageType::UTF8);
    assert_eq!(LogMessageType::from_bytes(flags.to_bytes()), flags);
}

#[test]
fn logger_message_type_text() {
    assert_eq!(LogMessageType::new(0x00001006).to_text(), "WARNING | ERROR | UTF8");
    assert_eq!(LogMessageType::new(0).to_text(), "None");
}
