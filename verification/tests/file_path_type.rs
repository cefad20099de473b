use tcads_core::AdsFilePathType;

#[test]
fn default_is_generic() {
    assert_eq!(AdsFilePathType::default(), AdsFilePathType::Generic);
    assert_eq!(AdsFilePathType::default().as_u16(), 1);
}

#[test]
fn file_path_type_roundtrips_known_values() {
    for (raw, variant) in [
        (1u16, AdsFilePathType::Generic),
        (2, AdsFilePathType::BootProject),
        (3, AdsFilePathType::BootData),
        (4, AdsFilePathType::BootPath),
    ] {
        assert_eq!(AdsFilePathType::from(raw), variant);
        assert_eq!(variant.as_u16(), raw);
    }
}

#[test]
fn unknown_value_roundtrips() {
    assert_eq!(AdsFilePathType::from(99), AdsFilePathType::Unknown(99));
    assert_eq!(AdsFilePathType::Unknown(99).as_u16(), 99);
}
