use tcads_core::AdsFileSeekOrigin;

#[test]
fn default_is_set() {
    assert_eq!(AdsFileSeekOrigin::default(), AdsFileSeekOrigin::Begin);
    assert_eq!(AdsFileSeekOrigin::default().as_u32(), 0);
}

#[test]
fn file_seek_origin_roundtrips_known_values() {
    for (raw, variant) in [
        (0u32, AdsFileSeekOrigin::Begin),
        (1, AdsFileSeekOrigin::Current),
        (2, AdsFileSeekOrigin::End),
    ] {
        assert_eq!(variant.as_u32(), raw);
    }
}
