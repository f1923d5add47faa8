use defuscrypt::EncryptionLevel;

#[test]
fn tag_lookup_is_case_insensitive() {
    assert!(matches!(EncryptionLevel::from_tag("premium"), EncryptionLevel::Premium));
    assert!(matches!(EncryptionLevel::from_tag("PREMIUM"), EncryptionLevel::Premium));
    assert!(matches!(EncryptionLevel::from_tag("Paranoid"), EncryptionLevel::Paranoid));
    assert!(matches!(EncryptionLevel::from_tag("tinFOIL"), EncryptionLevel::Tinfoil));
    assert!(matches!(EncryptionLevel::from_tag("Quantum"), EncryptionLevel::Quantum));
    assert!(matches!(EncryptionLevel::from_tag("alien"), EncryptionLevel::Alien));
    assert!(matches!(EncryptionLevel::from_tag("ELDRITCH"), EncryptionLevel::Eldritch));
    assert!(matches!(EncryptionLevel::from_tag("basic"), EncryptionLevel::Basic));
}

#[test]
fn unknown_tag_falls_back_to_basic() {
    assert!(matches!(EncryptionLevel::from_tag("xyz"), EncryptionLevel::Basic));
    assert!(matches!(EncryptionLevel::from_tag(""), EncryptionLevel::Basic));
    assert!(matches!(EncryptionLevel::from_tag("rot13"), EncryptionLevel::Basic));
}

#[test]
fn point_table_is_fixed() {
    assert_eq!(EncryptionLevel::Basic.points(), 100);
    assert_eq!(EncryptionLevel::Premium.points(), 500);
    assert_eq!(EncryptionLevel::Paranoid.points(), 1000);
    assert_eq!(EncryptionLevel::Tinfoil.points(), 2500);
    assert_eq!(EncryptionLevel::Quantum.points(), 5000);
    assert_eq!(EncryptionLevel::Alien.points(), 7500);
    assert_eq!(EncryptionLevel::Eldritch.points(), 66666);
}

#[test]
fn delay_table_is_fixed() {
    assert_eq!(EncryptionLevel::Basic.base_delay_ms(), 100);
    assert_eq!(EncryptionLevel::Premium.base_delay_ms(), 500);
    assert_eq!(EncryptionLevel::Paranoid.base_delay_ms(), 1000);
    assert_eq!(EncryptionLevel::Tinfoil.base_delay_ms(), 2000);
    assert_eq!(EncryptionLevel::Quantum.base_delay_ms(), 3000);
    assert_eq!(EncryptionLevel::Alien.base_delay_ms(), 4000);
    assert_eq!(EncryptionLevel::Eldritch.base_delay_ms(), 6666);
}

#[test]
fn delay_scales_with_drama_percent() {
    assert_eq!(EncryptionLevel::Basic.delay_ms(100), 100);
    assert_eq!(EncryptionLevel::Basic.delay_ms(250), 250);
    assert_eq!(EncryptionLevel::Eldritch.delay_ms(50), 3333);
    assert_eq!(EncryptionLevel::Quantum.delay_ms(0), 0);
}

#[test]
fn password_suffixes_are_fixed() {
    assert_eq!(EncryptionLevel::Basic.password_suffix(), "_password123");
    assert_eq!(EncryptionLevel::Eldritch.password_suffix(), "_ph_nglui_mglw_nafh");
}
