use defuscrypt::{DataTheater, EncryptionLevel};

#[test]
fn basic_artifacts_match_table() {
    let mut t = DataTheater::new(String::from("/usr/bin/true"));
    let r = t.encrypt_with_drama(1, "secret", EncryptionLevel::Basic).unwrap();
    assert!(r.success);
    assert_eq!(r.theatrical_elements.len(), 2);
    assert_eq!(r.theatrical_elements[0].as_str(), "Applied ROT13 (just kidding)");
    assert_eq!(r.theatrical_elements[1].as_str(), "Added blockchain dust");
    assert_eq!(r.points_earned, 100);
    assert_eq!(r.encryption_time_ms, 100);
    assert_eq!(r.message.as_str(), "Data encrypted with Basic level security!");
    assert!(r.data_id.starts_with("GONGLE-1-"));
    assert_eq!(r.encrypted_data.len(), 32 + 12 + "secret".len() + 16);
}

#[test]
fn premium_artifacts_match_table() {
    let mut t = DataTheater::new(String::from("/usr/bin/true"));
    let r = t.encrypt_with_drama(2, "secret", EncryptionLevel::Premium).unwrap();
    assert_eq!(r.theatrical_elements.len(), 2);
    assert_eq!(r.theatrical_elements[0].as_str(), "Double-encrypted for safety");
    assert_eq!(r.theatrical_elements[1].as_str(), "Blessed by cyber-monks");
    assert_eq!(r.points_earned, 500);
    // The outer blob wraps the base64 form of the 66-byte inner blob:
    // 60 bytes of framing plus 88 base64 characters.
    assert_eq!(r.encrypted_data.len(), 60 + 88);
}

#[test]
fn paranoid_artifacts_match_table() {
    let mut t = DataTheater::new(String::from("/usr/bin/true"));
    let r = t.encrypt_with_drama(3, "secret", EncryptionLevel::Paranoid).unwrap();
    assert_eq!(r.theatrical_elements.len(), 3);
    assert_eq!(r.theatrical_elements[0].as_str(), "Wrapped in digital tin foil");
    assert_eq!(r.theatrical_elements[1].as_str(), "Hidden from government satellites");
    assert_eq!(r.theatrical_elements[2].as_str(), "5G-proof coating applied");
    assert_eq!(r.points_earned, 1000);
}

#[test]
fn tinfoil_artifacts_match_table() {
    let mut t = DataTheater::new(String::from("/usr/bin/true"));
    let r = t.encrypt_with_drama(4, "secret", EncryptionLevel::Tinfoil).unwrap();
    assert_eq!(r.theatrical_elements.len(), 3);
    assert_eq!(r.theatrical_elements[0].as_str(), "Compressed with anxiety");
    assert_eq!(r.theatrical_elements[1].as_str(), "Encrypted with conspiracy theories");
    assert_eq!(r.theatrical_elements[2].as_str(), "Chemtrail-resistant layer added");
    assert_eq!(r.points_earned, 2500);
    let text = String::from_utf8(r.encrypted_data).unwrap();
    assert!(text.starts_with("COMPRESSED["));
    assert!(text.ends_with("]DEFINITELY_SMALLER_NOW"));
}

#[test]
fn quantum_artifacts_match_table() {
    let mut t = DataTheater::new(String::from("/usr/bin/true"));
    let r = t.encrypt_with_drama(5, "secret", EncryptionLevel::Quantum).unwrap();
    assert_eq!(r.theatrical_elements.len(), 4);
    assert_eq!(r.theatrical_elements[0].as_str(), "Quantum entangled with parallel universe");
    assert_eq!(r.theatrical_elements[1].as_str(), "Schrodinger's encryption applied");
    assert_eq!(r.theatrical_elements[2].as_str(), "Observed by quantum cats");
    let last = r.theatrical_elements[3].as_str();
    assert!(
        last == "Data is encrypted AND decrypted!" || last == "Data collapsed into encrypted state"
    );
    assert_eq!(r.points_earned, 5000);
}

#[test]
fn alien_artifacts_match_table() {
    let mut t = DataTheater::new(String::from("/usr/bin/true"));
    let r = t.encrypt_with_drama(6, "secret", EncryptionLevel::Alien).unwrap();
    assert_eq!(r.theatrical_elements.len(), 3);
    assert_eq!(r.theatrical_elements[0].as_str(), "Applied Area 51 technology");
    assert_eq!(r.theatrical_elements[1].as_str(), "Translated to alien language");
    assert_eq!(r.theatrical_elements[2].as_str(), "UFO cloaking activated");
    assert_eq!(r.points_earned, 7500);
}

#[test]
fn eldritch_artifacts_match_table() {
    let mut t = DataTheater::new(String::from("/usr/bin/true"));
    let r = t.encrypt_with_drama(7, "secret", EncryptionLevel::Eldritch).unwrap();
    assert_eq!(r.theatrical_elements.len(), 2);
    assert_eq!(r.theatrical_elements[0].as_str(), "Cthulhu fhtagn");
    assert_eq!(r.theatrical_elements[1].as_str(), "Reality.exe has stopped responding");
    assert_eq!(r.points_earned, 66666);
    assert_eq!(r.encryption_time_ms, 6666);
}

#[test]
fn unknown_tag_routes_to_basic_composition() {
    let mut t = DataTheater::new(String::from("/usr/bin/true"));
    let level = EncryptionLevel::from_tag("xyz");
    let r = t.encrypt_with_drama(8, "secret", level).unwrap();
    assert_eq!(r.theatrical_elements.len(), 2);
    assert_eq!(r.points_earned, 100);
}

#[test]
fn achievement_granted_exactly_once_per_level() {
    let mut t = DataTheater::new(String::from("/usr/bin/true"));
    let first = t.encrypt_with_drama(9, "secret", EncryptionLevel::Basic).unwrap();
    assert_eq!(first.achievement_unlocked.as_deref(), Some("Baby's First Encryption!"));
    let second = t.encrypt_with_drama(9, "secret", EncryptionLevel::Basic).unwrap();
    assert!(second.achievement_unlocked.is_none());
}

#[test]
fn achievements_are_per_level() {
    let mut t = DataTheater::new(String::from("/usr/bin/true"));
    let basic = t.encrypt_with_drama(1, "x", EncryptionLevel::Basic).unwrap();
    assert!(basic.achievement_unlocked.is_some());
    let paranoid = t.encrypt_with_drama(1, "x", EncryptionLevel::Paranoid).unwrap();
    assert_eq!(paranoid.achievement_unlocked.as_deref(), Some("They're Watching!"));
}

#[test]
fn achievements_are_per_instance() {
    let mut t = DataTheater::new(String::from("/usr/bin/true"));
    let first = t.encrypt_with_drama(1, "x", EncryptionLevel::Basic).unwrap();
    assert!(first.achievement_unlocked.is_some());
    let mut fresh = DataTheater::new(String::from("/usr/bin/true"));
    let again = fresh.encrypt_with_drama(1, "x", EncryptionLevel::Basic).unwrap();
    assert_eq!(again.achievement_unlocked.as_deref(), Some("Baby's First Encryption!"));
}

#[test]
fn zalgo_keeps_every_character() {
    let t = DataTheater::new(String::from("/usr/bin/true"));
    let z = t.add_zalgo_text("abc");
    let plain: String = z.chars().filter(|c| c.is_ascii()).collect();
    assert_eq!(plain.as_str(), "abc");
    let n_marks = z.chars().filter(|c| !c.is_ascii()).count();
    assert!((3..=9).contains(&n_marks));
}

#[test]
fn paranoid_padding_draws_from_the_phrase_table() {
    let table = [
        "THE GOVERNMENT IS READING THIS",
        "BIRDS AREN'T REAL",
        "THEY'RE IN THE WALLS",
        "TRUST NO ONE",
        "THE MOON LANDING WAS STAGED ON MARS",
        "5G CAUSES RAIN",
        "ILLUMINATI CONFIRMED",
    ];
    let t = DataTheater::new(String::from("/usr/bin/true"));
    let pad = t.generate_paranoid_padding();
    let lines: Vec<&str> = pad.split('\n').collect();
    assert!((5..20).contains(&lines.len()));
    for line in lines {
        assert!(table.contains(&line));
    }
}

#[test]
fn compression_is_theatrical_only() {
    let t = DataTheater::new(String::from("/usr/bin/true"));
    let c = t.theatrical_compress("payload");
    assert_eq!(c.as_str(), "COMPRESSED[payload]DEFINITELY_SMALLER_NOW");
}
