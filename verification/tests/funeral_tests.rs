use defuscrypt::{DataTheater, FuneralType};

#[test]
fn viking_epitaph_interpolates_bytes_and_parameters() {
    let mut t = DataTheater::new(String::from("/usr/bin/true"));
    let ids = vec![String::from("a"), String::from("b"), String::from("c")];
    let s = t
        .schedule_funeral(
            1,
            ids,
            FuneralType::Viking { longboat_size: 50, burning_arrows: 100 },
        )
        .unwrap();
    assert!(s.epitaph.contains("3072"), "3 ids at 1024 bytes each");
    assert!(s.epitaph.contains("50"));
    assert!(s.epitaph.contains("100"));
    assert_eq!(
        s.epitaph.as_str(),
        "Here lies 3072 bytes of data. They sailed to digital Valhalla on a 50ft longboat, \
         pierced by 100 flaming arrows.",
    );
    assert_eq!(s.shred_passes, 35);
    assert_eq!(s.special_effects.len(), 4);
    assert_eq!(s.user_id, 1);
    assert_eq!(s.data_ids.len(), 3);
    assert!(s.ceremony_id.starts_with("FUNERAL-1-"));
}

#[test]
fn space_shred_passes_are_bounded() {
    let mut t = DataTheater::new(String::from("/usr/bin/true"));
    let s = t
        .schedule_funeral(
            2,
            vec![String::from("a")],
            FuneralType::Space { trajectory: String::from("sun"), escape_velocity_kms: 11 },
        )
        .unwrap();
    assert!((1..100).contains(&s.shred_passes));
    assert_eq!(
        s.epitaph.as_str(),
        "Launched into the sun at 11km/s. Ground Control to Major Data: your circuit's dead, \
         there's something wrong.",
    );
}

#[test]
fn quantum_shred_passes_collapse_to_two_values() {
    let mut t = DataTheater::new(String::from("/usr/bin/true"));
    let s = t
        .schedule_funeral(
            3,
            vec![String::from("a")],
            FuneralType::Quantum { superposition: true, observer_count: 7 },
        )
        .unwrap();
    assert!(s.shred_passes == 0 || s.shred_passes == 999);
    assert_eq!(
        s.epitaph.as_str(),
        "This data exists in a superposition of deleted and not deleted, observed by 7 \
         quantum scientists.",
    );
}

#[test]
fn eldritch_epitaph_interpolates_signed_sanity_cost() {
    let mut t = DataTheater::new(String::from("/usr/bin/true"));
    let s = t
        .schedule_funeral(
            4,
            vec![String::from("a"), String::from("b")],
            FuneralType::Eldritch { tentacles: 8, dimensions_breached: 3, sanity_cost: -666 },
        )
        .unwrap();
    assert_eq!(s.shred_passes, 666);
    assert_eq!(
        s.epitaph.as_str(),
        "Data consumed by 8 tentacles across 3 dimensions. Sanity cost: -666",
    );
}

#[test]
fn schedule_is_24_hours_after_creation() {
    let mut t = DataTheater::new(String::from("/usr/bin/true"));
    let s = t
        .schedule_funeral(
            5,
            vec![String::from("a")],
            FuneralType::Viking { longboat_size: 1, burning_arrows: 1 },
        )
        .unwrap();
    assert_eq!(s.scheduled_time_ms, s.created_at_ms + 86_400_000);
    assert!(s.livestream_url.starts_with("https://gongle.com/funerals/live/"));
}

#[test]
fn guest_list_is_three_to_six_distinct_guests() {
    let t = DataTheater::new(String::from("/usr/bin/true"));
    let guests = t.generate_funeral_guests();
    assert!((3..7).contains(&guests.len()));
    for i in 0..guests.len() {
        for j in (i + 1)..guests.len() {
            assert_ne!(guests[i], guests[j]);
        }
    }
}

#[test]
fn funeral_tag_fallback_is_viking_with_defaults() {
    let ft = FuneralType::from_tag("unknown ceremony");
    assert!(matches!(
        ft,
        FuneralType::Viking { longboat_size: 50, burning_arrows: 100 }
    ));
    let space = FuneralType::from_tag("SPACE");
    if let FuneralType::Space { trajectory, escape_velocity_kms } = space {
        assert_eq!(trajectory.as_str(), "the cosmos");
        assert_eq!(escape_velocity_kms, 11);
    } else {
        panic!("a space tag must select the space variant");
    }
    let quantum = FuneralType::from_tag("Quantum");
    assert!(matches!(quantum, FuneralType::Quantum { superposition: true, observer_count: 3 }));
    let eldritch = FuneralType::from_tag("eldritch");
    assert!(matches!(eldritch, FuneralType::Eldritch { .. }));
}
