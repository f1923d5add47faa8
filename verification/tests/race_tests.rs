use defuscrypt::race::race_with_draws;
use defuscrypt::{encryption_race, RaceParticipant, TheaterError};

fn participant(name: &str, speed_milli: u64) -> RaceParticipant {
    RaceParticipant {
        name: String::from(name),
        encryption_speed_milli: speed_milli,
        vehicle: String::from("keyboard"),
        trash_talk: String::from("..."),
    }
}

#[test]
fn empty_field_is_invalid_input() {
    let r = encryption_race(Vec::new(), 1000);
    assert!(matches!(r, Err(TheaterError::InvalidInput)));
}

#[test]
fn sole_participant_always_wins() {
    let r = encryption_race(vec![participant("solo", 1500)], 4096).unwrap();
    assert_eq!(r.winner.as_str(), "solo");
    assert_eq!(r.results.len(), 1);
    assert_eq!(r.results[0].name.as_str(), "solo");
}

#[test]
fn results_are_sorted_ascending_by_time() {
    let field = vec![
        participant("a", 700),
        participant("b", 2500),
        participant("c", 1200),
        participant("d", 900),
    ];
    let r = encryption_race(field, 100_000).unwrap();
    assert_eq!(r.results.len(), 4);
    for w in r.results.windows(2) {
        assert!(w[0].time_ms <= w[1].time_ms);
    }
    assert_eq!(r.winner, r.results[0].name);
    assert_eq!(r.prize.as_str(), "A golden encryption key (decorative only)");
}

#[test]
fn fixed_draws_make_the_race_deterministic() {
    let mults = vec![1000, 800, 1199];
    let cries = vec![0, 1, 2];
    let run = |_: ()| {
        let field = vec![
            participant("slow", 500),
            participant("fast", 2000),
            participant("mid", 1000),
        ];
        race_with_draws(field, 1000, &mults, &cries).unwrap()
    };
    let r1 = run(());
    let r2 = run(());
    assert_eq!(r1.winner, r2.winner);
    assert_eq!(r1.results.len(), r2.results.len());
    for (a, b) in r1.results.iter().zip(r2.results.iter()) {
        assert_eq!(a.name, b.name);
        assert_eq!(a.time_ms, b.time_ms);
        assert_eq!(a.vehicle, b.vehicle);
        assert_eq!(a.victory_cry, b.victory_cry);
    }
}

#[test]
fn finish_time_follows_the_formula_exactly() {
    // speed 1.0, multiplier 1.0: time_ms = data_size / 1.0 * 1000.
    let r = race_with_draws(vec![participant("unit", 1000)], 1000, &vec![1000], &vec![5]).unwrap();
    assert_eq!(r.results[0].time_ms, 1_000_000);
    assert_eq!(r.results[0].victory_cry.as_str(), "I AM THE KEY MASTER!");
    // A participant with no effective speed never finishes.
    let stuck = race_with_draws(vec![participant("stuck", 0)], 1000, &vec![1000], &vec![0]).unwrap();
    assert_eq!(stuck.results[0].time_ms, u64::MAX);
}

#[test]
fn ties_keep_input_order() {
    let field = vec![
        participant("first", 1000),
        participant("second", 1000),
        participant("third", 1000),
    ];
    let r = race_with_draws(field, 1000, &vec![900, 900, 900], &vec![0, 0, 0]).unwrap();
    assert_eq!(r.results[0].name.as_str(), "first");
    assert_eq!(r.results[1].name.as_str(), "second");
    assert_eq!(r.results[2].name.as_str(), "third");
}

#[test]
fn victory_cry_comes_from_the_fixed_table() {
    let table = [
        "ENCRYPTED TO THE MOON!",
        "EAT MY CIPHER DUST!",
        "CHACHA20 GO BRRRRR!",
        "WITNESS MY ENTROPY!",
        "QUANTUM SUPREMACY ACHIEVED!",
        "I AM THE KEY MASTER!",
    ];
    let cry = defuscrypt::race::generate_victory_cry();
    assert!(table.contains(&cry.as_str()));
}
