//! The contest simulator: every participant gets a finish time from their
//! speed factor and a bounded random multiplier, and the field is ranked
//! ascending by finish time, ties keeping input order.

use vstd::prelude::*;
use vstd::string::*;
use crate::errors::TheaterError;
use crate::outside::rand_range_u64;

verus! {

/// Encryption race participant.  The speed factor is carried in
/// thousandths (a factor of 1.5 is 1500).
pub struct RaceParticipant {
    pub name: String,
    pub encryption_speed_milli: u64,
    pub vehicle: String,
    pub trash_talk: String,
}

/// One ranked finisher.
pub struct RaceResult {
    pub name: String,
    pub time_ms: u64,
    pub vehicle: String,
    pub victory_cry: String,
}

/// The ranked field: ascending by finish time, the winner first.
pub struct RaceResults {
    pub winner: String,
    pub results: Vec<RaceResult>,
    pub prize: String,
}

/// The victory phrase table, by index.
pub open spec fn spec_victory_cry(i: int) -> Seq<char> {
    if i == 0 {
        "ENCRYPTED TO THE MOON!"@
    } else if i == 1 {
        "EAT MY CIPHER DUST!"@
    } else if i == 2 {
        "CHACHA20 GO BRRRRR!"@
    } else if i == 3 {
        "WITNESS MY ENTROPY!"@
    } else if i == 4 {
        "QUANTUM SUPREMACY ACHIEVED!"@
    } else {
        "I AM THE KEY MASTER!"@
    }
}

/// Finish time in milliseconds for a payload of `data_size` bytes at the
/// given speed factor and multiplier, both in thousandths: the payload
/// divided by the effective performance, scaled to milliseconds, saturated
/// at the integer limits (a participant of no effective speed never
/// finishes).
pub open spec fn spec_time_ms(data_size: nat, speed_milli: nat, mult_milli: nat) -> int {
    if speed_milli * mult_milli == 0 {
        u64::MAX as int
    } else if data_size * 1_000_000_000 / (speed_milli * mult_milli) > u64::MAX as int {
        u64::MAX as int
    } else {
        (data_size * 1_000_000_000 / (speed_milli * mult_milli)) as int
    }
}

/// Whether result row `e` is the computed entry of participant `j`: the
/// participant's name and vehicle, the finish time from the participant's
/// speed and the multiplier drawn for `j`, and the victory phrase drawn
/// for `j`.
pub open spec fn entry_matches(
    ps: Seq<RaceParticipant>,
    data_size: nat,
    mults: Seq<u64>,
    cries: Seq<u64>,
    e: RaceResult,
    j: int,
) -> bool {
    &&& e.name == ps[j].name
    &&& e.time_ms as int == spec_time_ms(
        data_size,
        ps[j].encryption_speed_milli as nat,
        mults[j] as nat,
    )
    &&& e.vehicle == ps[j].vehicle
    &&& e.victory_cry@ == spec_victory_cry(cries[j] as int)
}

/// Whether the ranked field `rr` is exactly the race outcome for the
/// participants and the given draws, witnessed by the permutation `perm`
/// (`perm[k]` is the original index of row `k`): every row is the
/// computed entry of its participant, the field is sorted ascending by
/// finish time, ties keep input order, the winner is the first row, and
/// the prize is the fixed consolation.
pub open spec fn race_ok_via(
    perm: Seq<int>,
    ps: Seq<RaceParticipant>,
    data_size: nat,
    mults: Seq<u64>,
    cries: Seq<u64>,
    rr: RaceResults,
) -> bool {
    &&& perm.len() == ps.len()
    &&& rr.results@.len() == ps.len()
    &&& ps.len() > 0
    &&& forall|k: int| 0 <= k < perm.len() ==> 0 <= #[trigger] perm[k] < ps.len()
    &&& forall|a: int, b: int| 0 <= a < b < perm.len() ==> perm[a] != perm[b]
    &&& forall|k: int|
        0 <= k < perm.len() ==> entry_matches(
            ps,
            data_size,
            mults,
            cries,
            rr.results@[k],
            #[trigger] perm[k],
        )
    &&& forall|a: int, b: int|
        0 <= a < b < rr.results@.len() ==> #[trigger] rr.results@[a].time_ms
            <= #[trigger] rr.results@[b].time_ms
    &&& forall|a: int, b: int|
        0 <= a < b < perm.len() && rr.results@[a].time_ms == rr.results@[b].time_ms
            ==> #[trigger] perm[a] < #[trigger] perm[b]
    &&& rr.winner == rr.results@[0].name
    &&& rr.prize@ == "A golden encryption key (decorative only)"@
}

/// Whether `rr` is a race outcome for the participants and draws, for
/// some witnessing permutation.
pub open spec fn race_ok(
    ps: Seq<RaceParticipant>,
    data_size: nat,
    mults: Seq<u64>,
    cries: Seq<u64>,
    rr: RaceResults,
) -> bool {
    exists|perm: Seq<int>| #[trigger] race_ok_via(perm, ps, data_size, mults, cries, rr)
}

/// The victory phrase by index.
fn victory_cry_str(i: u64) -> (r: &'static str)
    requires
        i < 6,
    ensures
        r@ == spec_victory_cry(i as int),
{
    if i == 0 {
        "ENCRYPTED TO THE MOON!"
    } else if i == 1 {
        "EAT MY CIPHER DUST!"
    } else if i == 2 {
        "CHACHA20 GO BRRRRR!"
    } else if i == 3 {
        "WITNESS MY ENTROPY!"
    } else if i == 4 {
        "QUANTUM SUPREMACY ACHIEVED!"
    } else {
        "I AM THE KEY MASTER!"
    }
}

/// A victory phrase drawn uniformly from the fixed table.
pub fn generate_victory_cry() -> (r: String)
    ensures
        exists|i: int| 0 <= i < 6 && r@ == spec_victory_cry(i),
{
    let i = rand_range_u64(0, 6);
    let s = victory_cry_str(i);
    proof {
        assert((i as int) < 6 && s@ == spec_victory_cry(i as int));
    }
    s.to_owned()
}

/// The finish time for a payload, speed factor and multiplier, computed
/// exactly as `spec_time_ms` states.
fn compute_time_ms(data_size: usize, speed_milli: u64, mult_milli: u64) -> (t: u64)
    ensures
        t as int == spec_time_ms(data_size as nat, speed_milli as nat, mult_milli as nat),
{
    proof {
        assert((speed_milli as nat) * (mult_milli as nat) <= (u64::MAX as nat) * (
        u64::MAX as nat)) by (nonlinear_arith)
            requires
                speed_milli <= u64::MAX,
                mult_milli <= u64::MAX,
        ;
        assert((data_size as nat) * 1_000_000_000 <= (u64::MAX as nat) * 1_000_000_000)
            by (nonlinear_arith)
            requires
                data_size <= u64::MAX,
        ;
    }
    let denom: u128 = (speed_milli as u128) * (mult_milli as u128);
    if denom == 0 {
        return u64::MAX;
    }
    let num: u128 = (data_size as u128) * 1_000_000_000u128;
    let q: u128 = num / denom;
    if q > u64::MAX as u128 {
        u64::MAX
    } else {
        q as u64
    }
}

/// Runs the race for draws fixed in advance: `mults[j]` is participant
/// `j`'s performance multiplier in thousandths and `cries[j]` picks the
/// victory phrase.  Deterministic in its arguments: the outcome is the
/// stable ascending ranking of the computed entries.  An empty field is
/// refused with `InvalidInputError`, and only then.
pub fn race_with_draws(
    participants: Vec<RaceParticipant>,
    data_size: usize,
    mults: &Vec<u64>,
    cries: &Vec<u64>,
) -> (r: Result<RaceResults, TheaterError>)
    requires
        mults@.len() == participants@.len(),
        cries@.len() == participants@.len(),
        forall|i: int| 0 <= i < cries@.len() ==> #[trigger] cries@[i] < 6,
    ensures
        participants@.len() == 0 <==> r is Err,
        r matches Err(e) ==> e == TheaterError::InvalidInput,
        r matches Ok(rr) ==> race_ok(participants@, data_size as nat, mults@, cries@, rr),
{
    let n = participants.len();
    if n == 0 {
        return Err(TheaterError::InvalidInput);
    }
    let ghost orig = participants@;
    let mut parts = participants;
    let mut results: Vec<RaceResult> = Vec::new();
    let ghost mut perm: Seq<int> = Seq::empty();
    let mut i: usize = 0;
    while i < n
        invariant
            i <= n,
            n == orig.len(),
            parts@ == orig.subrange(i as int, n as int),
            mults@.len() == n,
            cries@.len() == n,
            forall|k: int| 0 <= k < n ==> #[trigger] cries@[k] < 6,
            results@.len() == i,
            perm.len() == i,
            forall|k: int| 0 <= k < i ==> #[trigger] perm[k] == k,
            forall|k: int|
                0 <= k < i ==> entry_matches(
                    orig,
                    data_size as nat,
                    mults@,
                    cries@,
                    results@[k],
                    #[trigger] perm[k],
                ),
        decreases n - i,
    {
        proof {
            assert(parts@[0] == orig[i as int]);
        }
        let p = parts.remove(0);
        proof {
            assert(parts@ =~= orig.subrange((i + 1) as int, n as int));
        }
        let t = compute_time_ms(data_size, p.encryption_speed_milli, mults[i]);
        let cry = victory_cry_str(cries[i]).to_owned();
        results.push(
            RaceResult { name: p.name, time_ms: t, vehicle: p.vehicle, victory_cry: cry },
        );
        proof {
            perm = perm.push(i as int);
        }
        i += 1;
    }
    let mut sorted_up_to: usize = 1;
    while sorted_up_to < n
        invariant
            1 <= sorted_up_to <= n,
            n == orig.len(),
            results@.len() == n,
            perm.len() == n,
            forall|k: int| 0 <= k < n ==> 0 <= #[trigger] perm[k] < n,
            forall|a: int, b: int| 0 <= a < b < n ==> perm[a] != perm[b],
            forall|k: int|
                0 <= k < n ==> entry_matches(
                    orig,
                    data_size as nat,
                    mults@,
                    cries@,
                    results@[k],
                    #[trigger] perm[k],
                ),
            forall|a: int, b: int|
                0 <= a < b < sorted_up_to ==> #[trigger] results@[a].time_ms
                    <= #[trigger] results@[b].time_ms,
            forall|a: int, b: int|
                0 <= a < b < n && results@[a].time_ms == results@[b].time_ms ==> #[trigger] perm[a]
                    < #[trigger] perm[b],
        decreases n - sorted_up_to,
    {
        let mut j: usize = sorted_up_to;
        while j > 0 && results[j - 1].time_ms > results[j].time_ms
            invariant
                0 <= j <= sorted_up_to < n,
                n == orig.len(),
                results@.len() == n,
                perm.len() == n,
                forall|k: int| 0 <= k < n ==> 0 <= #[trigger] perm[k] < n,
                forall|a: int, b: int| 0 <= a < b < n ==> perm[a] != perm[b],
                forall|k: int|
                    0 <= k < n ==> entry_matches(
                        orig,
                        data_size as nat,
                        mults@,
                        cries@,
                        results@[k],
                        #[trigger] perm[k],
                    ),
                forall|a: int, b: int|
                    0 <= a < b <= sorted_up_to && a != j && b != j ==> #[trigger] results@[a].time_ms
                        <= #[trigger] results@[b].time_ms,
                forall|a: int|
                    j < a <= sorted_up_to ==> results@[j as int].time_ms
                        <= #[trigger] results@[a].time_ms,
                forall|a: int, b: int|
                    0 <= a < b < n && results@[a].time_ms == results@[b].time_ms
                        ==> #[trigger] perm[a] < #[trigger] perm[b],
            decreases j,
        {
            let ghost pre = results@;
            let ghost pre_perm = perm;
            let moved = results.remove(j - 1);
            results.insert(j, moved);
            proof {
                assert(results@ =~= pre.update(j - 1, pre[j as int]).update(j as int, pre[
                    j - 1
                ]));
                perm = perm.update(j - 1, pre_perm[j as int]).update(
                    j as int,
                    pre_perm[j - 1],
                );
            }
            j -= 1;
        }
        sorted_up_to += 1;
    }
    let winner = results[0].name.clone();
    let prize = String::from_str("A golden encryption key (decorative only)");
    let rr = RaceResults { winner, results, prize };
    proof {
        assert(race_ok_via(perm, orig, data_size as nat, mults@, cries@, rr));
    }
    Ok(rr)
}

/// Runs an encryption race: each participant draws a performance
/// multiplier uniform in [0.8, 1.2) (in thousandths: [800, 1200)) and a
/// victory phrase, and the field is ranked by `race_with_draws`.  An
/// empty field is refused with `InvalidInputError`, and only then.
pub fn encryption_race(participants: Vec<RaceParticipant>, data_size: usize) -> (r: Result<
    RaceResults,
    TheaterError,
>)
    ensures
        participants@.len() == 0 <==> r is Err,
        r matches Err(e) ==> e == TheaterError::InvalidInput,
        r matches Ok(rr) ==> exists|mults: Seq<u64>, cries: Seq<u64>|
            {
                &&& mults.len() == participants@.len()
                &&& cries.len() == participants@.len()
                &&& forall|i: int| 0 <= i < mults.len() ==> 800 <= #[trigger] mults[i] < 1200
                &&& forall|i: int| 0 <= i < cries.len() ==> #[trigger] cries[i] < 6
                &&& race_ok(participants@, data_size as nat, mults, cries, rr)
            },
{
    let ghost ps = participants@;
    let n = participants.len();
    let mut mults: Vec<u64> = Vec::new();
    let mut cries: Vec<u64> = Vec::new();
    let mut i: usize = 0;
    while i < n
        invariant
            i <= n,
            mults@.len() == i,
            cries@.len() == i,
            forall|k: int| 0 <= k < i ==> 800 <= #[trigger] mults@[k] < 1200,
            forall|k: int| 0 <= k < i ==> #[trigger] cries@[k] < 6,
        decreases n - i,
    {
        mults.push(rand_range_u64(800, 1200));
        cries.push(rand_range_u64(0, 6));
        i += 1;
    }
    let r = race_with_draws(participants, data_size, &mults, &cries);
    proof {
        if r is Ok {
            assert(race_ok(ps, data_size as nat, mults@, cries@, r->Ok_0));
        }
    }
    r
}

/// The finish time computed for participant `j` of the field.
pub open spec fn spec_entry_time(
    ps: Seq<RaceParticipant>,
    data_size: nat,
    mults: Seq<u64>,
    j: int,
) -> int {
    spec_time_ms(data_size, ps[j].encryption_speed_milli as nat, mults[j] as nat)
}

/// Participant `i` stands strictly before participant `j` in the stable
/// ranking: an earlier finish time, or the same time and an earlier input
/// position.
pub open spec fn lex_before(
    ps: Seq<RaceParticipant>,
    data_size: nat,
    mults: Seq<u64>,
    i: int,
    j: int,
) -> bool {
    ||| spec_entry_time(ps, data_size, mults, i) < spec_entry_time(ps, data_size, mults, j)
    ||| (spec_entry_time(ps, data_size, mults, i) == spec_entry_time(ps, data_size, mults, j) && i
        < j)
}

/// An injective sequence of `n` values drawn from `[0, n)` hits every
/// value of `[0, n)`.
proof fn lemma_perm_onto(p: Seq<int>, n: int)
    requires
        p.len() == n,
        forall|i: int| 0 <= i < n ==> 0 <= #[trigger] p[i] < n,
        forall|a: int, b: int| 0 <= a < b < n ==> p[a] != p[b],
    ensures
        forall|v: int| 0 <= v < n ==> #[trigger] p.contains(v),
{
    broadcast use vstd::seq_lib::seq_to_set_is_finite;

    assert(p.no_duplicates());
    p.unique_seq_to_set();
    vstd::set_lib::lemma_int_range(0, n);
    assert(p.to_set().subset_of(vstd::set_lib::set_int_range(0, n))) by {
        assert forall|v: int| p.to_set().contains(v) implies vstd::set_lib::set_int_range(
            0,
            n,
        ).contains(v) by {
            let i = choose|i: int| 0 <= i < p.len() && p[i] == v;
            assert(0 <= p[i] < n);
        };
    }
    vstd::set_lib::lemma_subset_equality(p.to_set(), vstd::set_lib::set_int_range(0, n));
    assert forall|v: int| 0 <= v < n implies #[trigger] p.contains(v) by {
        assert(vstd::set_lib::set_int_range(0, n).contains(v));
        assert(p.to_set().contains(v));
    };
}

/// Two injective enumerations of `[0, n)` that both strictly ascend in
/// the stable order agree on their first `k` positions.
proof fn lemma_stable_rank_unique(
    ps: Seq<RaceParticipant>,
    data_size: nat,
    mults: Seq<u64>,
    p1: Seq<int>,
    p2: Seq<int>,
    k: int,
)
    requires
        p1.len() == ps.len(),
        p2.len() == ps.len(),
        forall|i: int| 0 <= i < p1.len() ==> 0 <= #[trigger] p1[i] < p1.len(),
        forall|i: int| 0 <= i < p2.len() ==> 0 <= #[trigger] p2[i] < p2.len(),
        forall|a: int, b: int| 0 <= a < b < p1.len() ==> p1[a] != p1[b],
        forall|a: int, b: int| 0 <= a < b < p2.len() ==> p2[a] != p2[b],
        forall|a: int, b: int|
            0 <= a < b < p1.len() ==> lex_before(ps, data_size, mults, #[trigger] p1[a], #[trigger] p1[b]),
        forall|a: int, b: int|
            0 <= a < b < p2.len() ==> lex_before(ps, data_size, mults, #[trigger] p2[a], #[trigger] p2[b]),
        0 <= k <= p1.len(),
    ensures
        forall|i: int| 0 <= i < k ==> p1[i] == p2[i],
    decreases k,
{
    if k > 0 {
        lemma_stable_rank_unique(ps, data_size, mults, p1, p2, k - 1);
        let n = ps.len() as int;
        let j = k - 1;
        lemma_perm_onto(p1, n);
        lemma_perm_onto(p2, n);
        let v = p1[j];
        assert(p2.contains(v));
        let m = choose|m: int| 0 <= m < p2.len() && p2[m] == v;
        assert(m >= j) by {
            if m < j {
                assert(p1[m] == p2[m]);
                assert(p1[m] != p1[j]);
            }
        }
        let w = p2[j];
        assert(p1.contains(w));
        let mm = choose|mm: int| 0 <= mm < p1.len() && p1[mm] == w;
        assert(mm >= j) by {
            if mm < j {
                assert(p1[mm] == p2[mm]);
                assert(p2[mm] != p2[j]);
            }
        }
        if m == j {
        } else if mm == j {
        } else {
            assert(lex_before(ps, data_size, mults, w, v));
            assert(lex_before(ps, data_size, mults, v, w));
            assert(false);
        }
        assert(p1[j] == p2[j]);
    }
}

/// Law: the race outcome is deterministic in the participants and the
/// draws.  Any two outcomes accepted for the same field, payload size and
/// draws agree row for row — same names, finish times, vehicles and
/// victory phrases in the same order — and name the same winner.
pub proof fn law_race_deterministic(
    ps: Seq<RaceParticipant>,
    data_size: nat,
    mults: Seq<u64>,
    cries: Seq<u64>,
    rr1: RaceResults,
    rr2: RaceResults,
)
    requires
        race_ok(ps, data_size, mults, cries, rr1),
        race_ok(ps, data_size, mults, cries, rr2),
    ensures
        rr1.results@.len() == rr2.results@.len(),
        forall|k: int|
            0 <= k < rr1.results@.len() ==> {
                &&& #[trigger] rr1.results@[k].name == rr2.results@[k].name
                &&& rr1.results@[k].time_ms == rr2.results@[k].time_ms
                &&& rr1.results@[k].vehicle == rr2.results@[k].vehicle
                &&& rr1.results@[k].victory_cry@ == rr2.results@[k].victory_cry@
            },
        rr1.winner == rr2.winner,
{
    let p1 = choose|perm: Seq<int>| race_ok_via(perm, ps, data_size, mults, cries, rr1);
    let p2 = choose|perm: Seq<int>| race_ok_via(perm, ps, data_size, mults, cries, rr2);
    let n = ps.len() as int;
    assert forall|a: int, b: int| 0 <= a < b < n implies lex_before(
        ps,
        data_size,
        mults,
        #[trigger] p1[a],
        #[trigger] p1[b],
    ) by {
        assert(entry_matches(ps, data_size, mults, cries, rr1.results@[a], p1[a]));
        assert(entry_matches(ps, data_size, mults, cries, rr1.results@[b], p1[b]));
    };
    assert forall|a: int, b: int| 0 <= a < b < n implies lex_before(
        ps,
        data_size,
        mults,
        #[trigger] p2[a],
        #[trigger] p2[b],
    ) by {
        assert(entry_matches(ps, data_size, mults, cries, rr2.results@[a], p2[a]));
        assert(entry_matches(ps, data_size, mults, cries, rr2.results@[b], p2[b]));
    };
    lemma_stable_rank_unique(ps, data_size, mults, p1, p2, n);
    assert forall|k: int| 0 <= k < rr1.results@.len() implies {
        &&& #[trigger] rr1.results@[k].name == rr2.results@[k].name
        &&& rr1.results@[k].time_ms == rr2.results@[k].time_ms
        &&& rr1.results@[k].vehicle == rr2.results@[k].vehicle
        &&& rr1.results@[k].victory_cry@ == rr2.results@[k].victory_cry@
    } by {
        assert(p1[k] == p2[k]);
        assert(entry_matches(ps, data_size, mults, cries, rr1.results@[k], p1[k]));
        assert(entry_matches(ps, data_size, mults, cries, rr2.results@[k], p2[k]));
    };
    assert(rr1.results@[0].name == rr2.results@[0].name);
}

/// Law: with a single participant, that participant always wins —
/// whatever the draws, the ranked field has exactly one row and the
/// winner carries the sole participant's name.
pub proof fn law_single_participant_wins(
    ps: Seq<RaceParticipant>,
    data_size: nat,
    mults: Seq<u64>,
    cries: Seq<u64>,
    rr: RaceResults,
)
    requires
        ps.len() == 1,
        race_ok(ps, data_size, mults, cries, rr),
    ensures
        rr.results@.len() == 1,
        rr.winner == ps[0].name,
{
    let perm = choose|perm: Seq<int>| race_ok_via(perm, ps, data_size, mults, cries, rr);
    assert(0 <= perm[0] < 1);
    assert(entry_matches(ps, data_size, mults, cries, rr.results@[0], perm[0]));
}

} // verus!
