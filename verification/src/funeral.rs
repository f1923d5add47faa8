//! The destruction scheduler: builds a deferred "funeral" record for a
//! set of data identifiers, with a per-variant epitaph, shred-pass count,
//! effect tags and guest list.  The record is advisory metadata only; the
//! engine performs no destruction and starts no timer.

use vstd::prelude::*;
use vstd::string::*;
use crate::errors::TheaterError;
use crate::numtext::{dec_int, dec_of, i32_to_string, matches_ci, str_matches_ci, u64_to_string};
use crate::outside::{now_unix_ms, rand_range_u64, random_u32};

verus! {

/// Funeral types for data destruction ceremonies.  Each variant's
/// parameters feed directly into the epitaph text.
#[derive(Debug, Clone)]
pub enum FuneralType {
    Viking { longboat_size: u32, burning_arrows: u32 },
    Space { trajectory: String, escape_velocity_kms: u32 },
    Quantum { superposition: bool, observer_count: u32 },
    Eldritch { tentacles: u32, dimensions_breached: u32, sanity_cost: i32 },
}

/// Deferred funeral record.  `scheduled_time_ms` is `created_at_ms` plus
/// a fixed 24-hour offset, a hint for an external job runner; nothing in
/// the engine enforces or executes it.
pub struct FuneralSchedule {
    pub ceremony_id: String,
    pub user_id: u64,
    pub data_ids: Vec<String>,
    pub funeral_type: FuneralType,
    pub created_at_ms: u64,
    pub scheduled_time_ms: u64,
    pub epitaph: String,
    pub shred_passes: u32,
    pub special_effects: Vec<String>,
    pub livestream_url: String,
    pub guest_list: Vec<String>,
}

/// The epitaph of a ceremony: a fixed template per variant,
/// interpolating the variant's own fields and the number of data ids
/// (counted as 1024 bytes each).
pub open spec fn spec_epitaph(ft: FuneralType, n_ids: nat) -> Seq<char> {
    match ft {
        FuneralType::Viking { longboat_size, burning_arrows } => "Here lies "@ + dec_of(
            n_ids * 1024,
        ) + " bytes of data. They sailed to digital Valhalla on a "@ + dec_of(
            longboat_size as nat,
        ) + "ft longboat, pierced by "@ + dec_of(burning_arrows as nat)
            + " flaming arrows."@,
        FuneralType::Space { trajectory, escape_velocity_kms } => "Launched into the "@
            + trajectory@ + " at "@ + dec_of(escape_velocity_kms as nat)
            + "km/s. Ground Control to Major Data: your circuit's dead, there's something wrong."@,
        FuneralType::Quantum { superposition, observer_count } => "This data "@ + (if superposition {
            "exists"@
        } else {
            "doesn't exist"@
        }) + " in a superposition of deleted and not deleted, observed by "@ + dec_of(
            observer_count as nat,
        ) + " quantum scientists."@,
        FuneralType::Eldritch { tentacles, dimensions_breached, sanity_cost } => "Data consumed by "@
            + dec_of(tentacles as nat) + " tentacles across "@ + dec_of(
            dimensions_breached as nat,
        ) + " dimensions. Sanity cost: "@ + dec_int(sanity_cost as int),
    }
}

/// The effect tags of a ceremony, fixed per variant.
pub open spec fn spec_effects(ft: FuneralType) -> Seq<Seq<char>> {
    match ft {
        FuneralType::Viking { .. } => seq!["\u{1f525}"@, "\u{2694}\u{fe0f}"@, "\u{1f6e1}\u{fe0f}"@, "\u{26f5}"@],
        FuneralType::Space { .. } => seq![
            "\u{1f680}"@,
            "\u{1f31f}"@,
            "\u{1f30c}"@,
            "\u{1f468}\u{200d}\u{1f680}"@,
        ],
        FuneralType::Quantum { .. } => seq!["\u{1f3b2}"@, "\u{1f4ca}"@, "\u{1f52c}"@, "\u{2753}"@],
        FuneralType::Eldritch { .. } => seq![
            "\u{1f419}"@,
            "\u{1f300}"@,
            "\u{1f441}\u{fe0f}"@,
            "\u{1f578}\u{fe0f}"@,
        ],
    }
}

/// Whether `p` is a legal shred-pass count for the variant: Viking and
/// Eldritch are fixed, Space is uniform over [1,100), Quantum collapses
/// to one of two values.
pub open spec fn shred_passes_ok(ft: FuneralType, p: u32) -> bool {
    match ft {
        FuneralType::Viking { .. } => p == 35,
        FuneralType::Space { .. } => 1 <= p < 100,
        FuneralType::Quantum { .. } => p == 0 || p == 999,
        FuneralType::Eldritch { .. } => p == 666,
    }
}

/// The funeral guest table, by index.
pub open spec fn spec_guest(i: int) -> Seq<char> {
    if i == 0 {
        "Mark Zuckerberg (via metaverse)"@
    } else if i == 1 {
        "The Ghost of Your Privacy"@
    } else if i == 2 {
        "Three Russian Hackers"@
    } else if i == 3 {
        "Your FBI Agent"@
    } else if i == 4 {
        "Cambridge Analytica (uninvited)"@
    } else if i == 5 {
        "That Nigerian Prince"@
    } else if i == 6 {
        "Cookie Monster (for the cookies)"@
    } else if i == 7 {
        "The Blockchain Itself"@
    } else if i == 8 {
        "Satoshi Nakamoto (maybe)"@
    } else {
        "Your Mom (disappointed)"@
    }
}

/// Whether `g` lists the guests picked by the index sequence `idxs`:
/// 3 to 6 indices into the fixed ten-entry table, no repetition.
pub open spec fn guest_list_from(idxs: Seq<int>, g: Seq<Seq<char>>) -> bool {
    &&& 3 <= idxs.len() < 7
    &&& forall|i: int| 0 <= i < idxs.len() ==> 0 <= #[trigger] idxs[i] < 10
    &&& forall|i: int, j: int| 0 <= i < j < idxs.len() ==> idxs[i] != idxs[j]
    &&& g.len() == idxs.len()
    &&& forall|i: int| 0 <= i < idxs.len() ==> g[i] == spec_guest(#[trigger] idxs[i])
}

/// Whether `g` is a legal guest list: 3 to 6 guests drawn from the fixed
/// ten-entry table without repetition, in any order.
pub open spec fn is_guest_list(g: Seq<Seq<char>>) -> bool {
    exists|idxs: Seq<int>| #[trigger] guest_list_from(idxs, g)
}

/// The derived ceremony identifier: a fixed prefix, the user id and a
/// random integer.
pub open spec fn spec_ceremony_id(user_id: u64, r: u32) -> Seq<char> {
    "FUNERAL-"@ + dec_of(user_id as nat) + "-"@ + dec_of(r as nat)
}

/// The livestream address of a ceremony, around a random integer.
pub open spec fn spec_livestream_url(r: u32) -> Seq<char> {
    "https://gongle.com/funerals/live/"@ + dec_of(r as nat)
}

/// The funeral guest table, by index.
fn guest_str(i: u64) -> (r: &'static str)
    requires
        i < 10,
    ensures
        r@ == spec_guest(i as int),
{
    if i == 0 {
        "Mark Zuckerberg (via metaverse)"
    } else if i == 1 {
        "The Ghost of Your Privacy"
    } else if i == 2 {
        "Three Russian Hackers"
    } else if i == 3 {
        "Your FBI Agent"
    } else if i == 4 {
        "Cambridge Analytica (uninvited)"
    } else if i == 5 {
        "That Nigerian Prince"
    } else if i == 6 {
        "Cookie Monster (for the cookies)"
    } else if i == 7 {
        "The Blockchain Itself"
    } else if i == 8 {
        "Satoshi Nakamoto (maybe)"
    } else {
        "Your Mom (disappointed)"
    }
}

impl crate::theater::DataTheater {
    /// Draws 3 to 6 distinct guests from the fixed table, in random
    /// order.
    pub fn generate_funeral_guests(&self) -> (r: Vec<String>)
        ensures
            is_guest_list(r.deep_view()),
    {
        let mut pool: Vec<u64> = Vec::new();
        pool.push(0);
        pool.push(1);
        pool.push(2);
        pool.push(3);
        pool.push(4);
        pool.push(5);
        pool.push(6);
        pool.push(7);
        pool.push(8);
        pool.push(9);
        let count_u = rand_range_u64(3, 7);
        let count: usize = count_u as usize;
        let mut i: usize = 0;
        while i < count
            invariant
                i <= count < 7,
                pool@.len() == 10,
                forall|a: int| 0 <= a < 10 ==> 0 <= #[trigger] pool@[a] < 10,
                forall|a: int, b: int| 0 <= a < b < 10 ==> pool@[a] != pool@[b],
            decreases count - i,
        {
            let pick = rand_range_u64(i as u64, 10);
            let j: usize = pick as usize;
            let vi = pool[i];
            let vj = pool[j];
            pool.set(i, vj);
            pool.set(j, vi);
            i += 1;
        }
        let mut guests: Vec<String> = Vec::new();
        let mut k: usize = 0;
        while k < count
            invariant
                k <= count,
                3 <= count < 7,
                pool@.len() == 10,
                forall|a: int| 0 <= a < 10 ==> 0 <= #[trigger] pool@[a] < 10,
                forall|a: int, b: int| 0 <= a < b < 10 ==> pool@[a] != pool@[b],
                guests.deep_view().len() == k,
                forall|a: int|
                    0 <= a < k ==> guests.deep_view()[a] == spec_guest(#[trigger] pool@[a] as int),
            decreases count - k,
        {
            let g = guest_str(pool[k]);
            guests.push(g.to_owned());
            k += 1;
        }
        proof {
            let idxs = Seq::new(count as nat, |a: int| pool@[a] as int);
            assert(guest_list_from(idxs, guests.deep_view()));
        }
        guests
    }

    /// Schedules a data funeral: a deterministic epitaph and effect list
    /// for the variant, a per-variant shred-pass count, a guest list, and
    /// an advisory execution time 24 hours after creation.  The engine
    /// itself is left unchanged and destroys nothing.
    pub fn schedule_funeral(
        &mut self,
        user_id: u64,
        data_ids: Vec<String>,
        funeral_type: FuneralType,
    ) -> (r: Result<FuneralSchedule, TheaterError>)
        requires
            old(self).wf(),
            data_ids@.len() * 1024 <= u64::MAX,
        ensures
            *final(self) == *old(self),
            r is Ok,
            r matches Ok(s) ==> ({
                &&& s.user_id == user_id
                &&& s.data_ids == data_ids
                &&& s.funeral_type == funeral_type
                &&& s.epitaph@ == spec_epitaph(funeral_type, data_ids@.len())
                &&& shred_passes_ok(funeral_type, s.shred_passes)
                &&& s.special_effects.deep_view() == spec_effects(funeral_type)
                &&& s.scheduled_time_ms == (if s.created_at_ms + 86400000 <= u64::MAX {
                    s.created_at_ms + 86400000
                } else {
                    u64::MAX as int
                })
                &&& exists|x: u32| s.ceremony_id@ == spec_ceremony_id(user_id, x)
                &&& exists|x: u32| s.livestream_url@ == spec_livestream_url(x)
                &&& is_guest_list(s.guest_list.deep_view())
            }),
    {
        let cid = random_u32();
        let mut ceremony_id = String::from_str("FUNERAL-");
        let uid_digits = u64_to_string(user_id);
        ceremony_id.append(uid_digits.as_str());
        ceremony_id.append("-");
        let cid_digits = u64_to_string(cid as u64);
        ceremony_id.append(cid_digits.as_str());
        proof {
            assert(ceremony_id@ == spec_ceremony_id(user_id, cid));
        }
        let epitaph: String;
        let shred_passes: u32;
        let mut effects: Vec<String> = Vec::new();
        match &funeral_type {
            FuneralType::Viking { longboat_size, burning_arrows } => {
                let bytes: u64 = (data_ids.len() as u64) * 1024;
                let mut e = String::from_str("Here lies ");
                let d1 = u64_to_string(bytes);
                e.append(d1.as_str());
                e.append(" bytes of data. They sailed to digital Valhalla on a ");
                let d2 = u64_to_string(*longboat_size as u64);
                e.append(d2.as_str());
                e.append("ft longboat, pierced by ");
                let d3 = u64_to_string(*burning_arrows as u64);
                e.append(d3.as_str());
                e.append(" flaming arrows.");
                epitaph = e;
                shred_passes = 35;
                effects.push(String::from_str("\u{1f525}"));
                effects.push(String::from_str("\u{2694}\u{fe0f}"));
                effects.push(String::from_str("\u{1f6e1}\u{fe0f}"));
                effects.push(String::from_str("\u{26f5}"));
            },
            FuneralType::Space { trajectory, escape_velocity_kms } => {
                let mut e = String::from_str("Launched into the ");
                e.append(trajectory.as_str());
                e.append(" at ");
                let d1 = u64_to_string(*escape_velocity_kms as u64);
                e.append(d1.as_str());
                e.append(
                    "km/s. Ground Control to Major Data: your circuit's dead, there's something wrong.",
                );
                epitaph = e;
                shred_passes = rand_range_u64(1, 100) as u32;
                effects.push(String::from_str("\u{1f680}"));
                effects.push(String::from_str("\u{1f31f}"));
                effects.push(String::from_str("\u{1f30c}"));
                effects.push(String::from_str("\u{1f468}\u{200d}\u{1f680}"));
            },
            FuneralType::Quantum { superposition, observer_count } => {
                let mut e = String::from_str("This data ");
                if *superposition {
                    e.append("exists");
                } else {
                    e.append("doesn't exist");
                }
                e.append(" in a superposition of deleted and not deleted, observed by ");
                let d1 = u64_to_string(*observer_count as u64);
                e.append(d1.as_str());
                e.append(" quantum scientists.");
                epitaph = e;
                shred_passes = if rand_range_u64(0, 2) == 0 {
                    0
                } else {
                    999
                };
                effects.push(String::from_str("\u{1f3b2}"));
                effects.push(String::from_str("\u{1f4ca}"));
                effects.push(String::from_str("\u{1f52c}"));
                effects.push(String::from_str("\u{2753}"));
            },
            FuneralType::Eldritch { tentacles, dimensions_breached, sanity_cost } => {
                let mut e = String::from_str("Data consumed by ");
                let d1 = u64_to_string(*tentacles as u64);
                e.append(d1.as_str());
                e.append(" tentacles across ");
                let d2 = u64_to_string(*dimensions_breached as u64);
                e.append(d2.as_str());
                e.append(" dimensions. Sanity cost: ");
                let d3 = i32_to_string(*sanity_cost);
                e.append(d3.as_str());
                epitaph = e;
                shred_passes = 666;
                effects.push(String::from_str("\u{1f419}"));
                effects.push(String::from_str("\u{1f300}"));
                effects.push(String::from_str("\u{1f441}\u{fe0f}"));
                effects.push(String::from_str("\u{1f578}\u{fe0f}"));
            },
        }
        proof {
            assert(epitaph@ == spec_epitaph(funeral_type, data_ids@.len()));
            assert(effects.deep_view() =~~= spec_effects(funeral_type));
        }
        let created_at_ms = now_unix_ms();
        let scheduled_time_ms = if created_at_ms <= u64::MAX - 86400000 {
            created_at_ms + 86400000
        } else {
            u64::MAX
        };
        let url = random_u32();
        let mut livestream_url = String::from_str("https://gongle.com/funerals/live/");
        let url_digits = u64_to_string(url as u64);
        livestream_url.append(url_digits.as_str());
        proof {
            assert(livestream_url@ == spec_livestream_url(url));
        }
        let guest_list = self.generate_funeral_guests();
        Ok(
            FuneralSchedule {
                ceremony_id,
                user_id,
                data_ids,
                funeral_type,
                created_at_ms,
                scheduled_time_ms,
                epitaph,
                shred_passes,
                special_effects: effects,
                livestream_url,
                guest_list,
            },
        )
    }
}

impl FuneralType {
    /// Resolves a boundary tag to a funeral variant carrying that
    /// variant's fixed default parameters.  The four known tags are
    /// matched ignoring ASCII case, and every unknown tag falls back to
    /// the Viking defaults — a deliberate permissive-input policy, not an
    /// error.
    pub fn from_tag(tag: &str) -> (r: FuneralType)
        ensures
            matches_ci(tag@, "space"@) ==> (r matches FuneralType::Space {
                trajectory,
                escape_velocity_kms,
            } && trajectory@ == "the cosmos"@ && escape_velocity_kms == 11),
            !matches_ci(tag@, "space"@) && matches_ci(tag@, "quantum"@) ==> r
                == (FuneralType::Quantum { superposition: true, observer_count: 3 }),
            !matches_ci(tag@, "space"@) && !matches_ci(tag@, "quantum"@) && matches_ci(
                tag@,
                "eldritch"@,
            ) ==> r == (FuneralType::Eldritch {
                tentacles: 8,
                dimensions_breached: 3,
                sanity_cost: 100,
            }),
            !matches_ci(tag@, "space"@) && !matches_ci(tag@, "quantum"@) && !matches_ci(
                tag@,
                "eldritch"@,
            ) ==> r == (FuneralType::Viking { longboat_size: 50, burning_arrows: 100 }),
    {
        if str_matches_ci(tag, "space") {
            FuneralType::Space {
                trajectory: String::from_str("the cosmos"),
                escape_velocity_kms: 11,
            }
        } else if str_matches_ci(tag, "quantum") {
            FuneralType::Quantum { superposition: true, observer_count: 3 }
        } else if str_matches_ci(tag, "eldritch") {
            FuneralType::Eldritch { tentacles: 8, dimensions_breached: 3, sanity_cost: 100 }
        } else {
            FuneralType::Viking { longboat_size: 50, burning_arrows: 100 }
        }
    }
}

} // verus!
