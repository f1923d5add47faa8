//! The transform pipeline: per-level composition of byte transforms and
//! cipher calls, the fixed artifact tables, the one-shot achievement
//! registry, and the engine object that ties them together.

use vstd::prelude::*;
use vstd::string::*;
use vstd::utf8::encode_utf8;
use crate::cipher::{basic_encrypt, is_cipher_blob_for};
use crate::errors::TheaterError;
use crate::levels::{
    spec_achievement_label, spec_delay_ms, spec_level_index, spec_level_name, spec_level_points,
    spec_password, EncryptionLevel,
};
use crate::numtext::{dec_of, u64_to_string};
use crate::outside::{b64_of, base64_encode, random_u32};

verus! {

/// Result of one pipeline invocation, immutable after creation.
///
/// `encrypted_data` is the final blob of the level's composition;
/// `theatrical_elements` is the ordered artifact list of the level;
/// `encryption_time_ms` is the theatrical delay the pipeline owes the
/// caller for this level and drama multiplier.
pub struct EncryptionResult {
    pub success: bool,
    pub message: String,
    pub data_id: String,
    pub encryption_time_ms: u64,
    pub theatrical_elements: Vec<String>,
    pub points_earned: u32,
    pub achievement_unlocked: Option<String>,
    pub encrypted_data: Vec<u8>,
}

/// The phrase a paranoid filler line is drawn from, by table index.
pub open spec fn spec_paranoid_phrase(i: int) -> Seq<char> {
    if i == 0 {
        "THE GOVERNMENT IS READING THIS"@
    } else if i == 1 {
        "BIRDS AREN'T REAL"@
    } else if i == 2 {
        "THEY'RE IN THE WALLS"@
    } else if i == 3 {
        "TRUST NO ONE"@
    } else if i == 4 {
        "THE MOON LANDING WAS STAGED ON MARS"@
    } else if i == 5 {
        "5G CAUSES RAIN"@
    } else {
        "ILLUMINATI CONFIRMED"@
    }
}

/// The filler block for a sequence of phrase picks: the picked phrases
/// joined by single newlines.
pub open spec fn join_padding(picks: Seq<int>) -> Seq<char>
    decreases picks.len(),
{
    if picks.len() == 0 {
        Seq::empty()
    } else if picks.len() == 1 {
        spec_paranoid_phrase(picks[0])
    } else {
        join_padding(picks.drop_last()) + "\n"@ + spec_paranoid_phrase(picks.last())
    }
}

/// Whether `p` is a paranoid filler block: 5 to 19 lines, each drawn
/// independently from the fixed phrase table (repeats allowed).
pub open spec fn is_paranoid_padding(p: Seq<char>) -> bool {
    exists|picks: Seq<int>|
        5 <= picks.len() < 20 && (forall|i: int|
            0 <= i < picks.len() ==> 0 <= #[trigger] picks[i] < 7) && p == join_padding(picks)
}

/// The combining mark appended to a character by pick index.
pub open spec fn spec_zalgo_mark(i: int) -> Seq<char> {
    if i == 0 {
        "\u{0308}"@
    } else if i == 1 {
        "\u{030e}"@
    } else if i == 2 {
        "\u{0307}"@
    } else if i == 3 {
        "\u{0304}"@
    } else if i == 4 {
        "\u{0306}"@
    } else if i == 5 {
        "\u{0310}"@
    } else if i == 6 {
        "\u{030c}"@
    } else {
        "\u{0301}"@
    }
}

/// The decoration marks for one character, concatenated in pick order.
pub open spec fn zalgo_decorations(d: Seq<int>) -> Seq<char>
    decreases d.len(),
{
    if d.len() == 0 {
        Seq::empty()
    } else {
        zalgo_decorations(d.drop_last()) + spec_zalgo_mark(d.last())
    }
}

/// A valid per-character decoration: one to three picks from the
/// eight-mark table.
pub open spec fn valid_zalgo_dec(d: Seq<int>) -> bool {
    1 <= d.len() <= 3 && (forall|j: int| 0 <= j < d.len() ==> 0 <= #[trigger] d[j] < 8)
}

/// The decorated text for an input and a per-character decoration list:
/// each input character followed by its marks, in input order.
pub open spec fn zalgo_join(s: Seq<char>, decs: Seq<Seq<int>>) -> Seq<char>
    decreases s.len(),
{
    if s.len() == 0 {
        Seq::empty()
    } else {
        zalgo_join(s.drop_last(), decs.drop_last()) + seq![s.last()] + zalgo_decorations(
            decs.last(),
        )
    }
}

/// Whether `out` is a zalgo decoration of `input`: every character kept in
/// order, each followed by one to three marks from the fixed table.
pub open spec fn is_zalgo_of(input: Seq<char>, out: Seq<char>) -> bool {
    exists|decs: Seq<Seq<int>>|
        decs.len() == input.len() && (forall|k: int|
            0 <= k < decs.len() ==> valid_zalgo_dec(#[trigger] decs[k])) && out == zalgo_join(
            input,
            decs,
        )
}

/// The theatrical "compression" wrapper, which compresses nothing.
pub open spec fn spec_compressed(d: Seq<char>) -> Seq<char> {
    "COMPRESSED["@ + d + "]DEFINITELY_SMALLER_NOW"@
}

/// Every byte XORed with the constant 42.
pub open spec fn spec_xor42(s: Seq<u8>) -> Seq<u8> {
    s.map_values(|b: u8| b ^ 42)
}

/// Every paranoid phrase is at most 35 characters long.
proof fn lemma_paranoid_phrase_len(i: int)
    ensures
        spec_paranoid_phrase(i).len() <= 35,
{
    reveal_strlit("THE GOVERNMENT IS READING THIS");
    reveal_strlit("BIRDS AREN'T REAL");
    reveal_strlit("THEY'RE IN THE WALLS");
    reveal_strlit("TRUST NO ONE");
    reveal_strlit("THE MOON LANDING WAS STAGED ON MARS");
    reveal_strlit("5G CAUSES RAIN");
    reveal_strlit("ILLUMINATI CONFIRMED");
}

/// A filler block takes at most 36 characters per line: the longest
/// phrase plus its separating newline.
proof fn lemma_join_padding_len(picks: Seq<int>)
    ensures
        join_padding(picks).len() <= 36 * picks.len(),
    decreases picks.len(),
{
    reveal_strlit("\n");
    if picks.len() == 1 {
        lemma_paranoid_phrase_len(picks[0]);
    } else if picks.len() > 1 {
        lemma_join_padding_len(picks.drop_last());
        lemma_paranoid_phrase_len(picks.last());
    }
}

/// Every combining mark of the zalgo table is a single character.
proof fn lemma_zalgo_mark_len(i: int)
    ensures
        spec_zalgo_mark(i).len() == 1,
{
    reveal_strlit("\u{0308}");
    reveal_strlit("\u{030e}");
    reveal_strlit("\u{0307}");
    reveal_strlit("\u{0304}");
    reveal_strlit("\u{0306}");
    reveal_strlit("\u{0310}");
    reveal_strlit("\u{030c}");
    reveal_strlit("\u{0301}");
}

/// The decoration of one character is one mark per pick.
proof fn lemma_zalgo_decorations_len(d: Seq<int>)
    ensures
        zalgo_decorations(d).len() == d.len(),
    decreases d.len(),
{
    if d.len() > 0 {
        lemma_zalgo_decorations_len(d.drop_last());
        lemma_zalgo_mark_len(d.last());
    }
}

/// A zalgo decoration at most quadruples the character count: every input
/// character plus up to three marks.
proof fn lemma_zalgo_join_len(s: Seq<char>, decs: Seq<Seq<int>>)
    requires
        decs.len() == s.len(),
        forall|k: int| 0 <= k < decs.len() ==> valid_zalgo_dec(#[trigger] decs[k]),
    ensures
        zalgo_join(s, decs).len() <= 4 * s.len(),
    decreases s.len(),
{
    if s.len() > 0 {
        assert forall|k: int| 0 <= k < decs.drop_last().len() implies valid_zalgo_dec(
            #[trigger] decs.drop_last()[k],
        ) by {
            assert(decs.drop_last()[k] == decs[k]);
        };
        lemma_zalgo_join_len(s.drop_last(), decs.drop_last());
        lemma_zalgo_decorations_len(decs.last());
        assert(valid_zalgo_dec(decs[decs.len() - 1]));
    }
}

/// The ordered artifact table of a level.  Only `Quantum` looks at the
/// coin: its fourth artifact depends on a fair coin flip.
pub open spec fn spec_artifacts(l: EncryptionLevel, coin: bool) -> Seq<Seq<char>> {
    match l {
        EncryptionLevel::Basic => seq!["Applied ROT13 (just kidding)"@, "Added blockchain dust"@],
        EncryptionLevel::Premium => seq![
            "Double-encrypted for safety"@,
            "Blessed by cyber-monks"@,
        ],
        EncryptionLevel::Paranoid => seq![
            "Wrapped in digital tin foil"@,
            "Hidden from government satellites"@,
            "5G-proof coating applied"@,
        ],
        EncryptionLevel::Tinfoil => seq![
            "Compressed with anxiety"@,
            "Encrypted with conspiracy theories"@,
            "Chemtrail-resistant layer added"@,
        ],
        EncryptionLevel::Quantum => seq![
            "Quantum entangled with parallel universe"@,
            "Schrodinger's encryption applied"@,
            "Observed by quantum cats"@,
            if coin {
                "Data is encrypted AND decrypted!"@
            } else {
                "Data collapsed into encrypted state"@
            },
        ],
        EncryptionLevel::Alien => seq![
            "Applied Area 51 technology"@,
            "Translated to alien language"@,
            "UFO cloaking activated"@,
        ],
        EncryptionLevel::Eldritch => seq![
            "Cthulhu fhtagn"@,
            "Reality.exe has stopped responding"@,
        ],
    }
}

/// The banner of a successful transform at a level.
pub open spec fn spec_message(l: EncryptionLevel) -> Seq<char> {
    "Data encrypted with "@ + spec_level_name(l) + " level security!"@
}

/// The derived identifier of a transform: a fixed prefix, the user id and
/// a random integer.  Collisions are intentionally not engineered away.
pub open spec fn spec_data_id(user_id: u64, r: u32) -> Seq<char> {
    "GONGLE-"@ + dec_of(user_id as nat) + "-"@ + dec_of(r as nat)
}

/// The per-level composition contract: how the final blob and the
/// artifact list of a transform relate to the plaintext `d` and the
/// theatrical password `p`.  Random choices (salts, nonces, filler,
/// decorations, the quantum coin) are existentially bound; everything
/// else is fixed.
pub open spec fn transform_ok(
    l: EncryptionLevel,
    p: Seq<char>,
    d: Seq<char>,
    blob: Seq<u8>,
    arts: Seq<Seq<char>>,
) -> bool {
    match l {
        EncryptionLevel::Basic => arts == spec_artifacts(l, true) && is_cipher_blob_for(
            p,
            encode_utf8(d),
            blob,
        ),
        EncryptionLevel::Premium => arts == spec_artifacts(l, true) && exists|b1: Seq<u8>|
            is_cipher_blob_for(p, encode_utf8(d), b1) && is_cipher_blob_for(
                p,
                encode_utf8(b64_of(b1)),
                blob,
            ),
        EncryptionLevel::Paranoid => arts == spec_artifacts(l, true) && exists|pad: Seq<char>|
            is_paranoid_padding(pad) && is_cipher_blob_for(
                p,
                encode_utf8(d + "\n"@ + pad),
                blob,
            ),
        EncryptionLevel::Tinfoil => arts == spec_artifacts(l, true) && exists|b1: Seq<u8>|
            is_cipher_blob_for(p, encode_utf8(spec_compressed(d)), b1) && blob == encode_utf8(
                spec_compressed(b64_of(b1)),
            ),
        EncryptionLevel::Quantum => exists|coin: bool|
            arts == spec_artifacts(l, coin) && if coin {
                is_cipher_blob_for(p, encode_utf8(d), blob)
            } else {
                is_cipher_blob_for(p, encode_utf8("QUANTUM:"@ + d), blob)
            },
        EncryptionLevel::Alien => arts == spec_artifacts(l, true) && is_cipher_blob_for(
            p,
            encode_utf8(b64_of(spec_xor42(encode_utf8(d)))),
            blob,
        ),
        EncryptionLevel::Eldritch => arts == spec_artifacts(l, true) && exists|z: Seq<char>|
            is_zalgo_of(d, z) && is_cipher_blob_for(p, encode_utf8(z), blob),
    }
}

/// How one successful transform moves the achievement registry from
/// `pre` to `post` and what it hands back: on the instance's first
/// success at the level, the level's label and the registry with that
/// level's flag set; on every later success at the level, nothing, and
/// the registry unchanged.
pub open spec fn achievement_step(
    pre: DataTheater,
    post: DataTheater,
    l: EncryptionLevel,
    granted: Option<String>,
) -> bool {
    &&& (pre.spec_granted(l) ==> granted is None && post.achievements@ == pre.achievements@)
    &&& (!pre.spec_granted(l) ==> (granted matches Some(a) && a@ == spec_achievement_label(l))
        && post.achievements@ == pre.achievements@.update(spec_level_index(l), true))
}

/// Law: the achievement grant is exactly-once per engine instance and
/// level.  Across two sequential successful transforms at the same level
/// on one instance that had not granted the level yet, the first call
/// returns the achievement and the second returns none.
pub proof fn law_achievement_exactly_once(
    t0: DataTheater,
    t1: DataTheater,
    t2: DataTheater,
    l: EncryptionLevel,
    a1: Option<String>,
    a2: Option<String>,
)
    requires
        t0.wf(),
        !t0.spec_granted(l),
        achievement_step(t0, t1, l, a1),
        achievement_step(t1, t2, l, a2),
    ensures
        a1 matches Some(s) && s@ == spec_achievement_label(l),
        a2 is None,
{
    assert(t1.spec_granted(l));
}

/// Law: the artifact list of a successful transform has exactly the
/// length of the level's fixed table — two entries for Basic, Premium and
/// Eldritch, four for Quantum, three for every other level — and is one
/// of the level's fixed tables entry for entry.
pub proof fn law_artifact_table(
    l: EncryptionLevel,
    p: Seq<char>,
    d: Seq<char>,
    blob: Seq<u8>,
    arts: Seq<Seq<char>>,
)
    requires
        transform_ok(l, p, d, blob, arts),
    ensures
        exists|coin: bool| arts == #[trigger] spec_artifacts(l, coin),
        arts.len() == match l {
            EncryptionLevel::Basic => 2int,
            EncryptionLevel::Premium => 2,
            EncryptionLevel::Paranoid => 3,
            EncryptionLevel::Tinfoil => 3,
            EncryptionLevel::Quantum => 4,
            EncryptionLevel::Alien => 3,
            EncryptionLevel::Eldritch => 2,
        },
{
    match l {
        EncryptionLevel::Quantum => {
            let coin = choose|coin: bool|
                arts == spec_artifacts(l, coin) && if coin {
                    is_cipher_blob_for(p, encode_utf8(d), blob)
                } else {
                    is_cipher_blob_for(p, encode_utf8("QUANTUM:"@ + d), blob)
                };
            assert(arts == spec_artifacts(l, coin));
        },
        _ => {
            assert(arts == spec_artifacts(l, true));
        },
    }
}

/// Data protection theater manager: one engine instance with its own
/// one-shot achievement registry.
///
/// The registry is the engine's only mutable state, and every method that
/// touches it takes `&mut self`, so check-and-grant is a single critical
/// section by ownership alone; callers who share one instance across
/// tasks put it behind a mutual-exclusion primitive of their choosing.
pub struct DataTheater {
    /// Path to the encryption binary the surrounding service shells out
    /// to; carried as plain data, never consulted by the engine itself.
    pub encryption_binary: String,
    /// Theatrical delay multiplier, in percent (100 is a multiplier of 1).
    pub drama_percent: u32,
    /// One flag per level, in the fixed level order: whether the level's
    /// one-shot achievement was already granted by this instance.
    pub achievements: Vec<bool>,
}

impl DataTheater {
    /// The achievement registry holds exactly one flag per level.
    pub open spec fn wf(&self) -> bool {
        self.achievements@.len() == 7
    }

    /// Whether this instance has already granted the level's achievement.
    pub open spec fn spec_granted(&self, l: EncryptionLevel) -> bool {
        self.achievements@[spec_level_index(l)]
    }

    /// A fresh engine: drama multiplier 1, no achievement granted yet.
    pub fn new(encryption_binary: String) -> (r: DataTheater)
        ensures
            r.wf(),
            r.encryption_binary@ == encryption_binary@,
            r.drama_percent == 100,
            forall|l: EncryptionLevel| !r.spec_granted(l),
    {
        let mut achievements: Vec<bool> = Vec::new();
        achievements.push(false);
        achievements.push(false);
        achievements.push(false);
        achievements.push(false);
        achievements.push(false);
        achievements.push(false);
        achievements.push(false);
        DataTheater { encryption_binary, drama_percent: 100, achievements }
    }

    /// The theatrical password for a user and level: a fixed per-level
    /// template around the user id.  A design artifact of the theater,
    /// not a security property.
    pub fn generate_theatrical_password(&self, user_id: u64, level: &EncryptionLevel) -> (r:
        String)
        ensures
            r@ == spec_password(user_id, *level),
    {
        let mut s = String::from_str("user_");
        let digits = u64_to_string(user_id);
        s.append(digits.as_str());
        s.append(level.password_suffix());
        s
    }

    /// The theatrical "compression" step, which compresses nothing.
    pub fn theatrical_compress(&self, data: &str) -> (r: String)
        ensures
            r@ == spec_compressed(data@),
    {
        let s = String::from_str("COMPRESSED[");
        s.concat(data).concat("]DEFINITELY_SMALLER_NOW")
    }

    /// A block of 5 to 19 filler lines, each drawn independently from the
    /// fixed phrase table, joined by newlines.
    pub fn generate_paranoid_padding(&self) -> (r: String)
        ensures
            is_paranoid_padding(r@),
    {
        let count = crate::outside::rand_range_u64(5, 20);
        let mut s = String::new();
        let ghost mut picks: Seq<int> = Seq::empty();
        let mut j: u64 = 0;
        while j < count
            invariant
                j <= count,
                5 <= count < 20,
                picks.len() == j,
                forall|i: int| 0 <= i < picks.len() ==> 0 <= #[trigger] picks[i] < 7,
                s@ == join_padding(picks),
            decreases count - j,
        {
            let idx = crate::outside::rand_range_u64(0, 7);
            if j > 0 {
                s.append("\n");
            }
            s.append(paranoid_phrase_str(idx));
            proof {
                let old_picks = picks;
                picks = picks.push(idx as int);
                assert(picks.drop_last() =~= old_picks);
                assert(picks.last() == idx as int);
                assert(s@ =~= join_padding(picks));
            }
            j += 1;
        }
        proof {
            assert(is_paranoid_padding(s@)) by {
                assert(5 <= picks.len() < 20 && (forall|i: int|
                    0 <= i < picks.len() ==> 0 <= #[trigger] picks[i] < 7) && s@ == join_padding(
                    picks,
                ));
            }
        }
        s
    }

    /// Appends one to three combining marks from the fixed table to every
    /// character of the text, each pick independent.
    pub fn add_zalgo_text(&self, text: &str) -> (r: String)
        ensures
            is_zalgo_of(text@, r@),
    {
        let n = text.unicode_len();
        let mut out = String::new();
        let ghost mut decs: Seq<Seq<int>> = Seq::empty();
        let mut i: usize = 0;
        while i < n
            invariant
                i <= n,
                n == text@.len(),
                decs.len() == i,
                forall|k: int| 0 <= k < decs.len() ==> valid_zalgo_dec(#[trigger] decs[k]),
                out@ == zalgo_join(text@.subrange(0, i as int), decs),
            decreases n - i,
        {
            let piece = text.substring_char(i, i + 1);
            out.append(piece);
            let count = crate::outside::rand_range_u64(1, 4);
            let ghost mut d: Seq<int> = Seq::empty();
            let ghost base = out@;
            let mut j: u64 = 0;
            while j < count
                invariant
                    j <= count,
                    1 <= count < 4,
                    d.len() == j,
                    forall|m: int| 0 <= m < d.len() ==> 0 <= #[trigger] d[m] < 8,
                    out@ == base + zalgo_decorations(d),
                decreases count - j,
            {
                let m = crate::outside::rand_range_u64(0, 8);
                out.append(zalgo_mark_str(m));
                proof {
                    let old_d = d;
                    d = d.push(m as int);
                    assert(d.drop_last() =~= old_d);
                    assert(out@ =~= base + zalgo_decorations(d));
                }
                j += 1;
            }
            proof {
                let old_decs = decs;
                decs = decs.push(d);
                let s1 = text@.subrange(0, (i + 1) as int);
                assert(s1.drop_last() =~= text@.subrange(0, i as int));
                assert(decs.drop_last() =~= old_decs);
                assert(s1.last() == text@[i as int]);
                assert(piece@ =~= seq![text@[i as int]]);
                assert(out@ =~= zalgo_join(s1, decs));
            }
            i += 1;
        }
        proof {
            assert(text@.subrange(0, n as int) =~= text@);
            assert(is_zalgo_of(text@, out@)) by {
                assert(decs.len() == text@.len() && (forall|k: int|
                    0 <= k < decs.len() ==> valid_zalgo_dec(#[trigger] decs[k])) && out@
                    == zalgo_join(text@, decs));
            }
        }
        out
    }

    /// Performs one theatrical transform: composes the level's byte
    /// transforms and cipher calls in their fixed order, and returns the
    /// final blob with the level's ordered artifact list, point yield,
    /// banner, derived identifier, owed delay, and the level's one-shot
    /// achievement on this instance's first success at that level.
    ///
    /// The caller owes the user the theatrical suspension of
    /// `encryption_time_ms` milliseconds; the engine itself never sleeps.
    /// Success is owed for every plaintext of at most 2^28 characters, a
    /// conservative bound under which every level's composition stays
    /// short of the cipher's message limit; the only errors are
    /// `KeyDerivationError` and `CipherError`, both unreachable under
    /// correct operation of the primitives, and on an error the engine is
    /// left unchanged.
    pub fn encrypt_with_drama(&mut self, user_id: u64, data: &str, level: EncryptionLevel) -> (r:
        Result<EncryptionResult, TheaterError>)
        requires
            old(self).wf(),
        ensures
            final(self).wf(),
            final(self).encryption_binary == old(self).encryption_binary,
            final(self).drama_percent == old(self).drama_percent,
            data@.len() <= 0x1000_0000 ==> r is Ok,
            r matches Err(e) ==> (e == TheaterError::KeyDerivation || e == TheaterError::Cipher)
                && *final(self) == *old(self),
            r matches Ok(res) ==> ({
                &&& res.success == true
                &&& res.message@ == spec_message(level)
                &&& res.points_earned == spec_level_points(level)
                &&& res.encryption_time_ms == spec_delay_ms(level, old(self).drama_percent)
                &&& exists|x: u32| res.data_id@ == spec_data_id(user_id, x)
                &&& transform_ok(
                    level,
                    spec_password(user_id, level),
                    data@,
                    res.encrypted_data@,
                    res.theatrical_elements.deep_view(),
                )
                &&& achievement_step(*old(self), *final(self), level, res.achievement_unlocked)
                &&& final(self).spec_granted(level)
            }),
    {
        let password = self.generate_theatrical_password(user_id, &level);
        let ghost p = spec_password(user_id, level);
        proof {
            crate::numtext::lemma_encode_utf8_len(data@);
        }
        let mut elements: Vec<String> = Vec::new();
        let encrypted_data: Vec<u8>;
        match level {
            EncryptionLevel::Basic => {
                elements.push(String::from_str("Applied ROT13 (just kidding)"));
                elements.push(String::from_str("Added blockchain dust"));
                match basic_encrypt(data, password.as_str()) {
                    Ok(b) => {
                        encrypted_data = b;
                    },
                    Err(e) => {
                        return Err(e);
                    },
                }
                proof {
                    assert(elements.deep_view() =~~= spec_artifacts(level, true));
                }
            },
            EncryptionLevel::Premium => {
                elements.push(String::from_str("Double-encrypted for safety"));
                elements.push(String::from_str("Blessed by cyber-monks"));
                let first = match basic_encrypt(data, password.as_str()) {
                    Ok(b) => b,
                    Err(e) => {
                        return Err(e);
                    },
                };
                let encoded = base64_encode(first.as_slice());
                proof {
                    crate::numtext::lemma_encode_utf8_len(encoded@);
                }
                match basic_encrypt(encoded.as_str(), password.as_str()) {
                    Ok(b) => {
                        encrypted_data = b;
                    },
                    Err(e) => {
                        return Err(e);
                    },
                }
                proof {
                    assert(elements.deep_view() =~~= spec_artifacts(level, true));
                    assert(is_cipher_blob_for(p, encode_utf8(data@), first@) && is_cipher_blob_for(
                        p,
                        encode_utf8(b64_of(first@)),
                        encrypted_data@,
                    ));
                }
            },
            EncryptionLevel::Paranoid => {
                elements.push(String::from_str("Wrapped in digital tin foil"));
                elements.push(String::from_str("Hidden from government satellites"));
                elements.push(String::from_str("5G-proof coating applied"));
                let padding = self.generate_paranoid_padding();
                let mut padded = data.to_owned();
                padded.append("\n");
                padded.append(padding.as_str());
                proof {
                    let picks = choose|picks: Seq<int>|
                        5 <= picks.len() < 20 && (forall|i: int|
                            0 <= i < picks.len() ==> 0 <= #[trigger] picks[i] < 7) && padding@
                            == join_padding(picks);
                    lemma_join_padding_len(picks);
                    reveal_strlit("\n");
                    crate::numtext::lemma_encode_utf8_len(padded@);
                }
                match basic_encrypt(padded.as_str(), password.as_str()) {
                    Ok(b) => {
                        encrypted_data = b;
                    },
                    Err(e) => {
                        return Err(e);
                    },
                }
                proof {
                    assert(elements.deep_view() =~~= spec_artifacts(level, true));
                    assert(is_paranoid_padding(padding@) && is_cipher_blob_for(
                        p,
                        encode_utf8(data@ + "\n"@ + padding@),
                        encrypted_data@,
                    ));
                }
            },
            EncryptionLevel::Tinfoil => {
                elements.push(String::from_str("Compressed with anxiety"));
                elements.push(String::from_str("Encrypted with conspiracy theories"));
                elements.push(String::from_str("Chemtrail-resistant layer added"));
                let compressed = self.theatrical_compress(data);
                proof {
                    reveal_strlit("COMPRESSED[");
                    reveal_strlit("]DEFINITELY_SMALLER_NOW");
                    crate::numtext::lemma_encode_utf8_len(compressed@);
                }
                let enc = match basic_encrypt(compressed.as_str(), password.as_str()) {
                    Ok(b) => b,
                    Err(e) => {
                        return Err(e);
                    },
                };
                let encoded = base64_encode(enc.as_slice());
                let wrapped = self.theatrical_compress(encoded.as_str());
                encrypted_data = wrapped.as_str().as_bytes_vec();
                proof {
                    assert(elements.deep_view() =~~= spec_artifacts(level, true));
                    assert(is_cipher_blob_for(p, encode_utf8(spec_compressed(data@)), enc@)
                        && encrypted_data@ == encode_utf8(spec_compressed(b64_of(enc@))));
                }
            },
            EncryptionLevel::Quantum => {
                elements.push(String::from_str("Quantum entangled with parallel universe"));
                elements.push(String::from_str("Schrodinger's encryption applied"));
                elements.push(String::from_str("Observed by quantum cats"));
                let coin = crate::outside::rand_range_u64(0, 2) == 0;
                if coin {
                    elements.push(String::from_str("Data is encrypted AND decrypted!"));
                    match basic_encrypt(data, password.as_str()) {
                        Ok(b) => {
                            encrypted_data = b;
                        },
                        Err(e) => {
                            return Err(e);
                        },
                    }
                } else {
                    elements.push(String::from_str("Data collapsed into encrypted state"));
                    let prefixed = String::from_str("QUANTUM:").concat(data);
                    proof {
                        reveal_strlit("QUANTUM:");
                        crate::numtext::lemma_encode_utf8_len(prefixed@);
                    }
                    match basic_encrypt(prefixed.as_str(), password.as_str()) {
                        Ok(b) => {
                            encrypted_data = b;
                        },
                        Err(e) => {
                            return Err(e);
                        },
                    }
                }
                proof {
                    assert(elements.deep_view() =~~= spec_artifacts(level, coin));
                }
            },
            EncryptionLevel::Alien => {
                elements.push(String::from_str("Applied Area 51 technology"));
                elements.push(String::from_str("Translated to alien language"));
                elements.push(String::from_str("UFO cloaking activated"));
                let alien = alien_bytes(data.as_bytes());
                let encoded = base64_encode(alien.as_slice());
                proof {
                    crate::numtext::lemma_encode_utf8_len(encoded@);
                }
                match basic_encrypt(encoded.as_str(), password.as_str()) {
                    Ok(b) => {
                        encrypted_data = b;
                    },
                    Err(e) => {
                        return Err(e);
                    },
                }
                proof {
                    assert(elements.deep_view() =~~= spec_artifacts(level, true));
                    assert(is_cipher_blob_for(
                        p,
                        encode_utf8(b64_of(spec_xor42(encode_utf8(data@)))),
                        encrypted_data@,
                    ));
                }
            },
            EncryptionLevel::Eldritch => {
                elements.push(String::from_str("Cthulhu fhtagn"));
                elements.push(String::from_str("Reality.exe has stopped responding"));
                let zalgo = self.add_zalgo_text(data);
                proof {
                    let decs = choose|decs: Seq<Seq<int>>|
                        decs.len() == data@.len() && (forall|k: int|
                            0 <= k < decs.len() ==> valid_zalgo_dec(#[trigger] decs[k])) && zalgo@
                            == zalgo_join(data@, decs);
                    lemma_zalgo_join_len(data@, decs);
                    crate::numtext::lemma_encode_utf8_len(zalgo@);
                }
                match basic_encrypt(zalgo.as_str(), password.as_str()) {
                    Ok(b) => {
                        encrypted_data = b;
                    },
                    Err(e) => {
                        return Err(e);
                    },
                }
                proof {
                    assert(elements.deep_view() =~~= spec_artifacts(level, true));
                    assert(is_zalgo_of(data@, zalgo@) && is_cipher_blob_for(
                        p,
                        encode_utf8(zalgo@),
                        encrypted_data@,
                    ));
                }
            },
        }
        let points = level.points();
        let achievement = self.check_achievements(&level);
        let rid = crate::outside::random_u32();
        let mut data_id = String::from_str("GONGLE-");
        let uid_digits = u64_to_string(user_id);
        data_id.append(uid_digits.as_str());
        data_id.append("-");
        let rid_digits = u64_to_string(rid as u64);
        data_id.append(rid_digits.as_str());
        proof {
            assert(data_id@ == spec_data_id(user_id, rid));
        }
        let mut message = String::from_str("Data encrypted with ");
        message.append(level.name());
        message.append(" level security!");
        let delay = level.delay_ms(self.drama_percent);
        Ok(
            EncryptionResult {
                success: true,
                message,
                data_id,
                encryption_time_ms: delay,
                theatrical_elements: elements,
                points_earned: points,
                achievement_unlocked: achievement,
                encrypted_data,
            },
        )
    }

    /// Grants the level's achievement if this instance has not yet done
    /// so; at most one grant per level for the instance's lifetime.
    pub fn check_achievements(&mut self, level: &EncryptionLevel) -> (r: Option<String>)
        requires
            old(self).wf(),
        ensures
            final(self).wf(),
            final(self).encryption_binary == old(self).encryption_binary,
            final(self).drama_percent == old(self).drama_percent,
            final(self).spec_granted(*level),
            old(self).spec_granted(*level) ==> r is None && final(self).achievements@ == old(
                self,
            ).achievements@,
            !old(self).spec_granted(*level) ==> (r matches Some(a) && a@
                == spec_achievement_label(*level)) && final(self).achievements@ == old(
                self,
            ).achievements@.update(spec_level_index(*level), true),
    {
        let idx = level.index();
        if !self.achievements[idx] {
            self.achievements.set(idx, true);
            Some(level.achievement_label().to_owned())
        } else {
            None
        }
    }
}

/// The phrase table of the paranoid filler, by index.
fn paranoid_phrase_str(i: u64) -> (r: &'static str)
    requires
        i < 7,
    ensures
        r@ == spec_paranoid_phrase(i as int),
{
    if i == 0 {
        "THE GOVERNMENT IS READING THIS"
    } else if i == 1 {
        "BIRDS AREN'T REAL"
    } else if i == 2 {
        "THEY'RE IN THE WALLS"
    } else if i == 3 {
        "TRUST NO ONE"
    } else if i == 4 {
        "THE MOON LANDING WAS STAGED ON MARS"
    } else if i == 5 {
        "5G CAUSES RAIN"
    } else {
        "ILLUMINATI CONFIRMED"
    }
}

/// The combining-mark table of the zalgo decoration, by index.
fn zalgo_mark_str(i: u64) -> (r: &'static str)
    requires
        i < 8,
    ensures
        r@ == spec_zalgo_mark(i as int),
{
    if i == 0 {
        "\u{0308}"
    } else if i == 1 {
        "\u{030e}"
    } else if i == 2 {
        "\u{0307}"
    } else if i == 3 {
        "\u{0304}"
    } else if i == 4 {
        "\u{0306}"
    } else if i == 5 {
        "\u{0310}"
    } else if i == 6 {
        "\u{030c}"
    } else {
        "\u{0301}"
    }
}

/// Every byte of the input XORed with the constant 42.
pub fn alien_bytes(data: &[u8]) -> (r: Vec<u8>)
    ensures
        r@ == spec_xor42(data@),
{
    let n = data.len();
    let mut out: Vec<u8> = Vec::new();
    let mut i: usize = 0;
    while i < n
        invariant
            i <= n,
            n == data@.len(),
            out@ == spec_xor42(data@.subrange(0, i as int)),
        decreases n - i,
    {
        out.push(data[i] ^ 42);
        proof {
            assert(data@.subrange(0, (i + 1) as int).map_values(|b: u8| b ^ 42) =~= data@.subrange(
                0,
                i as int,
            ).map_values(|b: u8| b ^ 42).push(data@[i as int] ^ 42));
        }
        i += 1;
    }
    proof {
        assert(data@.subrange(0, n as int) =~= data@);
    }
    out
}

} // verus!
