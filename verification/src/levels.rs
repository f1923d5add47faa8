//! The closed set of encryption levels and their fixed per-level tables:
//! display name, theatrical delay, point yield, password suffix,
//! achievement label, and the case-insensitive tag lookup used at the
//! engine boundary.

use vstd::prelude::*;
use crate::numtext::{matches_ci, str_matches_ci, dec_of};

verus! {

/// Theatrical encryption levels with increasingly ridiculous names.
#[derive(Debug, Clone, Copy, PartialEq, Eq, Structural)]
pub enum EncryptionLevel {
    Basic,
    Premium,
    Paranoid,
    Tinfoil,
    Quantum,
    Alien,
    Eldritch,
}

/// Position of a level in the fixed order of the enumeration.
pub open spec fn spec_level_index(l: EncryptionLevel) -> int {
    match l {
        EncryptionLevel::Basic => 0,
        EncryptionLevel::Premium => 1,
        EncryptionLevel::Paranoid => 2,
        EncryptionLevel::Tinfoil => 3,
        EncryptionLevel::Quantum => 4,
        EncryptionLevel::Alien => 5,
        EncryptionLevel::Eldritch => 6,
    }
}

/// Points a successful transform at this level earns.
pub open spec fn spec_level_points(l: EncryptionLevel) -> u32 {
    match l {
        EncryptionLevel::Basic => 100,
        EncryptionLevel::Premium => 500,
        EncryptionLevel::Paranoid => 1000,
        EncryptionLevel::Tinfoil => 2500,
        EncryptionLevel::Quantum => 5000,
        EncryptionLevel::Alien => 7500,
        EncryptionLevel::Eldritch => 66666,
    }
}

/// Base theatrical delay of the level, in milliseconds, before the drama
/// multiplier is applied.
pub open spec fn spec_level_base_delay_ms(l: EncryptionLevel) -> u64 {
    match l {
        EncryptionLevel::Basic => 100,
        EncryptionLevel::Premium => 500,
        EncryptionLevel::Paranoid => 1000,
        EncryptionLevel::Tinfoil => 2000,
        EncryptionLevel::Quantum => 3000,
        EncryptionLevel::Alien => 4000,
        EncryptionLevel::Eldritch => 6666,
    }
}

/// Display name of the level.
pub open spec fn spec_level_name(l: EncryptionLevel) -> Seq<char> {
    match l {
        EncryptionLevel::Basic => "Basic"@,
        EncryptionLevel::Premium => "Premium"@,
        EncryptionLevel::Paranoid => "Paranoid"@,
        EncryptionLevel::Tinfoil => "Tinfoil"@,
        EncryptionLevel::Quantum => "Quantum"@,
        EncryptionLevel::Alien => "Alien"@,
        EncryptionLevel::Eldritch => "Eldritch"@,
    }
}

/// Suffix of the per-level theatrical password, appended after the user id.
pub open spec fn spec_password_suffix(l: EncryptionLevel) -> Seq<char> {
    match l {
        EncryptionLevel::Basic => "_password123"@,
        EncryptionLevel::Premium => "_premiumpassword!"@,
        EncryptionLevel::Paranoid => "_they_are_watching"@,
        EncryptionLevel::Tinfoil => "_5g_cant_penetrate_this"@,
        EncryptionLevel::Quantum => "_schrodingers_password"@,
        EncryptionLevel::Alien => "_area51_clearance"@,
        EncryptionLevel::Eldritch => "_ph_nglui_mglw_nafh"@,
    }
}

/// The theatrical password is a fixed per-level template around the user
/// id.  This is a design artifact of the theater (a per-level, per-user
/// constant password), deliberately not a security property.
pub open spec fn spec_password(user_id: u64, l: EncryptionLevel) -> Seq<char> {
    "user_"@ + dec_of(user_id as nat) + spec_password_suffix(l)
}

/// Label of the one-shot achievement granted for the first transform at
/// this level.
pub open spec fn spec_achievement_label(l: EncryptionLevel) -> Seq<char> {
    match l {
        EncryptionLevel::Basic => "Baby's First Encryption!"@,
        EncryptionLevel::Premium => "Premium Member!"@,
        EncryptionLevel::Paranoid => "They're Watching!"@,
        EncryptionLevel::Tinfoil => "Conspiracy Theorist!"@,
        EncryptionLevel::Quantum => "Quantum Entangled!"@,
        EncryptionLevel::Alien => "Area 51 Clearance!"@,
        EncryptionLevel::Eldritch => "Madness Embraced!"@,
    }
}

/// Delay the pipeline owes the caller: the level's base delay scaled by
/// the drama multiplier, expressed in percent (100 is a multiplier of 1).
pub open spec fn spec_delay_ms(l: EncryptionLevel, drama_percent: u32) -> u64 {
    (spec_level_base_delay_ms(l) * drama_percent / 100) as u64
}

/// Which level a boundary tag selects: the seven known tags are matched
/// ignoring ASCII case, and every unknown tag falls back to `Basic`.  The
/// fallback is a deliberate permissive-input policy, not an error.
pub open spec fn spec_level_from_tag(t: Seq<char>) -> EncryptionLevel {
    if matches_ci(t, "premium"@) {
        EncryptionLevel::Premium
    } else if matches_ci(t, "paranoid"@) {
        EncryptionLevel::Paranoid
    } else if matches_ci(t, "tinfoil"@) {
        EncryptionLevel::Tinfoil
    } else if matches_ci(t, "quantum"@) {
        EncryptionLevel::Quantum
    } else if matches_ci(t, "alien"@) {
        EncryptionLevel::Alien
    } else if matches_ci(t, "eldritch"@) {
        EncryptionLevel::Eldritch
    } else {
        EncryptionLevel::Basic
    }
}

impl EncryptionLevel {
    /// Position of the level in the fixed order of the enumeration.
    pub fn index(&self) -> (r: usize)
        ensures
            r == spec_level_index(*self),
            r < 7,
    {
        match self {
            EncryptionLevel::Basic => 0,
            EncryptionLevel::Premium => 1,
            EncryptionLevel::Paranoid => 2,
            EncryptionLevel::Tinfoil => 3,
            EncryptionLevel::Quantum => 4,
            EncryptionLevel::Alien => 5,
            EncryptionLevel::Eldritch => 6,
        }
    }

    /// Points a successful transform at this level earns.
    pub fn points(&self) -> (r: u32)
        ensures
            r == spec_level_points(*self),
    {
        match self {
            EncryptionLevel::Basic => 100,
            EncryptionLevel::Premium => 500,
            EncryptionLevel::Paranoid => 1000,
            EncryptionLevel::Tinfoil => 2500,
            EncryptionLevel::Quantum => 5000,
            EncryptionLevel::Alien => 7500,
            EncryptionLevel::Eldritch => 66666,
        }
    }

    /// Base theatrical delay in milliseconds.
    pub fn base_delay_ms(&self) -> (r: u64)
        ensures
            r == spec_level_base_delay_ms(*self),
    {
        match self {
            EncryptionLevel::Basic => 100,
            EncryptionLevel::Premium => 500,
            EncryptionLevel::Paranoid => 1000,
            EncryptionLevel::Tinfoil => 2000,
            EncryptionLevel::Quantum => 3000,
            EncryptionLevel::Alien => 4000,
            EncryptionLevel::Eldritch => 6666,
        }
    }

    /// Display name of the level.
    pub fn name(&self) -> (r: &'static str)
        ensures
            r@ == spec_level_name(*self),
    {
        match self {
            EncryptionLevel::Basic => "Basic",
            EncryptionLevel::Premium => "Premium",
            EncryptionLevel::Paranoid => "Paranoid",
            EncryptionLevel::Tinfoil => "Tinfoil",
            EncryptionLevel::Quantum => "Quantum",
            EncryptionLevel::Alien => "Alien",
            EncryptionLevel::Eldritch => "Eldritch",
        }
    }

    /// Suffix of the per-level theatrical password.
    pub fn password_suffix(&self) -> (r: &'static str)
        ensures
            r@ == spec_password_suffix(*self),
    {
        match self {
            EncryptionLevel::Basic => "_password123",
            EncryptionLevel::Premium => "_premiumpassword!",
            EncryptionLevel::Paranoid => "_they_are_watching",
            EncryptionLevel::Tinfoil => "_5g_cant_penetrate_this",
            EncryptionLevel::Quantum => "_schrodingers_password",
            EncryptionLevel::Alien => "_area51_clearance",
            EncryptionLevel::Eldritch => "_ph_nglui_mglw_nafh",
        }
    }

    /// Label of the level's one-shot achievement.
    pub fn achievement_label(&self) -> (r: &'static str)
        ensures
            r@ == spec_achievement_label(*self),
    {
        match self {
            EncryptionLevel::Basic => "Baby's First Encryption!",
            EncryptionLevel::Premium => "Premium Member!",
            EncryptionLevel::Paranoid => "They're Watching!",
            EncryptionLevel::Tinfoil => "Conspiracy Theorist!",
            EncryptionLevel::Quantum => "Quantum Entangled!",
            EncryptionLevel::Alien => "Area 51 Clearance!",
            EncryptionLevel::Eldritch => "Madness Embraced!",
        }
    }

    /// Theatrical delay owed before a transform at this level, under the
    /// given drama multiplier in percent.
    pub fn delay_ms(&self, drama_percent: u32) -> (r: u64)
        ensures
            r == spec_delay_ms(*self, drama_percent),
    {
        let base = self.base_delay_ms();
        proof {
            assert(base <= 6666);
            assert(base * drama_percent <= 6666 * 0xffff_ffffu64) by (nonlinear_arith)
                requires
                    base <= 6666,
                    drama_percent <= 0xffff_ffffu32,
            ;
        }
        base * (drama_percent as u64) / 100
    }

    /// Resolves a boundary tag to a level, ignoring ASCII case; every
    /// unknown tag falls back to `Basic` by design.
    pub fn from_tag(tag: &str) -> (r: EncryptionLevel)
        ensures
            r == spec_level_from_tag(tag@),
    {
        if str_matches_ci(tag, "premium") {
            EncryptionLevel::Premium
        } else if str_matches_ci(tag, "paranoid") {
            EncryptionLevel::Paranoid
        } else if str_matches_ci(tag, "tinfoil") {
            EncryptionLevel::Tinfoil
        } else if str_matches_ci(tag, "quantum") {
            EncryptionLevel::Quantum
        } else if str_matches_ci(tag, "alien") {
            EncryptionLevel::Alien
        } else if str_matches_ci(tag, "eldritch") {
            EncryptionLevel::Eldritch
        } else {
            EncryptionLevel::Basic
        }
    }
}

} // verus!
