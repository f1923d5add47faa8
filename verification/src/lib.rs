//! Theatrical data-protection engine.
//!
//! The library implements a tiered "data protection" pipeline: a key is
//! derived from a per-user, per-level password with PBKDF2, the payload is
//! run through a level-dependent composition of byte transforms and
//! ChaCha20-Poly1305 encryption, and the caller gets back the final blob
//! together with the ordered list of theatrical artifacts the level
//! produced.  Beside the pipeline stand a destruction scheduler, which
//! builds a deferred "funeral" record for a set of data ids, and a race
//! simulator that ranks participants by a randomized finish time.
//!
//! Nothing here is a security claim: the levels are a public composition
//! contract (which transforms run, in what order, with which artifacts),
//! and the contracts below state exactly that.

pub mod cipher;
pub mod errors;
pub mod funeral;
pub mod levels;
pub mod numtext;
pub mod outside;
pub mod race;
pub mod theater;

pub use errors::TheaterError;
pub use levels::EncryptionLevel;
pub use theater::DataTheater;
pub use theater::EncryptionResult;
pub use funeral::FuneralType;
pub use funeral::FuneralSchedule;
pub use race::encryption_race;
pub use race::RaceParticipant;
pub use race::RaceResult;
pub use race::RaceResults;
