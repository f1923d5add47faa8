//! Error kinds surfaced by the engine.

use vstd::prelude::*;

verus! {

/// Every failure the engine can report.
///
/// `KeyDerivation` and `Cipher` are fatal and unreachable under correct
/// operation of the underlying primitives; `InvalidInput` reports a request
/// the engine refuses outright (an empty participant list).
#[derive(Debug, Clone, Copy, PartialEq, Eq, Structural)]
pub enum TheaterError {
    KeyDerivation,
    Cipher,
    InvalidInput,
}

impl TheaterError {
    /// A short human-readable description of the error.
    pub fn describe(&self) -> (r: &'static str)
        ensures
            self is KeyDerivation ==> r@ == "key derivation failed"@,
            self is Cipher ==> r@ == "encryption failed"@,
            self is InvalidInput ==> r@ == "invalid input"@,
    {
        match self {
            TheaterError::KeyDerivation => "key derivation failed",
            TheaterError::Cipher => "encryption failed",
            TheaterError::InvalidInput => "invalid input",
        }
    }
}

} // verus!
