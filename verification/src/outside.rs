//! The engine's window onto the outside crates: key derivation, the AEAD
//! cipher, base64 encoding, randomness and the clock.  Each function here
//! is a thin trusted wrapper whose contract states only what the called
//! crate's source and documentation promise; everything built on top of
//! them is verified against these contracts.

use vstd::prelude::*;
use chacha20poly1305::aead::{Aead, KeyInit};
use chacha20poly1305::ChaCha20Poly1305;
use pbkdf2::password_hash::{PasswordHasher, SaltString};
use pbkdf2::Pbkdf2;
use rand::rngs::OsRng;
use rand::{Rng, RngCore};

verus! {

/// The 32-byte key PBKDF2-HMAC-SHA256 derives, at 600 000 rounds, from a
/// password and the raw salt bytes (carried to the hasher base64-encoded
/// and decoded back unchanged).  A function of the password and the salt
/// alone.
pub uninterp spec fn pbkdf2_key(password: Seq<char>, salt: Seq<u8>) -> Seq<u8>;

/// Relies on `pbkdf2::Pbkdf2::hash_password_customized` (with
/// `SaltString::encode_b64` for the salt): 600 000 rounds of
/// PBKDF2-HMAC-SHA256 with a 32-byte output, deterministic in the password
/// and salt.  For a 32-byte salt every step succeeds: its base64 form is
/// 43 characters, within the 64 the salt buffer admits, the requested
/// output length 32 lies in the hasher's accepted 10..=64, and the PBKDF2
/// loop itself is total.
#[verifier::external_body]
pub(crate) fn pbkdf2_derive(password: &str, salt: &[u8]) -> (r: Option<[u8; 32]>)
    ensures
        r matches Some(k) ==> k@ == pbkdf2_key(password@, salt@),
        salt@.len() == 32 ==> r is Some,
{
    let salt_string = SaltString::encode_b64(salt).ok()?;
    let params = pbkdf2::Params { rounds: 600_000, output_length: 32 };
    let hash = Pbkdf2
        .hash_password_customized(password.as_bytes(), None, None, params, &salt_string)
        .ok()?;
    let output = hash.hash?;
    let key: [u8; 32] = output.as_bytes().get(0..32)?.try_into().ok()?;
    Some(key)
}

/// The ciphertext-with-tag that ChaCha20-Poly1305 produces for a key,
/// nonce and message.  A function of those three values alone.
pub uninterp spec fn aead_seal(key: Seq<u8>, nonce: Seq<u8>, msg: Seq<u8>) -> Seq<u8>;

/// Relies on `chacha20poly1305::ChaCha20Poly1305`'s `Aead::encrypt`:
/// deterministic in key, nonce and message, and the returned buffer is the
/// ciphertext with the 16-byte Poly1305 tag appended.  Encryption refuses
/// only a message that reaches 2^32 - 1 blocks of 64 bytes, so every
/// shorter message succeeds.
#[verifier::external_body]
pub(crate) fn chacha_encrypt(key: &[u8; 32], nonce: &[u8], msg: &[u8]) -> (r: Option<Vec<u8>>)
    requires
        nonce@.len() == 12,
    ensures
        r matches Some(ct) ==> ct@ == aead_seal(key@, nonce@, msg@) && ct@.len() == msg@.len()
            + 16,
        msg@.len() < 0x3F_FFFF_FFC0 ==> r is Some,
{
    let cipher = ChaCha20Poly1305::new(&chacha20poly1305::Key::from(*key));
    cipher.encrypt(chacha20poly1305::Nonce::from_slice(nonce), msg).ok()
}

/// The standard padded base64 rendering of a byte sequence.  A function of
/// the bytes alone.
pub uninterp spec fn b64_of(bytes: Seq<u8>) -> Seq<char>;

/// Relies on `base64::encode`: the standard alphabet with padding, so the
/// output length is four characters for every started group of three
/// bytes, and an empty input encodes to an empty string.
#[verifier::external_body]
pub(crate) fn base64_encode(data: &[u8]) -> (r: String)
    ensures
        r@ == b64_of(data@),
        r@.len() == 4 * ((data@.len() + 2) / 3),
{
    base64::encode(data)
}

/// Relies on `rand::rngs::OsRng`'s `RngCore::fill_bytes`: fills the buffer
/// from the operating system's secure generator.  Nothing is promised of
/// the values.
#[verifier::external_body]
pub(crate) fn random_bytes(n: usize) -> (r: Vec<u8>)
    ensures
        r@.len() == n,
{
    let mut buf = vec![0u8; n];
    OsRng.fill_bytes(&mut buf);
    buf
}

/// Relies on `rand::Rng::gen_range` on `OsRng`: a value uniform in the
/// half-open range.  The range must be non-empty, since `gen_range` panics
/// on an empty one.
#[verifier::external_body]
pub(crate) fn rand_range_u64(lo: u64, hi: u64) -> (r: u64)
    requires
        lo < hi,
    ensures
        lo <= r < hi,
{
    OsRng.gen_range(lo..hi)
}

/// Relies on `rand::RngCore::next_u32` on `OsRng`.  Nothing is promised of
/// the value.
#[verifier::external_body]
pub(crate) fn random_u32() -> (r: u32) {
    OsRng.next_u32()
}

/// Relies on `std::time::SystemTime::now`: milliseconds since the Unix
/// epoch, or zero if the clock reads before the epoch.  Nothing is
/// promised of the value.
#[verifier::external_body]
pub(crate) fn now_unix_ms() -> (r: u64) {
    match std::time::SystemTime::now().duration_since(std::time::UNIX_EPOCH) {
        Ok(d) => d.as_millis() as u64,
        Err(_) => 0,
    }
}

} // verus!
