//! The key-derivation and authenticated-cipher units: a password and a
//! fresh random salt become a 32-byte key, and a plaintext becomes one
//! cipher blob laid out as `salt (32 bytes) ‖ nonce (12 bytes) ‖
//! ciphertext+tag`.

use vstd::prelude::*;
use vstd::string::*;
use crate::errors::TheaterError;
use crate::outside::{aead_seal, chacha_encrypt, pbkdf2_derive, pbkdf2_key, random_bytes};

verus! {

/// The cipher blob for a password and message under a given salt and
/// nonce: the salt, then the nonce, then the AEAD ciphertext with tag
/// under the key PBKDF2 derives from the password and that salt.
pub open spec fn spec_cipher_blob(
    password: Seq<char>,
    msg: Seq<u8>,
    salt: Seq<u8>,
    nonce: Seq<u8>,
) -> Seq<u8> {
    salt + nonce + aead_seal(pbkdf2_key(password, salt), nonce, msg)
}

/// Whether `blob` is a well-formed cipher blob for this password and
/// message under some 32-byte salt and 12-byte nonce.  The salt and nonce
/// are drawn fresh on every call, so a caller learns only their lengths.
pub open spec fn is_cipher_blob_for(password: Seq<char>, msg: Seq<u8>, blob: Seq<u8>) -> bool {
    exists|salt: Seq<u8>, nonce: Seq<u8>|
        salt.len() == 32 && nonce.len() == 12 && blob == spec_cipher_blob(
            password,
            msg,
            salt,
            nonce,
        )
}

/// Derives the 32-byte symmetric key for a password and salt.
///
/// Deterministic: the result is exactly `pbkdf2_key(password, salt)`, so
/// two calls with identical inputs yield identical keys.  For the unit's
/// own 32-byte salts success is owed outright; the only error is
/// `KeyDerivationError`, unreachable under correct operation of the
/// underlying hash.
pub fn derive_key(password: &str, salt: &[u8]) -> (r: Result<[u8; 32], TheaterError>)
    ensures
        r matches Ok(k) ==> k@ == pbkdf2_key(password@, salt@),
        r matches Err(e) ==> e == TheaterError::KeyDerivation,
        salt@.len() == 32 ==> r is Ok,
{
    match pbkdf2_derive(password, salt) {
        Some(k) => Ok(k),
        None => Err(TheaterError::KeyDerivation),
    }
}

/// Law: key derivation is deterministic.  Two successful `derive_key`
/// calls with the same password and salt return the same 32-byte key,
/// since each result is exactly `pbkdf2_key` of the inputs.
pub proof fn law_derive_key_deterministic(
    password: Seq<char>,
    salt: Seq<u8>,
    k1: Seq<u8>,
    k2: Seq<u8>,
)
    requires
        k1 == pbkdf2_key(password, salt),
        k2 == pbkdf2_key(password, salt),
    ensures
        k1 == k2,
{
}

/// Encrypts one plaintext blob under a password: a fresh 32-byte random
/// salt, the key derived from it, a fresh 12-byte random nonce, and the
/// AEAD ciphertext, concatenated as `salt ‖ nonce ‖ ciphertext+tag`.
///
/// On success the blob is a well-formed cipher blob for the password and
/// the plaintext's UTF-8 bytes, and its length is the plaintext's byte
/// length plus 60 (32 salt + 12 nonce + 16 tag).  Success is owed for
/// every plaintext short of the cipher's limit of 2^32 - 1 blocks of 64
/// bytes; the errors are `KeyDerivationError` and `CipherError`, both
/// unreachable under correct operation of the primitives.
pub fn basic_encrypt(data: &str, password: &str) -> (r: Result<Vec<u8>, TheaterError>)
    ensures
        r matches Ok(blob) ==> is_cipher_blob_for(password@, data.spec_bytes(), blob@),
        r matches Ok(blob) ==> blob@.len() == data.spec_bytes().len() + 60,
        r matches Err(e) ==> e == TheaterError::KeyDerivation || e == TheaterError::Cipher,
        data.spec_bytes().len() < 0x3F_FFFF_FFC0 ==> r is Ok,
{
    let mut salt = random_bytes(32);
    let key = match derive_key(password, salt.as_slice()) {
        Ok(k) => k,
        Err(e) => {
            return Err(e);
        },
    };
    let mut nonce = random_bytes(12);
    let mut ct = match chacha_encrypt(&key, nonce.as_slice(), data.as_bytes()) {
        Some(c) => c,
        None => {
            return Err(TheaterError::Cipher);
        },
    };
    let ghost salt_seq = salt@;
    let ghost nonce_seq = nonce@;
    let mut blob: Vec<u8> = Vec::new();
    blob.append(&mut salt);
    blob.append(&mut nonce);
    blob.append(&mut ct);
    proof {
        assert(blob@ == spec_cipher_blob(password@, data.spec_bytes(), salt_seq, nonce_seq));
    }
    Ok(blob)
}

} // verus!
