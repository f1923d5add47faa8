use defuscrypt::cipher::{basic_encrypt, derive_key};

#[test]
fn derive_key_is_deterministic() {
    let salt = [7u8; 32];
    let k1 = derive_key("user_1_password123", &salt).unwrap();
    let k2 = derive_key("user_1_password123", &salt).unwrap();
    assert_eq!(k1, k2);
}

#[test]
fn different_salts_give_different_keys() {
    let k1 = derive_key("user_1_password123", &[1u8; 32]).unwrap();
    let k2 = derive_key("user_1_password123", &[2u8; 32]).unwrap();
    assert_ne!(k1, k2);
    assert_ne!(k1, [1u8; 32], "the key is derived, not the salt handed back");
}

#[test]
fn encrypt_never_repeats_salt_or_nonce() {
    let b1 = basic_encrypt("attack at dawn", "user_9_password123").unwrap();
    let b2 = basic_encrypt("attack at dawn", "user_9_password123").unwrap();
    assert_ne!(&b1[0..32], &b2[0..32], "salts must be fresh per call");
    assert_ne!(&b1[32..44], &b2[32..44], "nonces must be fresh per call");
}

#[test]
fn blob_layout_has_salt_nonce_and_tagged_ciphertext() {
    let plaintext = "hello";
    let blob = basic_encrypt(plaintext, "pw").unwrap();
    assert_eq!(blob.len(), 32 + 12 + plaintext.len() + 16);
}
