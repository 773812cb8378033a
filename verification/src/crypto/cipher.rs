//! AES-256-GCM with 96-bit nonces; ciphertexts carry the 16-byte tag at
//! the end.

use aes_gcm::{
    aead::{Aead, KeyInit},
    Aes256Gcm, Key, Nonce,
};
use rand::RngCore;
use vstd::prelude::*;

use crate::error::{AppError, AppResult};

verus! {

/// Nonce length in bytes.
pub const NONCE_LEN: usize = 12;

/// Authentication tag length in bytes.
pub const TAG_LEN: usize = 16;

/// Largest plaintext AES-GCM accepts (2^36 bytes).
pub const MAX_PLAINTEXT_LEN: u64 = 68719476736;

/// Ciphertext-with-tag of `plaintext` under `key` and `nonce`.
pub uninterp spec fn aes_gcm_seal(key: Seq<u8>, nonce: Seq<u8>, plaintext: Seq<u8>) -> Seq<u8>;

/// Plaintext of `ciphertext` under `key` and `nonce`, `None` when the tag
/// does not authenticate.
pub uninterp spec fn aes_gcm_open(key: Seq<u8>, nonce: Seq<u8>, ciphertext: Seq<u8>) -> Option<
    Seq<u8>,
>;

/// A fresh random nonce (`rand::thread_rng`). Nothing is stated about the value.
#[verifier::external_body]
pub fn generate_nonce() -> [u8; 12] {
    let mut nonce = [0u8; 12];
    rand::thread_rng().fill_bytes(&mut nonce);
    nonce
}

/// Seals `plaintext` (`Aes256Gcm::encrypt`, no associated data). Fails only
/// for plaintexts over 2^36 bytes. The output is the ciphertext followed by
/// the tag, 16 bytes longer than the plaintext, and opening it under the same
/// key and nonce gives the plaintext back.
#[verifier::external_body]
pub fn encrypt(key: &[u8; 32], nonce: &[u8; 12], plaintext: &[u8]) -> (r: AppResult<Vec<u8>>)
    ensures
        r is Ok <==> plaintext@.len() <= MAX_PLAINTEXT_LEN,
        r matches Ok(c) ==> {
            &&& c@ == aes_gcm_seal(key@, nonce@, plaintext@)
            &&& c@.len() == plaintext@.len() + 16
            &&& aes_gcm_open(key@, nonce@, c@) == Some(plaintext@)
        },
        r matches Err(e) ==> e is Crypto,
{
    let cipher = Aes256Gcm::new(Key::<Aes256Gcm>::from_slice(key));
    match cipher.encrypt(Nonce::from_slice(nonce), plaintext) {
        Ok(c) => Ok(c),
        Err(e) => Err(AppError::Crypto(format!("aes-gcm encrypt: {e}"))),
    }
}

/// Opens `ciphertext` (`Aes256Gcm::decrypt`, no associated data).
#[verifier::external_body]
pub fn decrypt(key: &[u8; 32], nonce: &[u8; 12], ciphertext: &[u8]) -> (r: AppResult<Vec<u8>>)
    ensures
        match aes_gcm_open(key@, nonce@, ciphertext@) {
            Some(p) => r matches Ok(v) && v@ == p,
            None => r matches Err(e) && e is Crypto,
        },
{
    let cipher = Aes256Gcm::new(Key::<Aes256Gcm>::from_slice(key));
    match cipher.decrypt(Nonce::from_slice(nonce), ciphertext) {
        Ok(p) => Ok(p),
        Err(e) => Err(AppError::Crypto(format!("aes-gcm decrypt: {e}"))),
    }
}

} // verus!
