//! Password-based key derivation (Argon2id, reference parameters).

use argon2::{Algorithm, Argon2, Params, Version};
use rand::RngCore;
use vstd::prelude::*;

use crate::error::{AppError, AppResult};

verus! {

/// The 32-byte key Argon2id (m=19456 KiB, t=2, p=1, version 0x13) derives
/// from `password` and `salt`.
pub uninterp spec fn argon2id_kdf(password: Seq<u8>, salt: Seq<u8>) -> Seq<u8>;

/// When `argon2::Argon2::hash_password_into` accepts its inputs: the
/// password and salt length limits it checks before hashing.
pub open spec fn kdf_inputs_ok(password: Seq<u8>, salt: Seq<u8>) -> bool {
    &&& password.len() <= 0xFFFF_FFFF
    &&& 8 <= salt.len() <= 0xFFFF_FFFF
}

/// Derives a 32-byte key from `password` and `salt` into `out`
/// (`Argon2::hash_password_into` with `Params::default()`). Succeeds exactly
/// when the input lengths are within Argon2's limits; the key then equals
/// [`argon2id_kdf`] of the inputs.
#[verifier::external_body]
pub fn derive_key(password: &[u8], salt: &[u8], out: &mut [u8; 32]) -> (r: AppResult<()>)
    ensures
        r is Ok <==> kdf_inputs_ok(password@, salt@),
        r is Ok ==> final(out)@ == argon2id_kdf(password@, salt@),
        r matches Err(e) ==> e is Crypto,
{
    let argon = Argon2::new(Algorithm::Argon2id, Version::V0x13, Params::default());
    match argon.hash_password_into(password, salt, out) {
        Ok(()) => Ok(()),
        Err(e) => Err(AppError::Crypto(format!("argon2id: {e}"))),
    }
}

/// Sixteen random bytes from the thread-local CSPRNG (`rand::thread_rng`).
/// Nothing is stated about the value.
#[verifier::external_body]
pub fn random_salt() -> [u8; 16] {
    let mut salt = [0u8; 16];
    rand::thread_rng().fill_bytes(&mut salt);
    salt
}

/// Thirty-two random bytes from the thread-local CSPRNG (`rand::thread_rng`).
/// Nothing is stated about the value.
#[verifier::external_body]
pub(crate) fn random_key() -> [u8; 32] {
    let mut key = [0u8; 32];
    rand::thread_rng().fill_bytes(&mut key);
    key
}

} // verus!
