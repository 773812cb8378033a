//! Password verifiers in the PHC string format (Argon2id, default parameters).

use argon2::{
    password_hash::{PasswordHash, PasswordHasher, PasswordVerifier, SaltString},
    Argon2,
};
use rand::rngs::OsRng;
use vstd::prelude::*;

use crate::error::{AppError, AppResult};

verus! {

/// What verifying `password` against the PHC string `phc` yields:
/// `None` when `phc` does not parse, otherwise whether the password matches.
pub uninterp spec fn argon2_verify_spec(password: Seq<char>, phc: Seq<char>) -> Option<bool>;

/// Whether the password's UTF-8 bytes fit Argon2's limit (`MAX_PWD_LEN`).
pub open spec fn password_len_ok(password: Seq<char>) -> bool {
    vstd::utf8::encode_utf8(password).len() <= 0xFFFF_FFFF
}

/// Hashes `password` with a fresh random salt (`Argon2::hash_password` with
/// `SaltString::generate(&mut OsRng)`), returning the PHC string. The hash
/// fails only when the password's UTF-8 bytes exceed `MAX_PWD_LEN`
/// (`Argon2::verify_inputs`); the generated 16-byte salt, the default output
/// length and the default parameters are always accepted. The salt is random,
/// so only this is stated of the string: verifying the same password against
/// it succeeds (verification recomputes the hash with the salt and parameters
/// recorded in the string).
#[verifier::external_body]
pub fn hash(password: &str) -> (r: AppResult<String>)
    ensures
        r is Ok <==> password_len_ok(password@),
        r matches Ok(h) ==> argon2_verify_spec(password@, h@) == Some(true),
        r matches Err(e) ==> e is Crypto,
{
    let salt = SaltString::generate(&mut OsRng);
    match Argon2::default().hash_password(password.as_bytes(), &salt) {
        Ok(h) => Ok(h.to_string()),
        Err(e) => Err(AppError::Crypto(format!("argon2 hash: {e}"))),
    }
}

/// Verifies `password` against the PHC string `phc`
/// (`PasswordHash::new` then `Argon2::verify_password`).
#[verifier::external_body]
pub fn verify(password: &str, phc: &str) -> (r: AppResult<bool>)
    ensures
        match argon2_verify_spec(password@, phc@) {
            Some(b) => r == Ok::<bool, AppError>(b),
            None => r matches Err(e) && e is Crypto,
        },
{
    match PasswordHash::new(phc) {
        Ok(parsed) => Ok(Argon2::default().verify_password(password.as_bytes(), &parsed).is_ok()),
        Err(e) => Err(AppError::Crypto(format!("argon2 parse: {e}"))),
    }
}

} // verus!
