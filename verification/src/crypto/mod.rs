//! Cryptographic primitives: Argon2id key derivation and password
//! verifiers, AES-256-GCM sealing, and randomness.

pub mod cipher;
pub mod kdf;
pub mod password;
