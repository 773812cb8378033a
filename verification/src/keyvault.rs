//! The password-protected identity vault (`identity.json`).
//!
//! Each user credential holds an Argon2id verifier for the password and the
//! random 256-bit master key sealed (AES-256-GCM) under a key derived from
//! the password. Reading and writing the file is done by the caller; this
//! module builds credentials, checks the file version, looks users up and
//! unlocks the master key.

use vstd::prelude::*;

use crate::codec::{hex_decode, hex_decode_spec, hex_encode, hex_encode_spec, lemma_hex_roundtrip};
use crate::crypto::cipher::{self, aes_gcm_open};
use crate::crypto::kdf::{self, argon2id_kdf, kdf_inputs_ok};
use crate::crypto::password::{self, argon2_verify_spec};
use crate::error::{message_of, AppError, AppResult};
use crate::text::{concat2, decimal_spec, eq_ignore_ascii_case, eq_ignore_ascii_case_spec, path_join, path_join_spec};

verus! {

/// File-format version this build reads and writes.
pub const CURRENT_VERSION: u32 = 1;

/// Master key length in bytes.
pub const MASTER_KEY_LEN: usize = 32;

/// KEK salt length in bytes.
pub const SALT_LEN: usize = 16;

/// The identity file.
#[derive(Debug)]
pub struct Identity {
    pub version: u32,
    pub users: Vec<UserCredential>,
}

/// Login material of one user. Binary fields are lower-case hex.
#[derive(Debug, Clone)]
pub struct UserCredential {
    pub user_id: String,
    pub firm_id: String,
    pub email: String,
    pub display_name: String,
    pub argon2_hash: String,
    pub kek_salt: String,
    pub mk_nonce: String,
    pub mk_wrapped: String,
}

/// Name of the identity file inside the application data directory.
pub open spec fn identity_file_name() -> Seq<char> {
    "identity.json"@
}

/// Path of the identity file inside `app_data_dir`.
pub fn path(app_data_dir: &str) -> (r: String)
    ensures
        r@ == path_join_spec(app_data_dir@, identity_file_name()),
{
    path_join(app_data_dir, "identity.json")
}

/// The first user whose email equals `email` ignoring ASCII case.
pub open spec fn first_match(users: Seq<UserCredential>, email: Seq<char>) -> Option<int> {
    if exists|i: int| 0 <= i < users.len() && eq_ignore_ascii_case_spec(#[trigger] users[i].email@, email) {
        Some(
            choose|i: int|
                0 <= i < users.len() && eq_ignore_ascii_case_spec(#[trigger] users[i].email@, email)
                    && forall|j: int|
                    0 <= j < i ==> !eq_ignore_ascii_case_spec(#[trigger] users[j].email@, email),
        )
    } else {
        None
    }
}

/// Finds the credential whose email matches `email`, ignoring ASCII case;
/// the first such credential when several match.
pub fn find_by_email<'a>(identity: &'a Identity, email: &str) -> (r: Option<&'a UserCredential>)
    ensures
        match r {
            Some(c) => exists|i: int|
                0 <= i < identity.users@.len() && identity.users@[i] == *c
                    && eq_ignore_ascii_case_spec(c.email@, email@) && forall|j: int|
                    0 <= j < i ==> !eq_ignore_ascii_case_spec(
                        #[trigger] identity.users@[j].email@,
                        email@,
                    ),
            None => forall|i: int|
                0 <= i < identity.users@.len() ==> !eq_ignore_ascii_case_spec(
                    #[trigger] identity.users@[i].email@,
                    email@,
                ),
        },
{
    let users = &identity.users;
    let mut i: usize = 0;
    while i < users.len()
        invariant
            i <= users@.len(),
            *users == identity.users,
            forall|j: int| 0 <= j < i ==> !eq_ignore_ascii_case_spec(#[trigger] users@[j].email@, email@),
        decreases users@.len() - i,
    {
        if eq_ignore_ascii_case(users[i].email.as_str(), email) {
            return Some(&users[i]);
        }
        i = i + 1;
    }
    None
}

/// Rejects an identity file written by another format version.
pub fn check_version(identity: Identity) -> (r: AppResult<Identity>)
    ensures
        identity.version == CURRENT_VERSION ==> r == Ok::<Identity, AppError>(identity),
        identity.version != CURRENT_VERSION ==> (r matches Err(e) && e is Message && message_of(e)
            == "unsupported identity file version "@ + decimal_spec(identity.version as nat)),
{
    if identity.version != CURRENT_VERSION {
        let msg = concat2(
            "unsupported identity file version ",
            crate::text::decimal(identity.version as u64).as_str(),
        );
        return Err(AppError::Message(msg));
    }
    Ok(identity)
}

fn array32(v: &[u8]) -> (r: Option<[u8; 32]>)
    ensures
        r is Some <==> v@.len() == 32,
        r matches Some(a) ==> a@ == v@,
{
    if v.len() != 32 {
        return None;
    }
    let mut a = [0u8; 32];
    let mut i: usize = 0;
    while i < 32
        invariant
            v@.len() == 32,
            a@.len() == 32,
            i <= 32,
            forall|k: int| 0 <= k < i ==> a@[k] == v@[k],
        decreases 32 - i,
    {
        a[i] = v[i];
        i = i + 1;
    }
    assert(a@ =~= v@);
    Some(a)
}

fn array16(v: &[u8]) -> (r: Option<[u8; 16]>)
    ensures
        r is Some <==> v@.len() == 16,
        r matches Some(a) ==> a@ == v@,
{
    if v.len() != 16 {
        return None;
    }
    let mut a = [0u8; 16];
    let mut i: usize = 0;
    while i < 16
        invariant
            v@.len() == 16,
            a@.len() == 16,
            i <= 16,
            forall|k: int| 0 <= k < i ==> a@[k] == v@[k],
        decreases 16 - i,
    {
        a[i] = v[i];
        i = i + 1;
    }
    assert(a@ =~= v@);
    Some(a)
}

fn array12(v: &[u8]) -> (r: Option<[u8; 12]>)
    ensures
        r is Some <==> v@.len() == 12,
        r matches Some(a) ==> a@ == v@,
{
    if v.len() != 12 {
        return None;
    }
    let mut a = [0u8; 12];
    let mut i: usize = 0;
    while i < 12
        invariant
            v@.len() == 12,
            a@.len() == 12,
            i <= 12,
            forall|k: int| 0 <= k < i ==> a@[k] == v@[k],
        decreases 12 - i,
    {
        a[i] = v[i];
        i = i + 1;
    }
    assert(a@ =~= v@);
    Some(a)
}

/// What unlocking `cred` with `password` yields: the master key, or the
/// kind of error.
pub enum UnlockOutcome {
    Key(Seq<u8>),
    /// The PHC verifier does not parse, the hex fields are malformed or of the
    /// wrong length, key derivation fails, or the sealed key does not open.
    CryptoError,
    /// The password does not match the verifier.
    WrongPassword,
}

pub open spec fn unlock_spec(cred: UserCredential, password: Seq<char>) -> UnlockOutcome {
    match argon2_verify_spec(password, cred.argon2_hash@) {
        None => UnlockOutcome::CryptoError,
        Some(false) => UnlockOutcome::WrongPassword,
        Some(true) => match (
            hex_decode_spec(cred.kek_salt@),
            hex_decode_spec(cred.mk_nonce@),
            hex_decode_spec(cred.mk_wrapped@),
        ) {
            (Some(salt), Some(nonce), Some(wrapped)) => {
                let pw = vstd::utf8::encode_utf8(password);
                if salt.len() != 16 || nonce.len() != 12 || !kdf_inputs_ok(pw, salt) {
                    UnlockOutcome::CryptoError
                } else {
                    match aes_gcm_open(argon2id_kdf(pw, salt), nonce, wrapped) {
                        Some(mk) => if mk.len() == 32 {
                            UnlockOutcome::Key(mk)
                        } else {
                            UnlockOutcome::CryptoError
                        },
                        None => UnlockOutcome::CryptoError,
                    }
                }
            },
            _ => UnlockOutcome::CryptoError,
        },
    }
}

/// The crypto error unlocking reports once the password has matched, by the
/// first check that fails, in this order: the salt's hex and length, the
/// nonce's hex and length, the sealed key's hex, key derivation, opening the
/// sealed key, the opened key's length. For a hex field the message starts
/// with the given text and goes on with the decoder's own description; a
/// failed key derivation carries the derivation's own text, so it has no entry
/// here (`None`), nor has a successful unlock.
pub open spec fn unlock_error_stage(cred: UserCredential, password: Seq<char>) -> Option<Seq<char>> {
    let pw = vstd::utf8::encode_utf8(password);
    match hex_decode_spec(cred.kek_salt@) {
        None => Some("kek_salt hex: "@),
        Some(salt) => if salt.len() != 16 {
            Some("kek_salt length"@)
        } else {
            match hex_decode_spec(cred.mk_nonce@) {
                None => Some("mk_nonce hex: "@),
                Some(nonce) => if nonce.len() != 12 {
                    Some("mk_nonce length"@)
                } else {
                    match hex_decode_spec(cred.mk_wrapped@) {
                        None => Some("mk_wrapped hex: "@),
                        Some(wrapped) => if !kdf_inputs_ok(pw, salt) {
                            None
                        } else {
                            match aes_gcm_open(argon2id_kdf(pw, salt), nonce, wrapped) {
                                None => Some("identity file integrity check failed"@),
                                Some(mk) => if mk.len() != 32 {
                                    Some("master key length"@)
                                } else {
                                    None
                                },
                            }
                        },
                    }
                },
            }
        },
    }
}

fn crypto_err(msg: &str) -> (e: AppError)
    ensures
        e is Crypto,
        message_of(e) == msg@,
        msg@.is_prefix_of(message_of(e)),
{
    let e = AppError::Crypto(msg.to_owned());
    assert(msg@ =~= message_of(e).subrange(0, msg@.len() as int));
    e
}

fn crypto_err2(prefix: &str, detail: String) -> (e: AppError)
    ensures
        e is Crypto,
        message_of(e) == prefix@ + detail@,
        prefix@.is_prefix_of(message_of(e)),
{
    let e = AppError::Crypto(concat2(prefix, detail.as_str()));
    assert(prefix@ =~= message_of(e).subrange(0, prefix@.len() as int));
    e
}

/// Verifies the password against the stored verifier, then re-derives the
/// key-encryption key and opens the sealed master key.
pub fn unlock(credential: &UserCredential, password_input: &str) -> (r: AppResult<[u8; 32]>)
    ensures
        match unlock_spec(*credential, password_input@) {
            UnlockOutcome::Key(mk) => r matches Ok(k) && k@ == mk,
            UnlockOutcome::CryptoError => r matches Err(e) && e is Crypto,
            UnlockOutcome::WrongPassword => r matches Err(e) && e is Unauthorised && message_of(e)
                == "invalid email or password"@,
        },
        argon2_verify_spec(password_input@, credential.argon2_hash@) == Some(true) ==> match unlock_error_stage(
            *credential,
            password_input@,
        ) {
            Some(m) => r matches Err(e) && e is Crypto && m.is_prefix_of(message_of(e)),
            None => true,
        },
{
    let ok = password::verify(password_input, credential.argon2_hash.as_str())?;
    if !ok {
        return Err(AppError::Unauthorised("invalid email or password".to_owned()));
    }
    let kek_salt_bytes = match hex_decode(credential.kek_salt.as_str()) {
        Ok(v) => v,
        Err(e) => {
            return Err(crypto_err2("kek_salt hex: ", e));
        },
    };
    let kek_salt = match array16(kek_salt_bytes.as_slice()) {
        Some(a) => a,
        None => {
            return Err(crypto_err("kek_salt length"));
        },
    };
    let mk_nonce_bytes = match hex_decode(credential.mk_nonce.as_str()) {
        Ok(v) => v,
        Err(e) => {
            return Err(crypto_err2("mk_nonce hex: ", e));
        },
    };
    let mk_nonce = match array12(mk_nonce_bytes.as_slice()) {
        Some(a) => a,
        None => {
            return Err(crypto_err("mk_nonce length"));
        },
    };
    let mk_wrapped = match hex_decode(credential.mk_wrapped.as_str()) {
        Ok(v) => v,
        Err(e) => {
            return Err(crypto_err2("mk_wrapped hex: ", e));
        },
    };
    let mut kek = [0u8; 32];
    kdf::derive_key(password_input.as_bytes(), &kek_salt, &mut kek)?;
    let mk_bytes = match cipher::decrypt(&kek, &mk_nonce, mk_wrapped.as_slice()) {
        Ok(v) => v,
        Err(_) => {
            return Err(crypto_err("identity file integrity check failed"));
        },
    };
    match array32(mk_bytes.as_slice()) {
        Some(mk) => Ok(mk),
        None => Err(crypto_err("master key length")),
    }
}

/// The credential built for a new user from its parts.
pub open spec fn credential_spec(
    c: UserCredential,
    user_id: Seq<char>,
    firm_id: Seq<char>,
    email: Seq<char>,
    display_name: Seq<char>,
    argon2_hash: Seq<char>,
    kek_salt: Seq<u8>,
    mk_nonce: Seq<u8>,
    mk_wrapped: Seq<u8>,
) -> bool {
    &&& c.user_id@ == user_id
    &&& c.firm_id@ == firm_id
    &&& c.email@ == email
    &&& c.display_name@ == display_name
    &&& c.argon2_hash@ == argon2_hash
    &&& c.kek_salt@ == hex_encode_spec(kek_salt)
    &&& c.mk_nonce@ == hex_encode_spec(mk_nonce)
    &&& c.mk_wrapped@ == hex_encode_spec(mk_wrapped)
}

/// Generates a fresh identity with one user and returns it with the random
/// master key. The credential records the inputs, and unlocking it with the
/// same password gives the master key back. It fails, with a crypto error,
/// exactly when the password is longer than Argon2 accepts.
pub fn create_first_user(
    user_id: &str,
    firm_id: &str,
    email: &str,
    display_name: &str,
    password_input: &str,
) -> (r: AppResult<(Identity, [u8; 32])>)
    ensures
        r matches Ok((id, mk)) ==> {
            &&& id.version == CURRENT_VERSION
            &&& id.users@.len() == 1
            &&& id.users@[0].user_id@ == user_id@
            &&& id.users@[0].firm_id@ == firm_id@
            &&& id.users@[0].email@ == email@
            &&& id.users@[0].display_name@ == display_name@
            &&& unlock_spec(id.users@[0], password_input@) == UnlockOutcome::Key(mk@)
        },
        r is Ok <==> password::password_len_ok(password_input@),
        r matches Err(e) ==> e is Crypto,
{
    let argon2_hash = match password::hash(password_input) {
        Ok(h) => h,
        Err(e) => {
            return Err(e);
        },
    };
    let master_key = kdf::random_key();
    let kek_salt = kdf::random_salt();
    let mut kek = [0u8; 32];
    let pw_bytes = password_input.as_bytes();
    proof {
        assert(kek_salt@.len() == 16);
        assert(pw_bytes@ == vstd::utf8::encode_utf8(password_input@));
    }
    match kdf::derive_key(pw_bytes, &kek_salt, &mut kek) {
        Ok(()) => {},
        Err(e) => {
            return Err(e);
        },
    }
    let mk_nonce = cipher::generate_nonce();
    proof {
        assert(master_key@.len() == 32);
    }
    let mk_wrapped = match cipher::encrypt(&kek, &mk_nonce, &master_key) {
        Ok(c) => c,
        Err(e) => {
            return Err(e);
        },
    };
    let cred = UserCredential {
        user_id: user_id.to_owned(),
        firm_id: firm_id.to_owned(),
        email: email.to_owned(),
        display_name: display_name.to_owned(),
        argon2_hash,
        kek_salt: hex_encode(&kek_salt),
        mk_nonce: hex_encode(&mk_nonce),
        mk_wrapped: hex_encode(mk_wrapped.as_slice()),
    };
    proof {
        lemma_hex_roundtrip(kek_salt@);
        lemma_hex_roundtrip(mk_nonce@);
        lemma_hex_roundtrip(mk_wrapped@);
    }
    let mut users: Vec<UserCredential> = Vec::new();
    users.push(cred);
    Ok((Identity { version: CURRENT_VERSION, users }, master_key))
}

/// A field-by-field copy of a credential.
pub fn copy_credential(c: &UserCredential) -> (r: UserCredential)
    ensures
        r == *c,
{
    UserCredential {
        user_id: c.user_id.clone(),
        firm_id: c.firm_id.clone(),
        email: c.email.clone(),
        display_name: c.display_name.clone(),
        argon2_hash: c.argon2_hash.clone(),
        kek_salt: c.kek_salt.clone(),
        mk_nonce: c.mk_nonce.clone(),
        mk_wrapped: c.mk_wrapped.clone(),
    }
}

/// Signs in against the identity file: finds the user by email (ignoring
/// ASCII case, first match) and unlocks the master key with the password.
/// An unknown email and a wrong password get the same answer.
pub fn sign_in(identity: &Identity, email: &str, password_input: &str) -> (r: AppResult<(UserCredential, [u8; 32])>)
    ensures
        match first_match(identity.users@, email@) {
            None => r matches Err(e) && e is Unauthorised && message_of(e) == "invalid email or password"@,
            Some(i) => match unlock_spec(identity.users@[i], password_input@) {
                UnlockOutcome::Key(mk) => r matches Ok((c, k)) && c == identity.users@[i] && k@ == mk,
                UnlockOutcome::CryptoError => r matches Err(e) && e is Crypto,
                UnlockOutcome::WrongPassword => r matches Err(e) && e is Unauthorised && message_of(e)
                    == "invalid email or password"@,
            },
        },
{
    let found = find_by_email(identity, email);
    let credential = match found {
        Some(c) => copy_credential(c),
        None => {
            proof {
                assert(!exists|i: int|
                    0 <= i < identity.users@.len() && eq_ignore_ascii_case_spec(
                        #[trigger] identity.users@[i].email@,
                        email@,
                    ));
            }
            return Err(AppError::Unauthorised("invalid email or password".to_owned()));
        },
    };
    proof {
        let users = identity.users@;
        let i = choose|i: int|
            0 <= i < users.len() && users[i] == credential && eq_ignore_ascii_case_spec(credential.email@, email@)
                && forall|j: int| 0 <= j < i ==> !eq_ignore_ascii_case_spec(#[trigger] users[j].email@, email@);
        assert(users[i] == credential);
        assert(eq_ignore_ascii_case_spec(users[i].email@, email@));
        assert(exists|x: int| 0 <= x < users.len() && eq_ignore_ascii_case_spec(#[trigger] users[x].email@, email@));
        let k = choose|x: int|
            0 <= x < users.len() && eq_ignore_ascii_case_spec(#[trigger] users[x].email@, email@) && forall|j: int|
                0 <= j < x ==> !eq_ignore_ascii_case_spec(#[trigger] users[j].email@, email@);
        assert(0 <= i < users.len() && eq_ignore_ascii_case_spec(users[i].email@, email@) && forall|j: int|
            0 <= j < i ==> !eq_ignore_ascii_case_spec(#[trigger] users[j].email@, email@));
        assert(first_match(users, email@) == Some(k));
        if k < i {
            assert(!eq_ignore_ascii_case_spec(users[k].email@, email@));
        }
        if i < k {
            assert(!eq_ignore_ascii_case_spec(users[i].email@, email@));
        }
        assert(k == i);
    }
    let mk = unlock(&credential, password_input)?;
    Ok((credential, mk))
}

/// A user who has just been created signs in with the same email (in any
/// ASCII case) and password and gets back the master key the creation
/// returned.
pub proof fn lemma_created_user_signs_in(identity: Identity, email: Seq<char>, password: Seq<char>, mk: Seq<u8>)
    requires
        identity.users@.len() == 1,
        unlock_spec(identity.users@[0], password) == UnlockOutcome::Key(mk),
        eq_ignore_ascii_case_spec(identity.users@[0].email@, email),
    ensures
        first_match(identity.users@, email) == Some(0int),
        unlock_spec(identity.users@[first_match(identity.users@, email)->0], password) == UnlockOutcome::Key(mk),
{
    let users = identity.users@;
    assert(0 <= 0int < users.len() && eq_ignore_ascii_case_spec(users[0].email@, email) && forall|j: int|
        0 <= j < 0 ==> !eq_ignore_ascii_case_spec(#[trigger] users[j].email@, email));
    assert(exists|x: int| 0 <= x < users.len() && eq_ignore_ascii_case_spec(#[trigger] users[x].email@, email));
}

} // verus!
