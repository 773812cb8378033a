//! Encrypted blob storage.
//!
//! Each engagement has a 32-byte content key, sealed under the signed-in
//! user's master key as `nonce || ciphertext-with-tag` in the engagement's
//! keychain entry. A blob's ciphertext lives on disk without its tag; nonce
//! and tag are kept in the database, so a bare file on disk authenticates
//! nothing. This module frames and unframes those byte layouts and names
//! the blob files; the database and file system are the caller's.

use vstd::prelude::*;

use crate::codec::{hex_encode_spec, sha256_hex, sha256_spec};
use crate::crypto::cipher::{self, aes_gcm_open, aes_gcm_seal, MAX_PLAINTEXT_LEN};
use crate::crypto::kdf::random_key;
use crate::error::{AppError, AppResult};
use crate::ids::{is_hyphenated_uuid, new_record_id};
use crate::text::{concat2, path_join, path_join_spec};

verus! {

/// Content-key length in bytes.
pub const ENG_KEY_LEN: usize = 32;

/// A blob just written: its id, plaintext size and plaintext SHA-256 (hex).
#[derive(Debug, Clone)]
pub struct WrittenBlob {
    pub id: String,
    pub plaintext_size: i64,
    pub sha256_plaintext: String,
}

/// Ciphertext (stored on disk) and tag (stored in the database) of a blob.
#[derive(Debug, Clone)]
pub struct SealedBlob {
    pub ciphertext: Vec<u8>,
    pub auth_tag: Vec<u8>,
}

/// An ASCII character.
pub open spec fn is_ascii_char(c: char) -> bool {
    (c as u32) < 0x80
}

/// The shard directory of a blob: the first two bytes of its id when they
/// end on a character boundary (`blob_id.get(..2)`), else `00`.
pub open spec fn shard_spec(blob_id: Seq<char>) -> Seq<char> {
    if blob_id.len() >= 2 && is_ascii_char(blob_id[0]) && is_ascii_char(blob_id[1]) {
        blob_id.take(2)
    } else if blob_id.len() >= 1 && 0x80 <= (blob_id[0] as u32) && (blob_id[0] as u32) < 0x800 {
        blob_id.take(1)
    } else {
        "00"@
    }
}

/// `blobs/{engagement}/{shard}/{blob id}.bin`, joined as paths.
pub open spec fn blob_path_spec(engagement_id: Seq<char>, blob_id: Seq<char>) -> Seq<char> {
    path_join_spec(
        path_join_spec(path_join_spec("blobs"@, engagement_id), shard_spec(blob_id)),
        blob_id + ".bin"@,
    )
}

fn shard(blob_id: &str) -> (r: String)
    ensures
        r@ == shard_spec(blob_id@),
{
    let n = blob_id.unicode_len();
    if n >= 2 {
        let c0 = blob_id.get_char(0);
        let c1 = blob_id.get_char(1);
        if (c0 as u32) < 0x80 && (c1 as u32) < 0x80 {
            return blob_id.substring_char(0, 2).to_owned();
        }
    }
    if n >= 1 {
        let c0 = blob_id.get_char(0);
        if 0x80 <= (c0 as u32) && (c0 as u32) < 0x800 {
            return blob_id.substring_char(0, 1).to_owned();
        }
    }
    "00".to_owned()
}

/// Path of a blob file relative to the application data directory.
pub fn relative_blob_path(engagement_id: &str, blob_id: &str) -> (r: String)
    ensures
        r@ == blob_path_spec(engagement_id@, blob_id@),
{
    let a = path_join("blobs", engagement_id);
    let s = shard(blob_id);
    let b = path_join(a.as_str(), s.as_str());
    let file = concat2(blob_id, ".bin");
    path_join(b.as_str(), file.as_str())
}

/// Seals `plaintext` under the engagement key and splits off the 16-byte tag.
pub fn seal_blob(key: &[u8; 32], nonce: &[u8; 12], plaintext: &[u8]) -> (r: AppResult<SealedBlob>)
    ensures
        r is Ok <==> plaintext@.len() <= MAX_PLAINTEXT_LEN,
        r matches Ok(b) ==> b.ciphertext@ + b.auth_tag@ == aes_gcm_seal(key@, nonce@, plaintext@)
            && b.auth_tag@.len() == 16 && b.ciphertext@.len() == plaintext@.len()
            && open_blob_spec(key@, nonce@, b.ciphertext@, b.auth_tag@) == Some(plaintext@),
        r matches Err(e) ==> e is Crypto,
{
    let mut combined = cipher::encrypt(key, nonce, plaintext)?;
    if combined.len() < cipher::TAG_LEN {
        return Err(AppError::Crypto("ciphertext shorter than GCM tag".to_owned()));
    }
    let ghost whole = combined@;
    let tag_start = combined.len() - cipher::TAG_LEN;
    let auth_tag = combined.split_off(tag_start);
    assert(combined@ + auth_tag@ =~= whole);
    Ok(SealedBlob { ciphertext: combined, auth_tag })
}

/// What reading a blob yields from its stored nonce, on-disk ciphertext
/// and tag: `None` for a malformed nonce or tag, or when the tag does not
/// authenticate.
pub open spec fn open_blob_spec(key: Seq<u8>, nonce: Seq<u8>, on_disk: Seq<u8>, tag: Seq<u8>) -> Option<
    Seq<u8>,
> {
    if nonce.len() != 12 || tag.len() != 16 {
        None
    } else {
        aes_gcm_open(key, nonce, on_disk + tag)
    }
}

fn nonce_array(v: &[u8]) -> (r: [u8; 12])
    requires
        v@.len() == 12,
    ensures
        r@ == v@,
{
    let mut a = [0u8; 12];
    let mut i: usize = 0;
    while i < 12
        invariant
            v@.len() == 12,
            a@.len() == 12,
            i <= 12,
            forall|k: int| 0 <= k < i ==> a@[k] == v@[k],
        decreases 12 - i,
    {
        a[i] = v[i];
        i = i + 1;
    }
    assert(a@ =~= v@);
    a
}

fn key_array(v: &[u8]) -> (r: [u8; 32])
    requires
        v@.len() == 32,
    ensures
        r@ == v@,
{
    let mut a = [0u8; 32];
    let mut i: usize = 0;
    while i < 32
        invariant
            v@.len() == 32,
            a@.len() == 32,
            i <= 32,
            forall|k: int| 0 <= k < i ==> a@[k] == v@[k],
        decreases 32 - i,
    {
        a[i] = v[i];
        i = i + 1;
    }
    assert(a@ =~= v@);
    a
}

fn join_bytes(a: &[u8], b: &[u8]) -> (r: Vec<u8>)
    ensures
        r@ == a@ + b@,
{
    let mut v: Vec<u8> = Vec::new();
    let mut i: usize = 0;
    while i < a.len()
        invariant
            i <= a@.len(),
            v@ == a@.subrange(0, i as int),
        decreases a@.len() - i,
    {
        v.push(a[i]);
        i = i + 1;
        assert(v@ =~= a@.subrange(0, i as int));
    }
    let mut j: usize = 0;
    while j < b.len()
        invariant
            i == a@.len(),
            j <= b@.len(),
            v@ == a@ + b@.subrange(0, j as int),
        decreases b@.len() - j,
    {
        v.push(b[j]);
        j = j + 1;
        assert(v@ =~= a@ + b@.subrange(0, j as int));
    }
    assert(b@.subrange(0, b@.len() as int) =~= b@);
    assert(a@.subrange(0, a@.len() as int) =~= a@);
    v
}

/// Decrypts a blob from its stored parts.
pub fn open_blob(key: &[u8; 32], nonce: &[u8], on_disk: &[u8], auth_tag: &[u8]) -> (r: AppResult<Vec<u8>>)
    ensures
        match open_blob_spec(key@, nonce@, on_disk@, auth_tag@) {
            Some(p) => r matches Ok(v) && v@ == p,
            None => r matches Err(e) && e is Crypto,
        },
{
    if nonce.len() != cipher::NONCE_LEN {
        return Err(AppError::Crypto("blob nonce length".to_owned()));
    }
    if auth_tag.len() != cipher::TAG_LEN {
        return Err(AppError::Crypto("blob auth tag length".to_owned()));
    }
    let nonce_arr = nonce_array(nonce);
    let combined = join_bytes(on_disk, auth_tag);
    cipher::decrypt(key, &nonce_arr, combined.as_slice())
}

/// A blob read back with the nonce and tag it was sealed with is the
/// plaintext that was written.
pub proof fn lemma_blob_roundtrip(key: Seq<u8>, nonce: Seq<u8>, plaintext: Seq<u8>, ct: Seq<u8>, tag: Seq<u8>)
    requires
        nonce.len() == 12,
        tag.len() == 16,
        ct + tag == aes_gcm_seal(key, nonce, plaintext),
        aes_gcm_open(key, nonce, aes_gcm_seal(key, nonce, plaintext)) == Some(plaintext),
    ensures
        open_blob_spec(key, nonce, ct, tag) == Some(plaintext),
{
}

/// Seals an engagement content key under the master key:
/// `nonce || ciphertext-with-tag`.
pub fn wrap_engagement_key(master_key: &[u8; 32], wrap_nonce: &[u8; 12], engagement_key: &[u8; 32]) -> (r:
    AppResult<Vec<u8>>)
    ensures
        r matches Ok(w) ==> w@ == wrap_nonce@ + aes_gcm_seal(master_key@, wrap_nonce@, engagement_key@)
            && aes_gcm_seal(master_key@, wrap_nonce@, engagement_key@).len() == 32 + 16
            && aes_gcm_open(master_key@, wrap_nonce@, aes_gcm_seal(master_key@, wrap_nonce@, engagement_key@))
            == Some(engagement_key@),
        r is Ok,
{
    let wrapped = cipher::encrypt(master_key, wrap_nonce, engagement_key)?;
    Ok(join_bytes(wrap_nonce, wrapped.as_slice()))
}

/// What unwrapping a keychain entry yields: the content key, or `None`
/// when the entry is missing, too short, fails to open, or opens to a
/// value that is not 32 bytes.
pub open spec fn unwrap_spec(master_key: Seq<u8>, wrapped: Option<Seq<u8>>) -> Option<Seq<u8>> {
    match wrapped {
        None => None,
        Some(w) => if w.len() < 12 + 32 + 16 {
            None
        } else {
            match aes_gcm_open(master_key, w.take(12), w.skip(12)) {
                Some(k) => if k.len() == 32 {
                    Some(k)
                } else {
                    None
                },
                None => None,
            }
        },
    }
}

/// Opens an engagement content key from its keychain entry.
pub fn unwrap_engagement_key(master_key: &[u8; 32], wrapped: &Option<Vec<u8>>) -> (r: AppResult<[u8; 32]>)
    ensures
        match unwrap_spec(
            master_key@,
            match wrapped {
                Some(w) => Some(w@),
                None => None,
            },
        ) {
            Some(k) => r matches Ok(a) && a@ == k,
            None => r matches Err(e) && e is Crypto,
        },
{
    let blob = match wrapped {
        Some(b) => b,
        None => {
            return Err(AppError::Crypto("keychain entry missing wrapped key".to_owned()));
        },
    };
    if blob.len() < cipher::NONCE_LEN + ENG_KEY_LEN + cipher::TAG_LEN {
        return Err(AppError::Crypto("engagement key blob too short".to_owned()));
    }
    let (head, ct) = blob.as_slice().split_at(cipher::NONCE_LEN);
    let nonce_bytes = nonce_array(head);
    let unwrapped = cipher::decrypt(master_key, &nonce_bytes, ct)?;
    if unwrapped.len() != ENG_KEY_LEN {
        return Err(AppError::Crypto("engagement key length".to_owned()));
    }
    Ok(key_array(unwrapped.as_slice()))
}

/// A content key wrapped under a master key unwraps to itself.
pub proof fn lemma_key_wrap_roundtrip(master_key: Seq<u8>, nonce: Seq<u8>, key: Seq<u8>, wrapped: Seq<u8>)
    requires
        nonce.len() == 12,
        key.len() == 32,
        aes_gcm_seal(master_key, nonce, key).len() == key.len() + 16,
        wrapped == nonce + aes_gcm_seal(master_key, nonce, key),
        aes_gcm_open(master_key, nonce, aes_gcm_seal(master_key, nonce, key)) == Some(key),
    ensures
        unwrap_spec(master_key, Some(wrapped)) == Some(key),
{
    assert(wrapped.take(12) =~= nonce);
    assert(wrapped.skip(12) =~= aes_gcm_seal(master_key, nonce, key));
}

/// Everything a blob write stores, computed before the file and the
/// database row are written.
#[derive(Debug, Clone)]
pub struct BlobWrite {
    /// The new blob's id.
    pub id: String,
    /// Where the ciphertext goes, relative to the application data directory.
    pub relative_path: String,
    /// The nonce the blob was sealed with (kept in the database).
    pub nonce: [u8; 12],
    /// Ciphertext without its tag (kept on disk).
    pub ciphertext: Vec<u8>,
    /// The GCM tag (kept in the database).
    pub auth_tag: Vec<u8>,
    pub plaintext_size: i64,
    /// Lower-case hex SHA-256 of the plaintext.
    pub sha256_plaintext: String,
}

/// Prepares a blob write for `engagement_id`: a fresh blob id and nonce,
/// the plaintext's digest, the sealed bytes split into ciphertext and tag,
/// and the file's relative path.
pub fn prepare_blob_write(engagement_id: &str, engagement_key: &[u8; 32], plaintext: &[u8]) -> (r:
    AppResult<BlobWrite>)
    ensures
        r is Ok <==> plaintext@.len() <= MAX_PLAINTEXT_LEN,
        r matches Ok(w) ==> {
            &&& is_hyphenated_uuid(w.id@)
            &&& w.relative_path@ == blob_path_spec(engagement_id@, w.id@)
            &&& w.ciphertext@ + w.auth_tag@ == aes_gcm_seal(engagement_key@, w.nonce@, plaintext@)
            &&& w.auth_tag@.len() == 16
            &&& w.ciphertext@.len() == plaintext@.len()
            &&& w.plaintext_size == plaintext@.len()
            &&& w.sha256_plaintext@ == hex_encode_spec(sha256_spec(plaintext@))
            &&& open_blob_spec(engagement_key@, w.nonce@, w.ciphertext@, w.auth_tag@) == Some(plaintext@)
        },
        r matches Err(e) ==> e is Crypto,
{
    let sha = sha256_hex(plaintext);
    let nonce = cipher::generate_nonce();
    let sealed = seal_blob(engagement_key, &nonce, plaintext)?;
    let id = new_record_id();
    let relative_path = relative_blob_path(engagement_id, id.as_str());
    let size = plaintext.len() as i64;
    Ok(BlobWrite {
        id,
        relative_path,
        nonce,
        ciphertext: sealed.ciphertext,
        auth_tag: sealed.auth_tag,
        plaintext_size: size,
        sha256_plaintext: sha,
    })
}

/// The engagement content key a blob write uses.
#[derive(Debug, Clone)]
pub enum EngagementKey {
    /// The key already stored in the keychain entry, unwrapped.
    Existing([u8; 32]),
    /// A key generated for the engagement's first blob, and its wrapped form
    /// to store in the keychain entry.
    Fresh { key: [u8; 32], wrapped: Vec<u8> },
}

/// The content key for a blob write: the stored key when the keychain
/// entry holds one, else a fresh random key wrapped under `master_key`.
pub fn resolve_engagement_key(master_key: &[u8; 32], wrapped: &Option<Vec<u8>>) -> (r: AppResult<
    EngagementKey,
>)
    ensures
        match wrapped {
            Some(w) => match unwrap_spec(master_key@, Some(w@)) {
                Some(k) => r matches Ok(EngagementKey::Existing(a)) && a@ == k,
                None => r matches Err(e) && e is Crypto,
            },
            None => r matches Ok(EngagementKey::Fresh { key, wrapped: w }) && w@.len() == 12 + 32 + 16
                && unwrap_spec(master_key@, Some(w@)) == Some(key@),
        },
{
    match wrapped {
        Some(_) => match unwrap_engagement_key(master_key, wrapped) {
            Ok(key) => Ok(EngagementKey::Existing(key)),
            Err(e) => Err(e),
        },
        None => {
            let key = random_key();
            let nonce = cipher::generate_nonce();
            let w = match wrap_engagement_key(master_key, &nonce, &key) {
                Ok(w) => w,
                Err(e) => {
                    return Err(e);
                },
            };
            proof {
                lemma_key_wrap_roundtrip(master_key@, nonce@, key@, w@);
            }
            Ok(EngagementKey::Fresh { key, wrapped: w })
        },
    }
}

} // verus!
