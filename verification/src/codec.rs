//! Encodings used by the library: JSON string arrays (serde_json), hex
//! (the `hex` crate) and SHA-256 (the `sha2` crate).

use sha2::Digest;
use vstd::prelude::*;

verus! {

// ---------------------------------------------------------------------------
// JSON string arrays
// ---------------------------------------------------------------------------

/// What `serde_json::from_str::<Vec<String>>` yields for `text`: `None` when
/// `text` is not a JSON array of strings.
pub uninterp spec fn json_string_array(text: Seq<char>) -> Option<Seq<Seq<char>>>;

/// What `serde_json::to_string` produces for a list of strings.
pub uninterp spec fn json_encode_string_array(items: Seq<Seq<char>>) -> Seq<char>;

/// Views of a list of strings.
pub open spec fn string_views(v: Seq<String>) -> Seq<Seq<char>> {
    v.map_values(|s: String| s@)
}

/// Parses `text` as a JSON array of strings (`serde_json::from_str`).
#[verifier::external_body]
pub(crate) fn parse_json_string_array(text: &str) -> (r: Option<Vec<String>>)
    ensures
        match r {
            Some(v) => json_string_array(text@) == Some(string_views(v@)),
            None => json_string_array(text@) is None,
        },
{
    serde_json::from_str::<Vec<String>>(text).ok()
}

/// Serialises a list of strings as a JSON array (`serde_json::to_string`).
/// Serialising `Vec<String>` into memory has no failing path in serde_json
/// (strings are escaped, the writer is a `Vec<u8>`), so the error arm is
/// unreachable.
#[verifier::external_body]
pub(crate) fn encode_json_string_array(items: &Vec<String>) -> (r: String)
    ensures
        r@ == json_encode_string_array(string_views(items@)),
{
    match serde_json::to_string(items) {
        Ok(s) => s,
        Err(_) => String::new(),
    }
}

/// What `serde_json::to_string` produces for one string (a JSON string literal).
pub uninterp spec fn json_encode_string(s: Seq<char>) -> Seq<char>;

/// Encodes one string as a JSON string literal (`serde_json::to_string`).
/// Serialising a `str` into memory has no failing path in serde_json.
#[verifier::external_body]
pub(crate) fn encode_json_string(s: &str) -> (r: String)
    ensures
        r@ == json_encode_string(s@),
{
    match serde_json::to_string(s) {
        Ok(v) => v,
        Err(_) => String::new(),
    }
}

/// The list an optional JSON column decodes to: empty when the column is
/// NULL, empty or not a JSON array of strings (`unwrap_or_default`).
pub open spec fn string_array_or_empty(json: Option<Seq<char>>) -> Seq<Seq<char>> {
    match json {
        Some(t) => match json_string_array(t) {
            Some(v) => v,
            None => Seq::empty(),
        },
        None => Seq::empty(),
    }
}

/// Decodes an optional JSON string-array column, defaulting to empty.
pub fn parse_string_array(json: &Option<String>) -> (r: Vec<String>)
    ensures
        string_views(r@) == string_array_or_empty(
            match json {
                Some(s) => Some(s@),
                None => None,
            },
        ),
{
    match json {
        Some(s) => match parse_json_string_array(s.as_str()) {
            Some(v) => v,
            None => {
                let v: Vec<String> = Vec::new();
                assert(string_views(v@) =~= Seq::<Seq<char>>::empty());
                v
            },
        },
        None => {
            let v: Vec<String> = Vec::new();
            assert(string_views(v@) =~= Seq::<Seq<char>>::empty());
            v
        },
    }
}

// ---------------------------------------------------------------------------
// Hex
// ---------------------------------------------------------------------------

/// Lower-case hex digit for a nibble.
pub open spec fn hex_digit(n: int) -> char {
    if n < 10 {
        (('0' as u32) + n) as char
    } else {
        (('a' as u32) + n - 10) as char
    }
}

/// Lower-case hex encoding (what `hex::encode` returns).
pub open spec fn hex_encode_spec(bytes: Seq<u8>) -> Seq<char>
    decreases bytes.len(),
{
    if bytes.len() == 0 {
        Seq::empty()
    } else {
        hex_encode_spec(bytes.drop_last()) + seq![
            hex_digit(bytes.last() as int / 16),
            hex_digit(bytes.last() as int % 16),
        ]
    }
}

/// Value of a hex digit (either case), `None` for any other character.
pub open spec fn hex_value(c: char) -> Option<int> {
    if '0' <= c && c <= '9' {
        Some(c as int - '0' as int)
    } else if 'a' <= c && c <= 'f' {
        Some(c as int - 'a' as int + 10)
    } else if 'A' <= c && c <= 'F' {
        Some(c as int - 'A' as int + 10)
    } else {
        None
    }
}

/// Hex decoding (what `hex::decode` returns): `None` on odd length or on a
/// character that is not a hex digit.
pub open spec fn hex_decode_spec(s: Seq<char>) -> Option<Seq<u8>>
    decreases s.len(),
{
    if s.len() % 2 != 0 {
        None
    } else if s.len() == 0 {
        Some(Seq::empty())
    } else {
        let n = s.len() as int;
        match (hex_decode_spec(s.subrange(0, n - 2)), hex_value(s[n - 2]), hex_value(s[n - 1])) {
            (Some(prefix), Some(hi), Some(lo)) => Some(prefix.push((hi * 16 + lo) as u8)),
            _ => None,
        }
    }
}

/// `hex::encode`.
#[verifier::external_body]
pub(crate) fn hex_encode(bytes: &[u8]) -> (r: String)
    ensures
        r@ == hex_encode_spec(bytes@),
{
    hex::encode(bytes)
}

/// `hex::decode`; the error is returned as its display text.
#[verifier::external_body]
pub(crate) fn hex_decode(s: &str) -> (r: Result<Vec<u8>, String>)
    ensures
        match hex_decode_spec(s@) {
            Some(b) => r matches Ok(v) && v@ == b,
            None => r is Err,
        },
{
    match hex::decode(s) {
        Ok(v) => Ok(v),
        Err(e) => Err(e.to_string()),
    }
}

proof fn lemma_hex_digit_value(n: int)
    requires
        0 <= n < 16,
    ensures
        hex_value(hex_digit(n)) == Some(n),
{
}

/// Decoding the encoding of `bytes` gives `bytes` back.
pub proof fn lemma_hex_roundtrip(bytes: Seq<u8>)
    ensures
        hex_decode_spec(hex_encode_spec(bytes)) == Some(bytes),
    decreases bytes.len(),
{
    if bytes.len() > 0 {
        let prefix = bytes.drop_last();
        lemma_hex_roundtrip(prefix);
        let b = bytes.last();
        lemma_hex_digit_value(b as int / 16);
        lemma_hex_digit_value(b as int % 16);
        lemma_hex_encode_len(prefix);
        let e = hex_encode_spec(bytes);
        let n = e.len() as int;
        assert(e.subrange(0, n - 2) =~= hex_encode_spec(prefix));
        assert(((b / 16) * 16 + b % 16) as u8 == b);
        assert(prefix.push(b) =~= bytes);
    }
}

/// The encoding has two characters per byte.
pub proof fn lemma_hex_encode_len(bytes: Seq<u8>)
    ensures
        hex_encode_spec(bytes).len() == 2 * bytes.len(),
    decreases bytes.len(),
{
    if bytes.len() > 0 {
        lemma_hex_encode_len(bytes.drop_last());
    }
}

// ---------------------------------------------------------------------------
// SHA-256
// ---------------------------------------------------------------------------

/// The SHA-256 digest of `data` (FIPS 180-4).
pub uninterp spec fn sha256_spec(data: Seq<u8>) -> Seq<u8>;

/// SHA-256 of `data` (`sha2::Sha256::digest`), always 32 bytes.
#[verifier::external_body]
pub(crate) fn sha256(data: &[u8]) -> (r: Vec<u8>)
    ensures
        r@ == sha256_spec(data@),
        r@.len() == 32,
{
    sha2::Sha256::digest(data).to_vec()
}

/// Lower-case hex SHA-256 of `data`, the form stored next to every blob.
pub fn sha256_hex(data: &[u8]) -> (r: String)
    ensures
        r@ == hex_encode_spec(sha256_spec(data@)),
        r@.len() == 64,
{
    let d = sha256(data);
    proof {
        lemma_hex_encode_len(d@);
    }
    hex_encode(d.as_slice())
}

} // verus!
