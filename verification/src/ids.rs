//! Record identifiers: time-ordered UUIDv7 strings.

use uuid::Uuid;
use vstd::prelude::*;

verus! {

/// A lower-case hexadecimal digit.
pub open spec fn is_lower_hex(c: char) -> bool {
    ('0' <= c && c <= '9') || ('a' <= c && c <= 'f')
}

/// The hyphenated lower-case UUID shape `xxxxxxxx-xxxx-xxxx-xxxx-xxxxxxxxxxxx`.
pub open spec fn is_hyphenated_uuid(s: Seq<char>) -> bool {
    &&& s.len() == 36
    &&& forall|i: int|
        0 <= i < 36 ==> if i == 8 || i == 13 || i == 18 || i == 23 {
            s[i] == '-'
        } else {
            is_lower_hex(#[trigger] s[i])
        }
}

/// A fresh UUIDv7 (`Uuid::now_v7`) in its `Display` form, which the uuid
/// crate writes as 36 hyphenated lower-case hex characters. The value comes
/// from the clock and a random source: only its shape is stated, not that
/// it differs from earlier ids.
#[verifier::external_body]
pub(crate) fn new_record_id() -> (r: String)
    ensures
        is_hyphenated_uuid(r@),
{
    Uuid::now_v7().to_string()
}

} // verus!
