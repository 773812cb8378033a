//! Audit-trail records written next to every new row: one change-log entry
//! per field set at creation, its new value JSON-encoded.

use vstd::prelude::*;

use crate::codec::{encode_json_string, json_encode_string};

verus! {

/// A field set when a row is created, with its JSON-encoded value.
#[derive(Debug, Clone)]
pub struct CreatedField {
    pub field_name: String,
    pub new_value_json: String,
}

/// The view of a created field: its name and the string value it encodes.
pub open spec fn created_view(f: CreatedField) -> (Seq<char>, Seq<char>) {
    (f.field_name@, f.new_value_json@)
}

/// Views of a list of created fields.
pub open spec fn created_views(v: Seq<CreatedField>) -> Seq<(Seq<char>, Seq<char>)> {
    v.map_values(|f: CreatedField| created_view(f))
}

/// The change-log entry of a string field `name` set to `value`.
pub open spec fn entry(name: Seq<char>, value: Seq<char>) -> (Seq<char>, Seq<char>) {
    (name, json_encode_string(value))
}

/// The entry for field `name` newly set to `value`.
pub fn created_field(name: &str, value: &str) -> (r: CreatedField)
    ensures
        created_view(r) == entry(name@, value@),
{
    CreatedField { field_name: name.to_owned(), new_value_json: encode_json_string(value) }
}

/// Appends an entry to a change list.
pub fn push_field(out: &mut Vec<CreatedField>, name: &str, value: &str)
    ensures
        created_views(final(out)@) == created_views(old(out)@).push(entry(name@, value@)),
{
    let ghost before = out@;
    out.push(created_field(name, value));
    assert(created_views(out@) =~= created_views(before).push(entry(name@, value@)));
}

} // verus!
