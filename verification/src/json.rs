//! Reading control fields out of a text frame. A text payload is treated as
//! structured data when it parses as a JSON value; the relay only ever looks
//! at top-level string fields of that value.

use vstd::prelude::*;

verus! {

/// The top-level string field stored under `key` in the JSON value that
/// `text` parses to: absent when `text` does not parse, when the parsed
/// value is not an object, when the object has no such field, or when the
/// field is not a string.
pub uninterp spec fn json_str_field(text: Seq<char>, key: Seq<char>) -> Option<Seq<char>>;

/// Relies on serde_json::from_str and serde_json::Value::{get, as_str}:
/// which top-level string field a text carries under a key is a function of
/// the text and the key alone. Parse failures and missing or non-string
/// fields all come back as absent, exactly as `json_str_field` has it.
#[verifier::external_body]
pub(crate) fn lookup_json_str_field(text: &str, key: &str) -> (r: Option<String>)
    ensures
        r.deep_view() == json_str_field(text@, key@),
{
    match serde_json::from_str::<serde_json::Value>(text) {
        Ok(value) => match value.get(key) {
            Some(field) => match field.as_str() {
                Some(s) => Some(s.to_string()),
                None => None,
            },
            None => None,
        },
        Err(_) => None,
    }
}

} // verus!
