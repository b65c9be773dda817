//! Generated connection identifiers.

use vstd::prelude::*;

verus! {

/// Relies on uuid::Uuid::new_v4 and its Display form: a freshly drawn
/// random version-4 identifier, rendered as 36 hyphenated hexadecimal
/// characters. Freshness rests on randomness, so nothing beyond the
/// rendered length is promised of any one call.
#[verifier::external_body]
pub(crate) fn fresh_generated_id() -> (r: String)
    ensures
        r@.len() == 36,
{
    uuid::Uuid::new_v4().to_string()
}

} // verus!
