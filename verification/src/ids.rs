//! Fresh identifier generation.
//!
//! Session and request ids that the client did not supply are generated
//! here. Nothing is assumed of the random value beyond its printed shape.
use vstd::prelude::*;

verus! {

/// Relies on `uuid::Uuid::new_v4` and its `Display` impl: a random
/// version-4 UUID prints as 36 hyphenated lowercase-hex ASCII characters.
/// The value itself is random; no two calls are related.
#[verifier::external_body]
pub fn fresh_id() -> (r: String)
    ensures
        r@.len() == 36,
{
    uuid::Uuid::new_v4().to_string()
}

} // verus!
