//! Fresh opaque identifiers for persisted entities.

use vstd::prelude::*;

verus! {

/// Relies on uuid's `Uuid::new_v4` and its `Display` form: a fresh random
/// version-4 UUID rendered hyphenated, which is always 36 characters long.
/// The value itself is random, so nothing more is promised of it.
#[verifier::external_body]
pub(crate) fn new_id() -> (r: String)
    ensures
        r@.len() == 36,
{
    uuid::Uuid::new_v4().to_string()
}

} // verus!
