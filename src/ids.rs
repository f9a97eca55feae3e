//! Fresh identifiers.
use vstd::prelude::*;

verus! {

/// Relies on uuid's `Uuid::new_v4` and its hyphenated `to_string`: a random
/// identifier written as 36 characters. Nothing is promised of its value.
/// It panics only when the operating system cannot supply random bytes.
#[verifier::external_body]
pub(crate) fn new_id() -> (r: String)
    ensures
        r@.len() == 36,
{
    uuid::Uuid::new_v4().to_string()
}

} // verus!
