use vstd::prelude::*;

verus! {

/// Identity of every syntax entity: the 128 bits of a random (version 4) UUID.
pub type Id = u128;

/// Relies on `uuid::Uuid::new_v4` and `Uuid::as_u128`: a fresh random
/// identifier. Nothing is promised of its value.
#[verifier::external_body]
pub(crate) fn fresh_id() -> (r: Id) {
    uuid::Uuid::new_v4().as_u128()
}

} // verus!
