//! Random identifiers for drinks, ambiences and timers.
use vstd::prelude::*;

verus! {

#[verifier::external_type_specification]
#[verifier::external_body]
pub struct ExUuid(uuid::Uuid);

/// Relies on the `Clone` that `uuid::Uuid` derives beside `Copy`: the clone
/// is the same identifier.
pub assume_specification[ <uuid::Uuid as core::clone::Clone>::clone ](u: &uuid::Uuid) -> (r: uuid::Uuid)
    ensures
        r == *u,
;

/// Relies on uuid::Uuid::new_v4: a fresh random identifier. Nothing is
/// promised about its value.
#[verifier::external_body]
pub(crate) fn fresh_id() -> uuid::Uuid {
    uuid::Uuid::new_v4()
}

} // verus!
