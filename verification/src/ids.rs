//! Entity identifiers.
//!
//! Every record of the system (user, profile, tenant, product, cart,
//! cart item, token, orchestrator) is keyed by a 128-bit identifier, the
//! library's view of a UUID. Fresh identifiers come from the `uuid` crate
//! through a trusted wrapper; the rest of the library treats them as plain
//! numbers.

use vstd::prelude::*;

verus! {

/// A 128-bit entity identifier, the library's view of a UUID.
#[derive(Debug, Clone, Copy, PartialEq, Eq, Structural, Hash)]
pub struct Id(pub u128);

impl Id {
    /// The nil identifier (all bits zero), used where a record carries no
    /// real reference.
    pub fn nil() -> (r: Id)
        ensures
            r == (Id(0)),
    {
        Id(0)
    }
}

/// Relies on uuid::Uuid::new_v4: a fresh random version-4 UUID, returned
/// as its 128-bit value. Nothing is promised of the result.
#[verifier::external_body]
pub fn fresh_id() -> Id {
    Id(uuid::Uuid::new_v4().as_u128())
}

} // verus!
