//! Identities of the principals and targets the relay deals with.
//!
//! On the host every principal is an opaque account hash and every target an
//! opaque contract hash; the relay only ever compares them for equality and
//! uses them as lookup keys.  The model therefore carries each identity as a
//! plain integer id.

use vstd::prelude::*;

verus! {

/// An account-like identity: an end user, the administrator, or any owner of
/// prepaid balance.
#[derive(Clone, Copy, PartialEq, Eq, Structural, Debug)]
pub struct Principal {
    pub id: u64,
}

/// The identity of a callable target registered with the relay.
#[derive(Clone, Copy, PartialEq, Eq, Structural, Debug)]
pub struct TargetId {
    pub id: u64,
}

impl Principal {
    pub fn new(id: u64) -> (r: Principal)
        ensures
            r.id == id,
    {
        Principal { id }
    }
}

impl TargetId {
    pub fn new(id: u64) -> (r: TargetId)
        ensures
            r.id == id,
    {
        TargetId { id }
    }
}

} // verus!
