//! The lock descriptor: the immutable (requester, resource) pair submitted
//! with every request.

use vstd::prelude::*;

verus! {

/// An immutable value identifying a (requester, resource) pair. It carries no
/// behavior, is created fresh per request, consumed by exactly one manager
/// operation, and never retained. No validation is performed on the two
/// identifiers: empty or malformed identifiers are accepted as-is.
pub struct Descriptor {
    pub user_id: String,
    pub obj_id: String,
}

impl PartialEq for Descriptor {
    /// Equality is structural: two descriptors are equal exactly when both
    /// identifier fields agree.
    fn eq(&self, other: &Descriptor) -> (r: bool) {
        self.user_id == other.user_id && self.obj_id == other.obj_id
    }
}

impl vstd::std_specs::cmp::PartialEqSpecImpl for Descriptor {
    open spec fn obeys_eq_spec() -> bool {
        true
    }

    open spec fn eq_spec(&self, other: &Descriptor) -> bool {
        self.user_id@ == other.user_id@ && self.obj_id@ == other.obj_id@
    }
}

} // verus!
