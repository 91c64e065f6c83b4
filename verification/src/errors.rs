//! The closed set of failures the lock manager can report.

use vstd::prelude::*;

verus! {

/// Every failure of the lock manager, as a closed enumeration: `acquire`
/// reports `ObjectAlreadyLocked` when the requester already holds a resource,
/// and `release` reports `ObjectNotLocked` when the requester holds none.
/// Both are ordinary, recoverable business outcomes, not defects.
#[derive(Clone, Copy, Debug, PartialEq, Eq, Structural)]
pub enum LockServiceErrors {
    ObjectAlreadyLocked,
    ObjectNotLocked,
}

impl LockServiceErrors {
    /// A human-readable description of the failure.
    pub fn message(&self) -> (msg: &'static str)
        ensures
            *self is ObjectAlreadyLocked ==> msg@ == "This object has already been locked"@,
            *self is ObjectNotLocked ==> msg@ == "This object was not locked before"@,
    {
        match self {
            LockServiceErrors::ObjectAlreadyLocked => "This object has already been locked",
            LockServiceErrors::ObjectNotLocked => "This object was not locked before",
        }
    }
}

} // verus!
