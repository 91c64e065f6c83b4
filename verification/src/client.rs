//! The client adapter: the thin calling layer in front of the lock manager.
//!
//! It turns a requester id and a resource id into a lock descriptor and
//! forwards it to the manager, reporting back exactly what the manager
//! decided.

use vstd::prelude::*;

use crate::descriptors::Descriptor;
use crate::errors::LockServiceErrors;
use crate::service::LockService;
use crate::table::{acquire_allowed, acquire_next, release_allowed, release_next, LockTable};

verus! {

pub fn add(left: usize, right: usize) -> (sum: usize)
    requires
        left + right <= usize::MAX,
    ensures
        sum == left + right,
{
    left + right
}

/// A client handle over its own lock manager. Each request builds a fresh
/// descriptor and forwards it; the manager's verdict is returned unchanged.
pub struct LockClient {
    lock_service: LockService,
}

impl View for LockClient {
    type V = LockTable;

    closed spec fn view(&self) -> LockTable {
        self.lock_service@
    }
}

impl LockClient {
    /// Returns a client over a fresh manager with an empty lock table.
    pub fn new() -> (client: LockClient)
        ensures
            client@ == Map::<Seq<char>, Seq<char>>::empty(),
    {
        LockClient { lock_service: LockService::new() }
    }

    /// Acquires a lock for `user_id` on `object_id`: fails with
    /// `ObjectAlreadyLocked` when the requester already holds a resource, and
    /// otherwise records the new holding and succeeds.
    pub fn acquire(&mut self, user_id: String, object_id: String) -> (result: Result<
        (),
        LockServiceErrors,
    >)
        ensures
            final(self)@ == acquire_next(old(self)@, user_id@, object_id@),
            acquire_allowed(old(self)@, user_id@) ==> result == Ok::<(), LockServiceErrors>(()),
            !acquire_allowed(old(self)@, user_id@) ==> result == Err::<(), LockServiceErrors>(
                LockServiceErrors::ObjectAlreadyLocked,
            ),
    {
        let desc = new_descriptor(user_id, object_id);
        self.lock_service.acquire(desc)
    }

    /// Releases the lock held by `user_id`: fails with `ObjectNotLocked` when
    /// the requester holds nothing, and otherwise removes the holding and
    /// succeeds. `object_id` is accepted but not checked against the stored
    /// resource id.
    pub fn release(&mut self, user_id: String, object_id: String) -> (result: Result<
        (),
        LockServiceErrors,
    >)
        ensures
            final(self)@ == release_next(old(self)@, user_id@),
            release_allowed(old(self)@, user_id@) ==> result == Ok::<(), LockServiceErrors>(()),
            !release_allowed(old(self)@, user_id@) ==> result == Err::<(), LockServiceErrors>(
                LockServiceErrors::ObjectNotLocked,
            ),
    {
        let desc = new_descriptor(user_id, object_id);
        self.lock_service.release(desc)
    }
}

/// Builds the immutable descriptor submitted with one request.
pub fn new_descriptor(user_id: String, obj_id: String) -> (descriptor: Descriptor)
    ensures
        descriptor.user_id == user_id,
        descriptor.obj_id == obj_id,
{
    Descriptor { user_id, obj_id }
}

} // verus!
