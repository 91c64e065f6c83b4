//! The mathematical model of the lock table, and the laws of the
//! acquire/release protocol.
//!
//! The table is a map from requester id to the resource id that requester
//! currently holds; a requester is `LOCKED` exactly when it is a key of the
//! table. Both operations are modelled as total transition functions on the
//! table, so that every contract of the executable manager can be stated as
//! one atomic step of this model.

use vstd::prelude::*;

verus! {

/// The abstract lock table: requester id to currently-held resource id.
pub type LockTable = Map<Seq<char>, Seq<char>>;

/// `acquire` succeeds exactly when the requester holds nothing, that is, when
/// it is not a key of the table.
pub open spec fn acquire_allowed(table: LockTable, requester: Seq<char>) -> bool {
    !table.dom().contains(requester)
}

/// The table after an `acquire` step: the mapping `requester -> resource` is
/// inserted when the step is allowed, and nothing changes when it is not.
pub open spec fn acquire_next(table: LockTable, requester: Seq<char>, resource: Seq<char>) -> LockTable {
    if acquire_allowed(table, requester) {
        table.insert(requester, resource)
    } else {
        table
    }
}

/// `release` succeeds exactly when the requester holds a resource, that is,
/// when it is a key of the table. Only the requester id is consulted: the
/// resource id submitted with the request plays no part.
pub open spec fn release_allowed(table: LockTable, requester: Seq<char>) -> bool {
    table.dom().contains(requester)
}

/// The table after a `release` step: the requester's mapping is removed when
/// the step is allowed, and nothing changes when it is not.
pub open spec fn release_next(table: LockTable, requester: Seq<char>) -> LockTable {
    if release_allowed(table, requester) {
        table.remove(requester)
    } else {
        table
    }
}

/// Mutual exclusion: once an `acquire` for a requester has succeeded, a second
/// `acquire` for the same requester is rejected and leaves the table exactly
/// as the first left it, until a successful `release` intervenes.
pub proof fn lemma_mutual_exclusion(
    table: LockTable,
    requester: Seq<char>,
    first_resource: Seq<char>,
    second_resource: Seq<char>,
)
    requires
        acquire_allowed(table, requester),
    ensures
        !acquire_allowed(acquire_next(table, requester, first_resource), requester),
        acquire_next(acquire_next(table, requester, first_resource), requester, second_resource)
            == acquire_next(table, requester, first_resource),
{
}

/// Symmetry: a successful `acquire` can always be undone by a `release` for
/// the same requester, which succeeds, returns the requester to `UNLOCKED`,
/// and restores the table exactly. The resource id submitted with the release
/// does not appear at all: any resource id may be given.
pub proof fn lemma_symmetry(table: LockTable, requester: Seq<char>, resource: Seq<char>)
    requires
        acquire_allowed(table, requester),
    ensures
        release_allowed(acquire_next(table, requester, resource), requester),
        release_next(acquire_next(table, requester, resource), requester) == table,
        !release_next(acquire_next(table, requester, resource), requester).dom().contains(requester),
{
    assert(release_next(acquire_next(table, requester, resource), requester) =~= table);
}

/// Idempotent failure: while a requester is `LOCKED`, an `acquire` for it
/// changes nothing, so any number of repeated `acquire` calls all fail and
/// leave the table contents identical.
pub proof fn lemma_idempotent_failure(table: LockTable, requester: Seq<char>, resource: Seq<char>)
    requires
        !acquire_allowed(table, requester),
    ensures
        acquire_next(table, requester, resource) == table,
        !acquire_allowed(acquire_next(table, requester, resource), requester),
{
}

/// No ghost locks: a `release` for a requester that holds nothing changes
/// nothing, so any number of repeated `release` calls all fail and leave the
/// table contents identical.
pub proof fn lemma_no_ghost_locks(table: LockTable, requester: Seq<char>)
    requires
        !release_allowed(table, requester),
    ensures
        release_next(table, requester) == table,
        !release_allowed(release_next(table, requester), requester),
{
}

/// Isolation across requesters: an `acquire` or `release` step for one
/// requester never changes whether another requester is locked, nor which
/// resource that other requester holds.
pub proof fn lemma_isolation(
    table: LockTable,
    requester: Seq<char>,
    other: Seq<char>,
    resource: Seq<char>,
)
    requires
        requester != other,
    ensures
        acquire_next(table, requester, resource).dom().contains(other) == table.dom().contains(other),
        table.dom().contains(other) ==> acquire_next(table, requester, resource)[other] == table[other],
        release_next(table, requester).dom().contains(other) == table.dom().contains(other),
        table.dom().contains(other) ==> release_next(table, requester)[other] == table[other],
{
}

} // verus!
