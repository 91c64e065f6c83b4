//! The lock manager: the sole authority over lock state.
//!
//! The manager owns the lock table and exposes `acquire` and `release`, each
//! an atomic check-then-mutate step. Exclusive access to the table is the
//! `&mut self` borrow itself: while one operation runs, no other caller can
//! observe or mutate the table, so check and mutation form one unit and no
//! intermediate state is ever visible.

use vstd::prelude::*;

use crate::descriptors::Descriptor;
use crate::errors::LockServiceErrors;
use crate::table::{acquire_allowed, acquire_next, release_allowed, release_next, LockTable};

verus! {

pub fn add(left: usize, right: usize) -> (sum: usize)
    requires
        left + right <= usize::MAX,
    ensures
        sum == left + right,
{
    left + right
}

/// One entry of the concrete lock table: a requester id paired with the
/// resource id that requester currently holds.
type Entry = (String, String);

/// Whether some entry carries the given requester id.
spec fn has_key(entries: Seq<Entry>, requester: Seq<char>) -> bool {
    exists|i: int| 0 <= i < entries.len() && entries[i].0@ == requester
}

/// The index of the entry carrying the given requester id (meaningful only
/// when `has_key` holds; unique when the keys are distinct).
spec fn key_index(entries: Seq<Entry>, requester: Seq<char>) -> int {
    choose|i: int| 0 <= i < entries.len() && entries[i].0@ == requester
}

/// No requester id occurs in two entries.
spec fn unique_keys(entries: Seq<Entry>) -> bool {
    forall|i: int, j: int| 0 <= i < j < entries.len() ==> entries[i].0@ != entries[j].0@
}

/// The abstract lock table denoted by a sequence of entries.
spec fn table_of(entries: Seq<Entry>) -> LockTable {
    Map::new(
        |requester: Seq<char>| has_key(entries, requester),
        |requester: Seq<char>| entries[key_index(entries, requester)].1@,
    )
}

/// Appending an entry with a fresh key denotes exactly an insertion into the
/// abstract table.
proof fn lemma_table_of_push(entries: Seq<Entry>, entry: Entry)
    requires
        unique_keys(entries),
        !has_key(entries, entry.0@),
    ensures
        unique_keys(entries.push(entry)),
        table_of(entries.push(entry)) == table_of(entries).insert(entry.0@, entry.1@),
{
    let grown = entries.push(entry);
    let n = entries.len() as int;
    assert forall|i: int, j: int| 0 <= i < j < grown.len() implies grown[i].0@ != grown[j].0@ by {
        if j == n {
            if entries[i].0@ == entry.0@ {
                assert(has_key(entries, entry.0@));
            }
        }
    }
    assert forall|k: Seq<char>| #[trigger] has_key(entries, k) implies has_key(grown, k) by {
        let i = key_index(entries, k);
        assert(0 <= i < n && entries[i].0@ == k);
        assert(grown[i].0@ == k);
    }
    assert(has_key(grown, entry.0@)) by {
        assert(grown[n].0@ == entry.0@);
    }
    assert forall|k: Seq<char>| #[trigger] has_key(grown, k) implies has_key(entries, k) || k
        == entry.0@ by {
        let i = key_index(grown, k);
        assert(0 <= i < grown.len() && grown[i].0@ == k);
        if i < n {
            assert(entries[i].0@ == k);
        }
    }
    assert forall|k: Seq<char>| has_key(entries, k) && k != entry.0@ implies table_of(grown)[k]
        == table_of(entries)[k] by {
        let gi = key_index(grown, k);
        assert(0 <= gi < grown.len() && grown[gi].0@ == k);
        assert(gi != n);
        let ei = key_index(entries, k);
        assert(0 <= ei < n && entries[ei].0@ == k);
        assert(grown[ei].0@ == k);
        if gi < ei {
            assert(grown[gi].0@ != grown[ei].0@);
        }
        if ei < gi {
            assert(grown[ei].0@ != grown[gi].0@);
        }
        assert(gi == ei);
        assert(table_of(grown)[k] == grown[gi].1@);
        assert(table_of(entries)[k] == entries[ei].1@);
    }
    assert(table_of(grown)[entry.0@] == entry.1@) by {
        let gi = key_index(grown, entry.0@);
        assert(0 <= gi < grown.len() && grown[gi].0@ == entry.0@);
        if gi < n {
            assert(entries[gi].0@ == entry.0@);
            assert(has_key(entries, entry.0@));
        }
        assert(gi == n);
    }
    assert(table_of(grown) =~= table_of(entries).insert(entry.0@, entry.1@));
}

/// Removing the entry at a given index denotes exactly the removal of its key
/// from the abstract table.
proof fn lemma_table_of_remove(entries: Seq<Entry>, at: int)
    requires
        unique_keys(entries),
        0 <= at < entries.len(),
    ensures
        unique_keys(entries.remove(at)),
        table_of(entries.remove(at)) == table_of(entries).remove(entries[at].0@),
{
    let shrunk = entries.remove(at);
    let n = entries.len() as int;
    let key = entries[at].0@;
    assert(shrunk.len() == n - 1);
    assert forall|j: int| 0 <= j < shrunk.len() implies shrunk[j] == (if j < at {
        entries[j]
    } else {
        entries[j + 1]
    }) by {}
    assert forall|i: int, j: int| 0 <= i < j < shrunk.len() implies shrunk[i].0@ != shrunk[j].0@ by {
        let oi: int = if i < at { i } else { i + 1 };
        let oj: int = if j < at { j } else { j + 1 };
        assert(entries[oi].0@ != entries[oj].0@);
    }
    assert forall|k: Seq<char>| #[trigger] has_key(shrunk, k) implies has_key(entries, k) && k
        != key by {
        let i = key_index(shrunk, k);
        assert(0 <= i < shrunk.len() && shrunk[i].0@ == k);
        let oi: int = if i < at { i } else { i + 1 };
        assert(entries[oi].0@ == k);
        if oi < at {
            assert(entries[oi].0@ != entries[at].0@);
        }
        if at < oi {
            assert(entries[at].0@ != entries[oi].0@);
        }
    }
    assert forall|k: Seq<char>| has_key(entries, k) && k != key implies #[trigger] has_key(
        shrunk,
        k,
    ) by {
        let oi = key_index(entries, k);
        assert(0 <= oi < n && entries[oi].0@ == k);
        assert(oi != at);
        let i: int = if oi < at { oi } else { oi - 1 };
        assert(shrunk[i].0@ == k);
    }
    assert forall|k: Seq<char>| has_key(shrunk, k) implies table_of(shrunk)[k] == table_of(
        entries,
    )[k] by {
        let i = key_index(shrunk, k);
        assert(0 <= i < shrunk.len() && shrunk[i].0@ == k);
        let oi: int = if i < at { i } else { i + 1 };
        assert(entries[oi].0@ == k);
        let ei = key_index(entries, k);
        assert(0 <= ei < n && entries[ei].0@ == k);
        if oi < ei {
            assert(entries[oi].0@ != entries[ei].0@);
        }
        if ei < oi {
            assert(entries[ei].0@ != entries[oi].0@);
        }
        assert(oi == ei);
        assert(table_of(shrunk)[k] == shrunk[i].1@);
        assert(table_of(entries)[k] == entries[ei].1@);
    }
    assert(table_of(shrunk) =~= table_of(entries).remove(key));
}

/// The lock manager. It owns the lock table: a mapping from requester id to
/// the single resource id that requester currently holds, where a requester
/// is locked exactly when it is a key. The table is created empty, mutated
/// only by `acquire` (insert) and `release` (remove), and never exposed raw.
pub struct LockService {
    lock_map: Vec<Entry>,
}

impl View for LockService {
    type V = LockTable;

    closed spec fn view(&self) -> LockTable {
        table_of(self.lock_map@)
    }
}

impl LockService {
    /// Representation invariant: no requester id occurs in two entries, so
    /// the entry sequence denotes its abstract table faithfully.
    #[verifier::type_invariant]
    spec fn wf(&self) -> bool {
        unique_keys(self.lock_map@)
    }

    /// Returns a fresh manager with an empty lock table.
    pub fn new() -> (service: LockService)
        ensures
            service@ == Map::<Seq<char>, Seq<char>>::empty(),
    {
        let service = LockService { lock_map: Vec::new() };
        proof {
            assert(service@ =~= Map::<Seq<char>, Seq<char>>::empty());
        }
        service
    }

    /// Looks up the entry holding the given requester id, if any.
    fn find_index(&self, requester: &String) -> (position: Option<usize>)
        ensures
            (match position {
                Some(i) => i < self.lock_map@.len() && self.lock_map@[i as int].0@ == requester@
                    && has_key(self.lock_map@, requester@),
                None => !has_key(self.lock_map@, requester@),
            }),
    {
        let n = self.lock_map.len();
        let mut i: usize = 0;
        while i < n
            invariant
                i <= n,
                n == self.lock_map@.len(),
                forall|j: int| 0 <= j < i ==> self.lock_map@[j].0@ != requester@,
            decreases n - i,
        {
            if self.lock_map[i].0 == *requester {
                proof {
                    assert(has_key(self.lock_map@, requester@)) by {
                        assert(self.lock_map@[i as int].0@ == requester@);
                    }
                }
                return Some(i);
            }
            i += 1;
        }
        proof {
            if has_key(self.lock_map@, requester@) {
                let w = key_index(self.lock_map@, requester@);
                assert(0 <= w < n && self.lock_map@[w].0@ == requester@);
            }
        }
        None
    }

    /// Acquires a lock for the descriptor's requester: under exclusive access
    /// to the lock table, if the requester already holds a resource the call
    /// fails with `ObjectAlreadyLocked` and the table is unchanged; otherwise
    /// the mapping requester id -> resource id is inserted and the call
    /// succeeds. One atomic check-then-mutate step, mutating on the success
    /// path only.
    pub fn acquire(&mut self, id: Descriptor) -> (result: Result<(), LockServiceErrors>)
        ensures
            final(self)@ == acquire_next(old(self)@, id.user_id@, id.obj_id@),
            acquire_allowed(old(self)@, id.user_id@) ==> result == Ok::<(), LockServiceErrors>(()),
            !acquire_allowed(old(self)@, id.user_id@) ==> result == Err::<(), LockServiceErrors>(
                LockServiceErrors::ObjectAlreadyLocked,
            ),
    {
        proof {
            use_type_invariant(&*self);
        }
        let ghost prior = self.lock_map@;
        let found = self.find_index(&id.user_id);
        match found {
            Some(_) => Err(LockServiceErrors::ObjectAlreadyLocked),
            None => {
                let ghost entry_ghost: Entry = (id.user_id, id.obj_id);
                let mut entries: Vec<Entry> = Vec::new();
                std::mem::swap(&mut entries, &mut self.lock_map);
                entries.push((id.user_id, id.obj_id));
                proof {
                    lemma_table_of_push(prior, entry_ghost);
                }
                self.lock_map = entries;
                Ok(())
            },
        }
    }

    /// Releases the lock held by the descriptor's requester: under exclusive
    /// access to the lock table, if the requester holds no resource the call
    /// fails with `ObjectNotLocked` and the table is unchanged; otherwise the
    /// requester's mapping is removed and the call succeeds. Only the
    /// requester id is consulted: the descriptor's resource id is accepted
    /// but never checked against the stored value. One atomic
    /// check-then-mutate step, mutating on the success path only.
    pub fn release(&mut self, id: Descriptor) -> (result: Result<(), LockServiceErrors>)
        ensures
            final(self)@ == release_next(old(self)@, id.user_id@),
            release_allowed(old(self)@, id.user_id@) ==> result == Ok::<(), LockServiceErrors>(()),
            !release_allowed(old(self)@, id.user_id@) ==> result == Err::<(), LockServiceErrors>(
                LockServiceErrors::ObjectNotLocked,
            ),
    {
        proof {
            use_type_invariant(&*self);
        }
        let ghost prior = self.lock_map@;
        let found = self.find_index(&id.user_id);
        match found {
            None => Err(LockServiceErrors::ObjectNotLocked),
            Some(at) => {
                let mut entries: Vec<Entry> = Vec::new();
                std::mem::swap(&mut entries, &mut self.lock_map);
                entries.remove(at);
                proof {
                    lemma_table_of_remove(prior, at as int);
                }
                self.lock_map = entries;
                Ok(())
            },
        }
    }
}

} // verus!
