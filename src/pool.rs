//! The decisions of a connection pool keyed by identity. The caller runs them
//! under one lock and performs the actions they return; the dial itself
//! happens outside the lock.
//!
//! The first request for an identity with no entry is told to dial, and the
//! identity is marked as connecting, so every other request for it waits
//! instead of dialling again. A failed or abandoned attempt clears the mark,
//! so a later request can retry.

use vstd::prelude::*;

use crate::identity::{HttpVersion, Identifier};

verus! {

/// What an identity is in the pool's index.
pub type IdentityView = (Seq<char>, Option<HttpVersion>);

/// The state of the pool entry for one identity.
#[derive(Debug, Clone, Copy, PartialEq, Eq, Structural)]
pub enum PoolSlot {
    /// A connection attempt is under way.
    Connecting,
    /// An established connection, by the caller's handle for it.
    Idle(u64),
}

/// What a request should do after asking the pool for a connection.
#[derive(Debug, Clone, Copy, PartialEq, Eq, Structural)]
pub enum Checkout {
    /// Reuse the established connection with this handle.
    Reuse(u64),
    /// Dial a new connection: this request now owns the attempt.
    Dial,
    /// Another request is dialling for the same identity: wait for it.
    Wait,
}

/// The pool after a checkout of `key` from `slots`, and what the request does.
pub open spec fn checkout_step(slots: Map<IdentityView, PoolSlot>, key: IdentityView) -> (
    Map<IdentityView, PoolSlot>,
    Checkout,
) {
    if !slots.contains_key(key) {
        (slots.insert(key, PoolSlot::Connecting), Checkout::Dial)
    } else {
        match slots[key] {
            PoolSlot::Connecting => (slots, Checkout::Wait),
            PoolSlot::Idle(conn) => (slots, Checkout::Reuse(conn)),
        }
    }
}

#[derive(Debug)]
struct PoolEntry {
    key: Identifier,
    slot: PoolSlot,
}

/// Index of a connection pool: at most one entry per identity.
pub struct PoolIndex {
    entries: Vec<PoolEntry>,
    slots: Ghost<Map<IdentityView, PoolSlot>>,
}

impl View for PoolIndex {
    type V = Map<IdentityView, PoolSlot>;

    closed spec fn view(&self) -> Map<IdentityView, PoolSlot> {
        self.slots@
    }
}

impl PoolIndex {
    /// The entries stand for exactly the identities of the map, one each.
    pub closed spec fn wf(&self) -> bool {
        &&& forall|i: int|
            0 <= i < self.entries@.len() ==> #[trigger] self.slots@.contains_key(
                self.entries@[i].key@,
            ) && self.slots@[self.entries@[i].key@] == self.entries@[i].slot
        &&& forall|k: IdentityView| #[trigger]
            self.slots@.contains_key(k) ==> exists|i: int|
                0 <= i < self.entries@.len() && #[trigger] self.entries@[i].key@ == k
        &&& forall|i: int, j: int|
            0 <= i < j < self.entries@.len() ==> #[trigger] self.entries@[i].key@
                != #[trigger] self.entries@[j].key@
    }

    /// An empty index.
    pub fn new() -> (r: PoolIndex)
        ensures
            r.wf(),
            r@ == Map::<IdentityView, PoolSlot>::empty(),
    {
        PoolIndex { entries: Vec::new(), slots: Ghost(Map::empty()) }
    }

    /// The position of `key`'s entry, if it has one.
    fn find(&self, key: &Identifier) -> (r: Option<usize>)
        requires
            self.wf(),
        ensures
            match r {
                Some(i) => i < self.entries@.len() && self.entries@[i as int].key@ == key@,
                None => !self@.contains_key(key@),
            },
    {
        let mut i: usize = 0;
        while i < self.entries.len()
            invariant
                self.wf(),
                0 <= i <= self.entries@.len(),
                forall|j: int| 0 <= j < i ==> self.entries@[j].key@ != key@,
            decreases self.entries@.len() - i,
        {
            if self.entries[i].key == *key {
                return Some(i);
            }
            i += 1;
        }
        None
    }

    /// Take `key`'s entry out, if it has one; the map loses `key`.
    fn take(&mut self, key: &Identifier)
        requires
            old(self).wf(),
        ensures
            final(self).wf(),
            final(self)@ == old(self)@.remove(key@),
    {
        match self.find(key) {
            None => {
                proof {
                    assert(self.slots@ =~= self.slots@.remove(key@));
                }
            },
            Some(i) => {
                let ghost before = self.entries@;
                self.entries.remove(i);
                self.slots = Ghost(self.slots@.remove(key@));
                proof {
                    assert forall|j: int| 0 <= j < self.entries@.len() implies #[trigger]
                        self.slots@.contains_key(self.entries@[j].key@)
                        && self.slots@[self.entries@[j].key@] == self.entries@[j].slot by {
                        if j < i {
                            assert(self.entries@[j] == before[j]);
                        } else {
                            assert(self.entries@[j] == before[j + 1]);
                        }
                    }
                    assert forall|k: IdentityView| #[trigger] self.slots@.contains_key(k) implies exists|j: int|
                        0 <= j < self.entries@.len() && #[trigger] self.entries@[j].key@ == k by {
                        let w = choose|w: int| 0 <= w < before.len() && #[trigger] before[w].key@ == k;
                        if w < i {
                            assert(self.entries@[w].key@ == k);
                        } else {
                            assert(self.entries@[w - 1].key@ == k);
                        }
                    }
                }
            },
        }
    }

    /// Give `key` the slot `slot`, replacing what it had.
    fn put(&mut self, key: Identifier, slot: PoolSlot)
        requires
            old(self).wf(),
        ensures
            final(self).wf(),
            final(self)@ == old(self)@.insert(key@, slot),
    {
        let ghost k = key@;
        self.take(&key);
        let ghost before = self.entries@;
        let ghost mid = self.slots@;
        self.entries.push(PoolEntry { key, slot });
        self.slots = Ghost(self.slots@.insert(k, slot));
        proof {
            assert(self.slots@ =~= old(self)@.insert(k, slot));
            assert forall|j: int| 0 <= j < self.entries@.len() implies #[trigger]
                self.slots@.contains_key(self.entries@[j].key@)
                && self.slots@[self.entries@[j].key@] == self.entries@[j].slot by {
                if j < before.len() {
                    assert(self.entries@[j] == before[j]);
                }
            }
            assert forall|i: int, j: int|
                0 <= i < j < self.entries@.len() implies #[trigger] self.entries@[i].key@
                    != #[trigger] self.entries@[j].key@ by {
                assert(self.entries@[i] == before[i]);
                if j < before.len() {
                    assert(self.entries@[j] == before[j]);
                } else {
                    assert(mid.contains_key(before[i].key@));
                }
            }
            assert forall|k2: IdentityView| #[trigger] self.slots@.contains_key(k2) implies exists|j: int|
                0 <= j < self.entries@.len() && #[trigger] self.entries@[j].key@ == k2 by {
                if k2 == k {
                    assert(self.entries@[before.len() as int].key@ == k2);
                } else {
                    let w = choose|w: int| 0 <= w < before.len() && #[trigger] before[w].key@ == k2;
                    assert(self.entries@[w] == before[w]);
                }
            }
        }
    }

    /// A request for `key` asks for a connection. With no entry, it is told
    /// to dial and `key` is marked as connecting; while an attempt is under
    /// way it is told to wait; with an established connection, to reuse it.
    pub fn checkout(&mut self, key: Identifier) -> (r: Checkout)
        requires
            old(self).wf(),
        ensures
            final(self).wf(),
            (final(self)@, r) == checkout_step(old(self)@, key@),
    {
        match self.find(&key) {
            None => {
                self.put(key, PoolSlot::Connecting);
                Checkout::Dial
            },
            Some(i) => match self.entries[i].slot {
                PoolSlot::Connecting => Checkout::Wait,
                PoolSlot::Idle(conn) => Checkout::Reuse(conn),
            },
        }
    }

    /// The attempt for `key` succeeded: its connection, by handle `conn`, is
    /// now there to reuse.
    pub fn connected(&mut self, key: Identifier, conn: u64)
        requires
            old(self).wf(),
        ensures
            final(self).wf(),
            final(self)@ == old(self)@.insert(key@, PoolSlot::Idle(conn)),
    {
        self.put(key, PoolSlot::Idle(conn));
    }

    /// The attempt for `key` failed or was abandoned, or its connection was
    /// evicted: the entry goes, so the next request for `key` dials again.
    pub fn release(&mut self, key: &Identifier)
        requires
            old(self).wf(),
        ensures
            final(self).wf(),
            final(self)@ == old(self)@.remove(key@),
    {
        self.take(key);
    }
}

/// Of any number of requests for an identity with no entry, checked out one
/// after another under the pool's lock, exactly the first dials: every later
/// one waits. Once the attempt is released, the next request dials again.
pub proof fn one_dial_per_identity(slots: Map<IdentityView, PoolSlot>, key: IdentityView, n: nat)
    requires
        !slots.contains_key(key),
    ensures
        checkout_step(slots, key).1 == Checkout::Dial,
        checkout_step(checkout_step(slots, key).0, key).1 == Checkout::Wait,
        checkout_step(checkout_step(slots, key).0, key).0 == checkout_step(slots, key).0,
        checkout_step(checkout_step(slots, key).0.remove(key), key).1 == Checkout::Dial,
{
    assert(checkout_step(slots, key).0.remove(key) =~= slots);
}

} // verus!
