//! The mathematical model shared by every store in this crate.
use crate::address::Address;
use vstd::prelude::*;

verus! {

/// What a store is, abstractly: an append-only sequence of slots and an index
/// from addresses to positions in it.
#[verifier::ext_equal]
pub struct StoreModel<S> {
    /// For each address that was stored under, the position of its newest slot.
    pub index: Map<Address, nat>,
    /// Every slot ever stored, oldest first. Slots are never removed or moved.
    pub slots: Seq<S>,
}

impl<S> StoreModel<S> {
    /// The store that holds nothing.
    pub open spec fn empty() -> Self {
        StoreModel { index: Map::empty(), slots: Seq::empty() }
    }

    /// Every indexed position names a slot that exists, and no two addresses
    /// share a slot.
    pub open spec fn wf(self) -> bool {
        &&& forall|at: Address| #[trigger]
            self.index.contains_key(at) ==> self.index[at] < self.slots.len()
        &&& forall|a: Address, b: Address|
            #![trigger self.index.contains_key(a), self.index.contains_key(b)]
            self.index.contains_key(a) && self.index.contains_key(b) && a != b ==> self.index[a]
                != self.index[b]
    }

    /// The position that `at` resolves to, if it was ever stored under.
    pub open spec fn position(self, at: Address) -> Option<nat> {
        if self.index.contains_key(at) {
            Some(self.index[at])
        } else {
            None
        }
    }

    /// The slot that `at` resolves to, if it was ever stored under.
    pub open spec fn lookup(self, at: Address) -> Option<S> {
        if self.index.contains_key(at) {
            Some(self.slots[self.index[at] as int])
        } else {
            None
        }
    }

    /// The store after `slot` was stored under `at`: the slot is appended and
    /// `at` now resolves to it. A slot that `at` resolved to before stays where
    /// it was, out of reach of the index.
    pub open spec fn stored(self, at: Address, slot: S) -> Self {
        StoreModel { index: self.index.insert(at, self.slots.len()), slots: self.slots.push(slot) }
    }

    /// The store after the slot that `at` resolves to was overwritten in place
    /// with `slot`; unchanged if `at` resolves to nothing.
    pub open spec fn replaced(self, at: Address, slot: S) -> Self {
        if self.index.contains_key(at) {
            StoreModel { index: self.index, slots: self.slots.update(self.index[at] as int, slot) }
        } else {
            self
        }
    }

    /// Storing keeps a store well-formed.
    pub proof fn lemma_stored_wf(self, at: Address, slot: S)
        requires
            self.wf(),
        ensures
            self.stored(at, slot).wf(),
    {
        let next = self.stored(at, slot);
        assert forall|other: Address| #[trigger] next.index.contains_key(other) implies next.index[other]
            < next.slots.len() by {
            if other != at {
                assert(self.index.contains_key(other));
            }
        }
        assert forall|a: Address, b: Address|
            #![trigger next.index.contains_key(a), next.index.contains_key(b)]
            next.index.contains_key(a) && next.index.contains_key(b) && a != b implies next.index[a]
            != next.index[b] by {
            if a != at {
                assert(self.index.contains_key(a));
            }
            if b != at {
                assert(self.index.contains_key(b));
            }
        }
    }
}

/// The bytes of each buffer, in order.
pub open spec fn bytes_of(items: Seq<Vec<u8>>) -> Seq<Seq<u8>> {
    items.map_values(|buffer: Vec<u8>| buffer@)
}

} // verus!
