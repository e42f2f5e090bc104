//! The in-memory store: values of any type, kept alive and lent out by
//! reference.
use crate::address::digest;
use crate::address::fresh_seed;
use crate::address::type_tag;
use crate::address::Address;
use crate::error::StoreError;
use crate::index::SlotIndex;
use crate::model::StoreModel;
use crate::slot::held_mut;
use crate::slot::held_ref;
use crate::slot::hold;
use crate::slot::Slot;
use std::collections::hash_map::RandomState;
use std::fmt::Debug;
use std::hash::Hash;
use vstd::prelude::*;

verus! {

/// Marks a type as fit to be stored. Any `'static` type is.
pub trait Storable: 'static {}

/// A store of live values of arbitrarily many types.
///
/// Each value is filed under its own type and the digest of a key. Storing
/// appends: a value stored earlier under the same type and digest stays in
/// memory, unreachable, until the whole store is dropped.
pub struct Database {
    index: SlotIndex,
    items_any: Vec<Slot>,
    hash_state: RandomState,
}

impl Database {
    /// The store as an index and a sequence of slots.
    pub closed spec fn view(&self) -> StoreModel<Slot> {
        StoreModel { index: self.index@, slots: self.items_any@ }
    }

    /// The seed of this store's key digests, drawn once when the store is made.
    pub closed spec fn seed(&self) -> RandomState {
        self.hash_state
    }

    /// The store is consistent: the index is, every address resolves to a slot
    /// that exists, and no two addresses resolve to the same slot.
    pub closed spec fn wf(&self) -> bool {
        self.index.wf() && self@.wf()
    }

    /// A consistent store resolves every address to a slot that exists.
    pub proof fn lemma_wf_view(&self)
        requires
            self.wf(),
        ensures
            self@.wf(),
    {
    }

    /// An empty store with a fresh random seed.
    pub fn new() -> (db: Self)
        ensures
            db.wf(),
            db@ == StoreModel::<Slot>::empty(),
    {
        Self { index: SlotIndex::new(), items_any: Vec::new(), hash_state: fresh_seed() }
    }

    /// The digest of `key` under this store's seed.
    ///
    /// The seed is random, so no particular digest is promised. The store is
    /// specified for whatever digest comes back.
    pub fn hash<K: Hash>(&self, key: K) -> u64 {
        digest(&self.hash_state, key)
    }

    /// The address under which this store files values of type `V` for `key`:
    /// the tag of `V` and the digest of `key` under this store's seed.
    ///
    /// Neither has a value that could be promised here. Every function that
    /// takes an address is specified for all of them.
    pub fn address<K: Hash, V: 'static>(&self, key: K) -> Address {
        Address::new(type_tag::<V>(), self.hash(key))
    }

    /// The position of the slot that `at` resolves to.
    pub fn index_at(&self, at: Address) -> (found: Option<usize>)
        requires
            self.wf(),
        ensures
            match found {
                Some(position) => {
                    &&& self@.position(at) == Some(position as nat)
                    &&& position < self@.slots.len()
                },
                None => self@.position(at) is None,
            },
    {
        self.index.get(at)
    }

    /// The position of the slot that holds the `V` stored under `key`.
    ///
    /// The address is the one that [`Database::address`] computes; the result
    /// is what that address resolves to.
    pub fn index<K: Hash, V: 'static>(&self, key: K) -> (found: Option<usize>)
        requires
            self.wf(),
        ensures
            match found {
                Some(position) => {
                    &&& position < self@.slots.len()
                    &&& exists|at: Address| self@.position(at) == Some(position as nat)
                },
                None => exists|at: Address| self@.position(at) is None,
            },
    {
        let at = self.address::<K, V>(key);
        self.index_at(at)
    }

    /// Stores `value` under `at`: appends a slot that holds it and makes `at`
    /// resolve to that slot.
    pub fn store_at<V: 'static>(&mut self, at: Address, value: V)
        requires
            old(self).wf(),
        ensures
            final(self).wf(),
            final(self).seed() == old(self).seed(),
            final(self)@ == old(self)@.stored(at, final(self)@.slots.last()),
    {
        self.items_any.push(hold(value));
        let index = self.items_any.len() - 1;
        self.index.insert(at, index);
        proof {
            old(self)@.lemma_stored_wf(at, self.items_any@.last());
        }
    }

    /// Stores `value` under its type and `key`. Always succeeds.
    ///
    /// The address is the one that [`Database::address`] computes. Exactly one
    /// slot is appended and exactly that address is redirected to it.
    pub fn store<K: Hash, V: 'static>(&mut self, key: K, value: V) -> (done: Result<(), StoreError>)
        requires
            old(self).wf(),
        ensures
            done is Ok,
            final(self).wf(),
            final(self).seed() == old(self).seed(),
            exists|at: Address| final(self)@ == old(self)@.stored(at, final(self)@.slots.last()),
    {
        let at = self.address::<K, V>(key);
        self.store_at(at, value);
        Ok(())
    }

    /// The slot that `at` resolves to.
    pub fn slot_at(&self, at: Address) -> (found: Option<&Slot>)
        requires
            self.wf(),
        ensures
            match found {
                Some(slot) => self@.lookup(at) == Some(*slot),
                None => self@.lookup(at) is None,
            },
    {
        match self.index.get(at) {
            Some(position) => Some(&self.items_any[position]),
            None => None,
        }
    }

    /// The value that `at` resolves to, if it is a `V`.
    ///
    /// Nothing is found where `at` resolves to nothing, and nothing where the
    /// slot it resolves to holds a value of another type.
    pub fn fetch_ref_at<V: 'static>(&self, at: Address) -> (found: Option<&V>)
        requires
            self.wf(),
        ensures
            found is Some ==> self@.lookup(at) is Some,
    {
        match self.slot_at(at) {
            Some(slot) => held_ref::<V>(slot),
            None => None,
        }
    }

    /// The `V` stored under `key`, by reference.
    pub fn fetch_ref<K: Debug + Hash, V: 'static>(&self, key: K) -> (found: Option<&V>)
        requires
            self.wf(),
        ensures
            found is Some ==> exists|at: Address| self@.lookup(at) is Some,
    {
        let at = self.address::<K, V>(key);
        self.fetch_ref_at::<V>(at)
    }

    /// The slot that `at` resolves to, lent out for writing. Whatever the
    /// borrower leaves in it replaces the slot in place.
    pub fn slot_at_mut(&mut self, at: Address) -> (found: Option<&mut Slot>)
        requires
            old(self).wf(),
        ensures
            final(self).wf(),
            final(self).seed() == old(self).seed(),
            match found {
                Some(slot) => {
                    &&& old(self)@.lookup(at) == Some(*slot)
                    &&& final(self)@ == old(self)@.replaced(at, *final(slot))
                },
                None => {
                    &&& old(self)@.lookup(at) is None
                    &&& final(self)@ == old(self)@
                },
            },
    {
        match self.index.get(at) {
            Some(position) => Some(&mut self.items_any[position]),
            None => None,
        }
    }

    /// The value that `at` resolves to, lent out for writing, if it is a `V`.
    ///
    /// The index and every other slot stay as they are; if nothing is lent
    /// out, so does the whole store.
    pub fn fetch_mut_at<V: 'static>(&mut self, at: Address) -> (found: Option<&mut V>)
        requires
            old(self).wf(),
        ensures
            final(self).wf(),
            final(self).seed() == old(self).seed(),
            match found {
                Some(_) => {
                    &&& old(self)@.lookup(at) is Some
                    &&& final(self)@ == old(self)@.replaced(at, final(self)@.lookup(at).unwrap())
                },
                None => final(self)@ == old(self)@,
            },
    {
        match self.slot_at_mut(at) {
            Some(slot) => held_mut::<V>(slot),
            None => None,
        }
    }

    /// The `V` stored under `key`, lent out for writing.
    pub fn fetch_mut<K: Debug + Hash, V: 'static>(&mut self, key: K) -> (found: Option<&mut V>)
        requires
            old(self).wf(),
        ensures
            final(self).wf(),
            final(self).seed() == old(self).seed(),
            match found {
                Some(_) => exists|at: Address|
                    {
                        &&& old(self)@.lookup(at) is Some
                        &&& final(self)@ == old(self)@.replaced(
                            at,
                            final(self)@.lookup(at).unwrap(),
                        )
                    },
                None => final(self)@ == old(self)@,
            },
    {
        let at = self.address::<K, V>(key);
        self.fetch_mut_at::<V>(at)
    }
}

} // verus!
