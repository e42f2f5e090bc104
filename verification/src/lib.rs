//! A small heterogeneous key-value store.
//!
//! One container holds values of arbitrarily many types at once. A value is
//! filed under its own type and the digest of a caller-supplied key, in a slot
//! of an append-only array. There are three stores: [`base::Database`] keeps
//! live values, [`Database`] keeps their encoded bytes, and
//! [`persistent::DatabasePersistent`] keeps both side by side.
pub mod address;
pub mod base;
pub mod codec;
pub mod error;
pub mod index;
pub mod laws;
pub mod model;
pub mod persistent;
pub mod slot;

use crate::address::digest;
use crate::address::fresh_seed;
use crate::address::type_tag;
use crate::address::Address;
use crate::codec::decode;
use crate::codec::encode;
use crate::error::StoreError;
use crate::index::SlotIndex;
use crate::model::bytes_of;
use crate::model::StoreModel;
use std::collections::hash_map::RandomState;
use std::fmt::Debug;
use std::hash::Hash;
use vstd::prelude::*;

verus! {

/// Marks a type as fit to be stored. Any `'static` type is.
pub trait Storable: 'static {}

/// A store of encoded values of arbitrarily many types.
///
/// Each value is encoded when it is stored and decoded afresh on every fetch.
/// Storing appends: bytes stored earlier under the same type and digest stay
/// in memory, unreachable, until the whole store is dropped.
pub struct Database {
    index: SlotIndex,
    items: Vec<Vec<u8>>,
    hash_state: RandomState,
}

impl Database {
    /// The store as an index and a sequence of byte buffers.
    pub closed spec fn view(&self) -> StoreModel<Seq<u8>> {
        StoreModel { index: self.index@, slots: bytes_of(self.items@) }
    }

    /// The seed of this store's key digests, drawn once when the store is made.
    pub closed spec fn seed(&self) -> RandomState {
        self.hash_state
    }

    /// The store is consistent: the index is, every address resolves to a
    /// buffer that exists, and no two addresses resolve to the same buffer.
    pub closed spec fn wf(&self) -> bool {
        self.index.wf() && self@.wf()
    }

    /// A consistent store resolves every address to a buffer that exists.
    pub proof fn lemma_wf_view(&self)
        requires
            self.wf(),
        ensures
            self@.wf(),
    {
    }

    /// An empty store with a fresh random seed.
    pub fn new() -> (db: Self)
        ensures
            db.wf(),
            db@ == StoreModel::<Seq<u8>>::empty(),
    {
        Self { index: SlotIndex::new(), items: Vec::new(), hash_state: fresh_seed() }
    }

    /// The address under which this store files values of type `V` for `key`:
    /// the tag of `V` and the digest of `key` under this store's seed.
    ///
    /// Neither has a value that could be promised here. Every function that
    /// takes an address is specified for all of them.
    pub fn address<K: Hash, V: 'static>(&self, key: K) -> Address {
        Address::new(type_tag::<V>(), digest(&self.hash_state, key))
    }

    /// Stores `data` under `at`: appends the buffer and makes `at` resolve to
    /// it.
    pub fn store_at(&mut self, at: Address, data: Vec<u8>)
        requires
            old(self).wf(),
        ensures
            final(self).wf(),
            final(self).seed() == old(self).seed(),
            final(self)@ == old(self)@.stored(at, data@),
    {
        self.items.push(data);
        let index = self.items.len() - 1;
        self.index.insert(at, index);
        proof {
            old(self)@.lemma_stored_wf(at, data@);
        }
    }

    /// Encodes `value` and stores the bytes under its type and `key`.
    ///
    /// Fails, and leaves the store as it was, exactly when the codec cannot
    /// encode the value. Otherwise exactly one buffer is appended and exactly
    /// the address that [`Database::address`] computes is redirected to it.
    pub fn store<K: Hash, V: 'static + serde::Serialize + serde::de::DeserializeOwned>(
        &mut self,
        key: K,
        value: &V,
    ) -> (done: Result<(), StoreError>)
        requires
            old(self).wf(),
        ensures
            final(self).wf(),
            final(self).seed() == old(self).seed(),
            match done {
                Ok(_) => exists|at: Address|
                    final(self)@ == old(self)@.stored(at, final(self)@.slots.last()),
                Err(error) => error is Encode && final(self)@ == old(self)@,
            },
    {
        match StoreError::encoded(encode(value)) {
            Ok(data) => {
                let at = self.address::<K, V>(key);
                let ghost bytes = data@;
                self.store_at(at, data);
                assert(self@ == old(self)@.stored(at, self@.slots.last())) by {
                    assert(self@.slots.last() == bytes);
                }
                Ok(())
            },
            Err(error) => Err(error),
        }
    }

    /// The bytes that `at` resolves to.
    pub fn bytes_at(&self, at: Address) -> (found: Option<&Vec<u8>>)
        requires
            self.wf(),
        ensures
            match found {
                Some(data) => self@.lookup(at) == Some(data@),
                None => self@.lookup(at) is None,
            },
    {
        match self.index.get(at) {
            Some(position) => Some(&self.items[position]),
            None => None,
        }
    }

    /// Decodes, as a `V`, the bytes that `at` resolves to.
    ///
    /// Fails with `NotFound`, which then names `key`, exactly when `at`
    /// resolves to nothing. Otherwise the result is the codec's: the value it
    /// decodes from the bytes that [`Database::bytes_at`] gives for `at`, or
    /// its error as `Decode`.
    pub fn fetch_at<K: Debug, V: 'static + serde::Serialize + serde::de::DeserializeOwned>(
        &self,
        at: Address,
        key: &K,
    ) -> (found: Result<V, StoreError>)
        requires
            self.wf(),
        ensures
            (found matches Err(StoreError::NotFound(_))) <==> self@.lookup(at) is None,
            !(found matches Err(StoreError::Encode(_))),
    {
        match self.bytes_at(at) {
            Some(data) => StoreError::decoded(decode::<V>(data)),
            None => Err(StoreError::missing(key)),
        }
    }

    /// Decodes the `V` stored under `key`.
    ///
    /// The address is the one that [`Database::address`] computes for `V` and
    /// `key`; the result is what [`Database::fetch_at`] gives for it:
    /// `NotFound` exactly when that address resolves to nothing, and else the
    /// codec's result on the bytes it resolves to.
    pub fn fetch<K: Debug + Hash, V: 'static + serde::Serialize + serde::de::DeserializeOwned>(
        &self,
        key: K,
    ) -> (found: Result<V, StoreError>)
        requires
            self.wf(),
        ensures
            exists|at: Address|
                (found matches Err(StoreError::NotFound(_))) <==> self@.lookup(at) is None,
            !(found matches Err(StoreError::Encode(_))),
    {
        let at = self.address::<&K, V>(&key);
        let found = self.fetch_at::<K, V>(at, &key);
        assert((found matches Err(StoreError::NotFound(_))) <==> self@.lookup(at) is None);
        found
    }
}

/// A record of one byte.
#[derive(Debug, PartialEq, Eq, Structural, Hash)]
pub struct A {
    pub vala: u8,
}

/// Another record of one byte, of a type of its own.
#[derive(Debug, PartialEq, Eq, Structural, Hash)]
pub struct B {
    pub valb: u8,
}

} // verus!
