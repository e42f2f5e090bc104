//! The persistent wrapper: live values and their encoded bytes, side by side.
use crate::address::Address;
use crate::base::Database;
use crate::codec::decode;
use crate::codec::encode;
use crate::error::StoreError;
use crate::model::bytes_of;
use crate::model::StoreModel;
use crate::slot::Slot;
use std::collections::hash_map::RandomState;
use std::fmt::Debug;
use std::hash::Hash;
use vstd::prelude::*;

verus! {

/// Marks a type as fit to be stored. Any `'static` type is.
pub trait Storable: 'static {}

/// An in-memory store paired with a byte buffer for every slot.
///
/// The inner store keeps the index and the live values; this wrapper keeps the
/// encoded bytes in an array of its own. A fetch asks the inner store for a
/// position and reads the bytes at that position, so the two arrays must grow
/// in lockstep: every store appends to both.
pub struct DatabasePersistent {
    inner: Database,
    items: Vec<Vec<u8>>,
}

impl DatabasePersistent {
    /// The wrapper as a store of byte buffers: the inner store's index over the
    /// wrapper's own buffers.
    pub closed spec fn view(&self) -> StoreModel<Seq<u8>> {
        StoreModel { index: self.inner@.index, slots: bytes_of(self.items@) }
    }

    /// The inner store of live values.
    pub closed spec fn live(&self) -> StoreModel<Slot> {
        self.inner@
    }

    /// The seed of the key digests: that of the inner store.
    pub closed spec fn seed(&self) -> RandomState {
        self.inner.seed()
    }

    /// The wrapper is consistent: the inner store is, and there are as many
    /// buffers as live slots.
    pub closed spec fn wf(&self) -> bool {
        self.inner.wf() && self.inner@.slots.len() == self.items@.len()
    }

    /// In a consistent wrapper the two arrays are aligned: both stores share
    /// one index, they hold equally many slots, and every address resolves to
    /// a position that exists in both.
    pub proof fn lemma_aligned(&self)
        requires
            self.wf(),
        ensures
            self@.index == self.live().index,
            self@.slots.len() == self.live().slots.len(),
            self@.wf(),
            self.live().wf(),
    {
        self.inner.lemma_wf_view();
    }

    /// An empty wrapper around an empty store.
    pub fn new() -> (db: Self)
        ensures
            db.wf(),
            db@ == StoreModel::<Seq<u8>>::empty(),
            db.live() == StoreModel::<Slot>::empty(),
    {
        Self { inner: Database::new(), items: Vec::new() }
    }

    /// Stores `data` and `value` under `at`, as one step: the buffer is
    /// appended to the wrapper's array, the value to the inner store's, and
    /// `at` resolves to their common position.
    pub fn store_at<V: 'static>(&mut self, at: Address, data: Vec<u8>, value: V)
        requires
            old(self).wf(),
        ensures
            final(self).wf(),
            final(self).seed() == old(self).seed(),
            final(self)@ == old(self)@.stored(at, data@),
            final(self).live() == old(self).live().stored(at, final(self).live().slots.last()),
    {
        self.items.push(data);
        self.inner.store_at(at, value);
    }

    /// Encodes `value`, then stores the bytes and the value itself under the
    /// value's type and `key`.
    ///
    /// Fails, and leaves the wrapper as it was, exactly when the codec cannot
    /// encode the value.
    pub fn store<K: Hash, V: 'static + serde::Serialize + serde::de::DeserializeOwned>(
        &mut self,
        key: K,
        value: V,
    ) -> (done: Result<(), StoreError>)
        requires
            old(self).wf(),
        ensures
            final(self).wf(),
            final(self).seed() == old(self).seed(),
            match done {
                Ok(_) => exists|at: Address|
                    {
                        &&& final(self)@ == old(self)@.stored(at, final(self)@.slots.last())
                        &&& final(self).live() == old(self).live().stored(
                            at,
                            final(self).live().slots.last(),
                        )
                    },
                Err(error) => {
                    &&& error is Encode
                    &&& final(self)@ == old(self)@
                    &&& final(self).live() == old(self).live()
                },
            },
    {
        match StoreError::encoded(encode(&value)) {
            Ok(data) => {
                let at = self.inner.address::<K, V>(key);
                let ghost bytes = data@;
                self.store_at(at, data, value);
                assert(self@ == old(self)@.stored(at, self@.slots.last())) by {
                    assert(self@.slots.last() == bytes);
                }
                Ok(())
            },
            Err(error) => Err(error),
        }
    }

    /// The bytes that `at` resolves to: the buffer at the position that the
    /// inner store's index gives.
    pub fn bytes_at(&self, at: Address) -> (found: Option<&Vec<u8>>)
        requires
            self.wf(),
        ensures
            match found {
                Some(data) => self@.lookup(at) == Some(data@),
                None => self@.lookup(at) is None,
            },
    {
        match self.inner.index_at(at) {
            Some(position) => Some(&self.items[position]),
            None => None,
        }
    }

    /// Decodes, as a `V`, the wrapper's own bytes that `at` resolves to.
    ///
    /// Fails with `NotFound`, which then names `key`, exactly when the inner
    /// store resolves `at` to nothing. Otherwise the result is the codec's:
    /// the value it decodes from the buffer that
    /// [`DatabasePersistent::bytes_at`] gives for `at`, or its error as
    /// `Decode`.
    pub fn fetch_at<K: Debug, V: 'static + serde::Serialize + serde::de::DeserializeOwned>(
        &self,
        at: Address,
        key: &K,
    ) -> (found: Result<V, StoreError>)
        requires
            self.wf(),
        ensures
            (found matches Err(StoreError::NotFound(_))) <==> self@.lookup(at) is None,
            !(found matches Err(StoreError::Encode(_))),
    {
        match self.bytes_at(at) {
            Some(data) => StoreError::decoded(decode::<V>(data)),
            None => Err(StoreError::missing(key)),
        }
    }

    /// Decodes the `V` stored under `key` from the wrapper's own bytes.
    ///
    /// The address is the one that the inner store computes for `V` and
    /// `key`; the result is what [`DatabasePersistent::fetch_at`] gives for
    /// it: `NotFound` exactly when that address resolves to nothing, and else
    /// the codec's result on the buffer it resolves to.
    pub fn fetch<K: Debug + Hash, V: 'static + serde::Serialize + serde::de::DeserializeOwned>(
        &self,
        key: K,
    ) -> (found: Result<V, StoreError>)
        requires
            self.wf(),
        ensures
            exists|at: Address|
                (found matches Err(StoreError::NotFound(_))) <==> self@.lookup(at) is None,
            !(found matches Err(StoreError::Encode(_))),
    {
        let at = self.inner.address::<&K, V>(&key);
        let found = self.fetch_at::<K, V>(at, &key);
        assert((found matches Err(StoreError::NotFound(_))) <==> self@.lookup(at) is None);
        found
    }
}

} // verus!
