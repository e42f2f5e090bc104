//! Addresses: how a value's type and its key become one index key.
//!
//! A value is filed under the identity of its type and a 64-bit digest of its
//! key. The digest comes from a seeded hasher, so it is stable for the life of
//! one store and unpredictable across stores.
use std::any::TypeId;
use std::collections::hash_map::RandomState;
use std::hash::BuildHasher;
use std::hash::Hash;
use vstd::prelude::*;

verus! {

/// `std::any::TypeId`, the run-time identity of a type. Nothing inside it is
/// visible to proofs; two of them can only be compared.
#[verifier::external_type_specification]
#[verifier::external_body]
pub struct ExTypeId(TypeId);

/// The index key of a stored value: the tag of the value's type and the digest
/// of the caller's key.
///
/// Only the digest of the key is kept, never the key. Two keys of one type
/// whose digests coincide therefore share an address, and the later store
/// under either of them wins.
#[derive(Clone, Copy, Debug)]
pub struct Address {
    pub tag: TypeId,
    pub hash: u64,
}

impl Address {
    /// The address made of a type tag and a key digest.
    pub fn new(tag: TypeId, hash: u64) -> (at: Address)
        ensures
            at.tag == tag,
            at.hash == hash,
    {
        Address { tag, hash }
    }
}

/// Calls `std::any::TypeId::of::<V>()`. The tag differs from build to build, so
/// the contract is silent about it.
#[verifier::external_body]
pub(crate) fn type_tag<V: 'static>() -> TypeId {
    TypeId::of::<V>()
}

/// Calls `==` of `std::any::TypeId`. The contract claims that it answers `true`
/// exactly when the two tags are the same value.
#[verifier::external_body]
pub(crate) fn same_type(a: &TypeId, b: &TypeId) -> (same: bool)
    ensures
        same == (*a == *b),
{
    a == b
}

/// Calls `std::hash::BuildHasher::hash_one` on a `RandomState`. The digest
/// depends on the seed, which each `RandomState` draws at random, so the
/// contract is silent about it.
#[verifier::external_body]
pub(crate) fn digest<K: Hash>(state: &RandomState, key: K) -> u64 {
    state.hash_one(key)
}

/// Calls `RandomState::new()`, which draws a fresh random seed.
#[verifier::external_body]
pub(crate) fn fresh_seed() -> RandomState {
    RandomState::new()
}

} // verus!
