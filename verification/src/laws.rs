//! What holds of every store, proved over the model.
//!
//! Every store operation in this crate is specified as a step of
//! [`StoreModel`]: `new` gives `StoreModel::empty()`, storing gives `stored`,
//! writing through a borrowed slot gives `replaced`, and a fetch reads
//! `lookup`. The laws below are stated over those steps, for slots of any
//! kind: live values in the in-memory store, byte buffers in the other two.
use crate::address::Address;
use crate::model::StoreModel;
use std::any::TypeId;
use vstd::prelude::*;

verus! {

/// The store that results from storing each pair of `writes` in turn, oldest
/// first, into an empty store.
pub open spec fn replay<S>(writes: Seq<(Address, S)>) -> StoreModel<S>
    decreases writes.len(),
{
    if writes.len() == 0 {
        StoreModel::empty()
    } else {
        replay(writes.drop_last()).stored(writes.last().0, writes.last().1)
    }
}

/// Every store that can be reached is well-formed, holds one slot per write,
/// in the order of writing, and indexes only addresses that were written
/// under.
pub proof fn replay_shape<S>(writes: Seq<(Address, S)>)
    ensures
        replay(writes).wf(),
        replay(writes).slots.len() == writes.len(),
        forall|i: int| 0 <= i < writes.len() ==> replay(writes).slots[i] == (#[trigger] writes[i]).1,
        forall|at: Address| #[trigger]
            replay(writes).index.contains_key(at) ==> exists|i: int|
                0 <= i < writes.len() && (#[trigger] writes[i]).0 == at,
    decreases writes.len(),
{
    if writes.len() > 0 {
        let before = writes.drop_last();
        replay_shape(before);
        replay(before).lemma_stored_wf(writes.last().0, writes.last().1);
        assert forall|at: Address| #[trigger]
            replay(writes).index.contains_key(at) implies exists|i: int|
            0 <= i < writes.len() && (#[trigger] writes[i]).0 == at by {
            if at == writes.last().0 {
                assert(writes[writes.len() - 1].0 == at);
            } else {
                assert(replay(before).index.contains_key(at));
                let i = choose|i: int| 0 <= i < before.len() && (#[trigger] before[i]).0 == at;
                assert(writes[i].0 == at);
            }
        }
        assert forall|i: int| 0 <= i < writes.len() implies replay(writes).slots[i] == (
        #[trigger] writes[i]).1 by {
            if i < before.len() {
                assert(before[i] == writes[i]);
            }
        }
    }
}

/// Type isolation. Two values of different types stored under one key do not
/// disturb each other: each type's address resolves to its own value,
/// whichever of the two was stored first.
pub proof fn type_isolation<S>(store: StoreModel<S>, key: u64, tag_a: TypeId, tag_b: TypeId, a: S, b: S)
    requires
        tag_a != tag_b,
    ensures
        ({
            let at_a = Address { tag: tag_a, hash: key };
            let at_b = Address { tag: tag_b, hash: key };
            let a_then_b = store.stored(at_a, a).stored(at_b, b);
            let b_then_a = store.stored(at_b, b).stored(at_a, a);
            &&& a_then_b.lookup(at_a) == Some(a)
            &&& a_then_b.lookup(at_b) == Some(b)
            &&& b_then_a.lookup(at_a) == Some(a)
            &&& b_then_a.lookup(at_b) == Some(b)
        }),
{
}

/// Last write wins. After two stores under one address a lookup gives the
/// second value. The first stays in its slot, which nothing resolves to any
/// more.
pub proof fn last_write_wins<S>(store: StoreModel<S>, at: Address, first: S, second: S)
    ensures
        store.stored(at, first).stored(at, second).lookup(at) == Some(second),
        store.stored(at, first).stored(at, second).slots[store.slots.len() as int] == first,
        store.stored(at, first).stored(at, second).position(at) == Some(store.slots.len() + 1),
{
}

/// Absence. An address that nothing was ever stored under resolves to
/// nothing.
pub proof fn absence<S>(writes: Seq<(Address, S)>, at: Address)
    requires
        forall|i: int| 0 <= i < writes.len() ==> (#[trigger] writes[i]).0 != at,
    ensures
        replay(writes).lookup(at) is None,
{
    replay_shape(writes);
}

/// Storing under one address changes nothing for any other address: what was
/// absent stays absent and what was present resolves to the slot it did.
pub proof fn store_leaves_others<S>(store: StoreModel<S>, at: Address, slot: S, other: Address)
    requires
        store.wf(),
        other != at,
    ensures
        store.stored(at, slot).lookup(other) == store.lookup(other),
        store.stored(at, slot).position(other) == store.position(other),
{
}

/// Cross-type absence. Storing under a key for one type makes nothing appear
/// under the same key for another type, even though the key digests coincide.
pub proof fn cross_type_absence<S>(store: StoreModel<S>, key: u64, stored_tag: TypeId, asked_tag: TypeId, slot: S)
    requires
        store.wf(),
        stored_tag != asked_tag,
        store.lookup(Address { tag: asked_tag, hash: key }) is None,
    ensures
        store.stored(Address { tag: stored_tag, hash: key }, slot).lookup(
            Address { tag: asked_tag, hash: key },
        ) is None,
{
}

/// No aliasing. In a store that can be reached, two different addresses never
/// resolve to the same slot. In particular values of different types never
/// share a slot, whatever their keys hash to.
pub proof fn no_aliasing<S>(writes: Seq<(Address, S)>, a: Address, b: Address)
    requires
        a != b,
        replay(writes).lookup(a) is Some,
        replay(writes).lookup(b) is Some,
    ensures
        replay(writes).position(a) != replay(writes).position(b),
{
    replay_shape(writes);
}

/// Mutable view consistency. What is written through a borrowed slot is what
/// the next lookup of the same address gives, and a lookup of any other
/// address gives what it gave before. The index is untouched and the store
/// stays well-formed.
pub proof fn mutation_is_observed<S>(store: StoreModel<S>, at: Address, written: S, other: Address)
    requires
        store.wf(),
        store.lookup(at) is Some,
        other != at,
    ensures
        store.replaced(at, written).lookup(at) == Some(written),
        store.replaced(at, written).lookup(other) == store.lookup(other),
        store.replaced(at, written).index == store.index,
        store.replaced(at, written).wf(),
{
}

/// Newest write wins, after any number of writes. If write `i` is the last
/// one under `at`, then `at` resolves to position `i` and to the very slot
/// that write `i` stored, however many writes under other addresses came
/// before, between and after.
pub proof fn newest_write_wins<S>(writes: Seq<(Address, S)>, at: Address, i: int)
    requires
        0 <= i < writes.len(),
        writes[i].0 == at,
        forall|j: int| i < j < writes.len() ==> (#[trigger] writes[j]).0 != at,
    ensures
        replay(writes).position(at) == Some(i as nat),
        replay(writes).lookup(at) == Some(writes[i].1),
    decreases writes.len(),
{
    let before = writes.drop_last();
    replay_shape(before);
    if i == writes.len() - 1 {
    } else {
        assert(writes[writes.len() - 1].0 != at);
        assert(before[i] == writes[i]);
        assert forall|j: int| i < j < before.len() implies (#[trigger] before[j]).0 != at by {
            assert(before[j] == writes[j]);
        }
        newest_write_wins(before, at, i);
    }
}

/// Alignment. Two arrays that are written in lockstep, one slot each per
/// write and under the same address, share one index and one length, so a
/// position found through either names the matching slot of the other.
pub proof fn lockstep_alignment<S, T>(writes: Seq<(Address, S, T)>)
    ensures
        ({
            let left = replay(writes.map_values(|w: (Address, S, T)| (w.0, w.1)));
            let right = replay(writes.map_values(|w: (Address, S, T)| (w.0, w.2)));
            &&& left.index == right.index
            &&& left.slots.len() == right.slots.len()
            &&& forall|at: Address| #[trigger]
                left.index.contains_key(at) ==> {
                    &&& left.lookup(at) == Some(writes[left.index[at] as int].1)
                    &&& right.lookup(at) == Some(writes[left.index[at] as int].2)
                }
        }),
    decreases writes.len(),
{
    let lefts = writes.map_values(|w: (Address, S, T)| (w.0, w.1));
    let rights = writes.map_values(|w: (Address, S, T)| (w.0, w.2));
    replay_shape(lefts);
    replay_shape(rights);
    if writes.len() > 0 {
        let before = writes.drop_last();
        lockstep_alignment(before);
        assert(lefts.drop_last() =~= before.map_values(|w: (Address, S, T)| (w.0, w.1)));
        assert(rights.drop_last() =~= before.map_values(|w: (Address, S, T)| (w.0, w.2)));
        assert(replay(lefts).index =~= replay(rights).index);
    } else {
        assert(replay(lefts).index =~= replay(rights).index);
    }
    assert forall|at: Address| #[trigger] replay(lefts).index.contains_key(at) implies {
        &&& replay(lefts).lookup(at) == Some(writes[replay(lefts).index[at] as int].1)
        &&& replay(rights).lookup(at) == Some(writes[replay(lefts).index[at] as int].2)
    } by {
        let i = replay(lefts).index[at] as int;
        assert(replay(lefts).slots[i] == lefts[i].1);
        assert(replay(rights).slots[i] == rights[i].1);
    }
}

} // verus!
