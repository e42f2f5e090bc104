//! The two-level index: first by type tag, then by key digest.
use crate::address::same_type;
use crate::address::Address;
use std::any::TypeId;
use std::collections::HashMap;
use vstd::prelude::*;

verus! {

/// The positions recorded for one type: key digest to slot position.
struct Bucket {
    tag: TypeId,
    positions: HashMap<u64, usize>,
}

/// Maps an address to the position of the slot it resolves to.
///
/// There is one bucket per type tag that was ever stored under, so values of
/// different types never meet, whatever their keys hash to.
pub struct SlotIndex {
    buckets: Vec<Bucket>,
}

impl SlotIndex {
    /// Bucket `i` exists, belongs to the type of `at` and records its digest.
    spec fn holds(&self, i: int, at: Address) -> bool {
        &&& 0 <= i < self.buckets@.len()
        &&& self.buckets@[i].tag == at.tag
        &&& self.buckets@[i].positions@.contains_key(at.hash)
    }

    /// No two buckets belong to the same type.
    pub closed spec fn wf(&self) -> bool {
        forall|i: int, j: int|
            0 <= i < j < self.buckets@.len() ==> self.buckets@[i].tag != self.buckets@[j].tag
    }

    /// The index as a map from addresses to positions.
    pub closed spec fn view(&self) -> Map<Address, nat> {
        Map::new(
            |at: Address| exists|i: int| self.holds(i, at),
            |at: Address| self.buckets@[choose|i: int| self.holds(i, at)].positions@[at.hash] as nat,
        )
    }

    /// In a well-formed index the bucket of a type settles what every address
    /// of that type resolves to.
    proof fn lemma_bucket_decides(&self, i: int, at: Address)
        requires
            self.wf(),
            0 <= i < self.buckets@.len(),
            self.buckets@[i].tag == at.tag,
        ensures
            self@.contains_key(at) == self.buckets@[i].positions@.contains_key(at.hash),
            self@.contains_key(at) ==> self@[at] == self.buckets@[i].positions@[at.hash],
    {
        if self.buckets@[i].positions@.contains_key(at.hash) {
            assert(self.holds(i, at));
        }
        if self@.contains_key(at) {
            let j = choose|j: int| self.holds(j, at);
            assert(self.holds(j, at));
            assert(j == i);
        }
    }

    /// An address whose type has no bucket resolves to nothing.
    proof fn lemma_no_bucket(&self, at: Address)
        requires
            forall|i: int| 0 <= i < self.buckets@.len() ==> self.buckets@[i].tag != at.tag,
        ensures
            !self@.contains_key(at),
    {
        assert forall|i: int| !self.holds(i, at) by {}
    }

    /// The index that resolves nothing.
    pub fn new() -> (index: SlotIndex)
        ensures
            index.wf(),
            index@ == Map::<Address, nat>::empty(),
    {
        let index = SlotIndex { buckets: Vec::new() };
        assert(index@ =~= Map::<Address, nat>::empty());
        index
    }

    /// The position that `at` resolves to, if any.
    pub fn get(&self, at: Address) -> (found: Option<usize>)
        requires
            self.wf(),
        ensures
            match found {
                Some(position) => self@.contains_key(at) && self@[at] == position,
                None => !self@.contains_key(at),
            },
    {
        let mut i: usize = 0;
        while i < self.buckets.len()
            invariant
                self.wf(),
                0 <= i <= self.buckets@.len(),
                forall|j: int| 0 <= j < i ==> self.buckets@[j].tag != at.tag,
            decreases self.buckets@.len() - i,
        {
            if same_type(&self.buckets[i].tag, &at.tag) {
                proof {
                    self.lemma_bucket_decides(i as int, at);
                }
                return match self.buckets[i].positions.get(&at.hash) {
                    Some(position) => Some(*position),
                    None => None,
                };
            }
            i += 1;
        }
        proof {
            self.lemma_no_bucket(at);
        }
        None
    }

    /// Makes `at` resolve to `position`, whatever it resolved to before. Every
    /// other address resolves as it did.
    pub fn insert(&mut self, at: Address, position: usize)
        requires
            old(self).wf(),
        ensures
            final(self).wf(),
            final(self)@ == old(self)@.insert(at, position as nat),
    {
        let mut i: usize = 0;
        while i < self.buckets.len()
            invariant
                self.wf(),
                0 <= i <= self.buckets@.len(),
                *self == *old(self),
                forall|j: int| 0 <= j < i ==> self.buckets@[j].tag != at.tag,
            decreases self.buckets@.len() - i,
        {
            if same_type(&self.buckets[i].tag, &at.tag) {
                self.buckets[i].positions.insert(at.hash, position);
                proof {
                    old(self).lemma_updated_bucket(self, i as int, at, position);
                }
                return ;
            }
            i += 1;
        }
        let mut positions: HashMap<u64, usize> = HashMap::new();
        positions.insert(at.hash, position);
        self.buckets.push(Bucket { tag: at.tag, positions });
        proof {
            old(self).lemma_added_bucket(self, at, position);
        }
    }

    /// Recording a position in the bucket of its type changes what that one
    /// address resolves to and nothing else.
    proof fn lemma_updated_bucket(&self, after: &SlotIndex, i: int, at: Address, position: usize)
        requires
            self.wf(),
            0 <= i < self.buckets@.len(),
            self.buckets@[i].tag == at.tag,
            after.buckets@.len() == self.buckets@.len(),
            after.buckets@[i].tag == at.tag,
            after.buckets@[i].positions@ == self.buckets@[i].positions@.insert(at.hash, position),
            forall|j: int|
                0 <= j < self.buckets@.len() && j != i ==> after.buckets@[j] == self.buckets@[j],
        ensures
            after.wf(),
            after@ == self@.insert(at, position as nat),
    {
        assert(after.wf()) by {
            assert forall|a: int, b: int| 0 <= a < b < after.buckets@.len() implies after.buckets@[a].tag
                != after.buckets@[b].tag by {
                assert(after.buckets@[a].tag == self.buckets@[a].tag);
                assert(after.buckets@[b].tag == self.buckets@[b].tag);
            }
        }
        assert forall|other: Address|
            #[trigger] after@.contains_key(other) == self@.insert(at, position as nat).contains_key(other) && (
            after@.contains_key(other) ==> after@[other] == self@.insert(at, position as nat)[other]) by {
            if other.tag == at.tag {
                self.lemma_bucket_decides(i, other);
                after.lemma_bucket_decides(i, other);
            } else {
                if after@.contains_key(other) {
                    let j = choose|j: int| after.holds(j, other);
                    assert(after.holds(j, other));
                    assert(j != i);
                    self.lemma_bucket_decides(j, other);
                    after.lemma_bucket_decides(j, other);
                }
                if self@.contains_key(other) {
                    let j = choose|j: int| self.holds(j, other);
                    assert(self.holds(j, other));
                    assert(j != i);
                    self.lemma_bucket_decides(j, other);
                    after.lemma_bucket_decides(j, other);
                }
            }
        }
        assert(after@ =~= self@.insert(at, position as nat));
    }

    /// Adding a bucket for a type that had none, with one position in it,
    /// changes what that one address resolves to and nothing else.
    proof fn lemma_added_bucket(&self, after: &SlotIndex, at: Address, position: usize)
        requires
            self.wf(),
            forall|j: int| 0 <= j < self.buckets@.len() ==> self.buckets@[j].tag != at.tag,
            after.buckets@.len() == self.buckets@.len() + 1,
            forall|j: int| 0 <= j < self.buckets@.len() ==> after.buckets@[j] == self.buckets@[j],
            after.buckets@[self.buckets@.len() as int].tag == at.tag,
            after.buckets@[self.buckets@.len() as int].positions@ == Map::<u64, usize>::empty().insert(
                at.hash,
                position,
            ),
        ensures
            after.wf(),
            after@ == self@.insert(at, position as nat),
    {
        let last = self.buckets@.len() as int;
        assert(after.wf()) by {
            assert forall|a: int, b: int| 0 <= a < b < after.buckets@.len() implies after.buckets@[a].tag
                != after.buckets@[b].tag by {
                assert(after.buckets@[a] == self.buckets@[a]);
                if b < last {
                    assert(after.buckets@[b] == self.buckets@[b]);
                }
            }
        }
        assert forall|other: Address|
            #[trigger] after@.contains_key(other) == self@.insert(at, position as nat).contains_key(other) && (
            after@.contains_key(other) ==> after@[other] == self@.insert(at, position as nat)[other]) by {
            if other.tag == at.tag {
                self.lemma_no_bucket(other);
                after.lemma_bucket_decides(last, other);
            } else {
                if after@.contains_key(other) {
                    let j = choose|j: int| after.holds(j, other);
                    assert(after.holds(j, other));
                    assert(j != last);
                    self.lemma_bucket_decides(j, other);
                    after.lemma_bucket_decides(j, other);
                }
                if self@.contains_key(other) {
                    let j = choose|j: int| self.holds(j, other);
                    assert(self.holds(j, other));
                    self.lemma_bucket_decides(j, other);
                    after.lemma_bucket_decides(j, other);
                }
            }
        }
        assert(after@ =~= self@.insert(at, position as nat));
    }
}

} // verus!
