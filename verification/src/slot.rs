//! Slots of the in-memory store: live values whose types have been forgotten.
use std::any::Any;
use vstd::prelude::*;

verus! {

/// One live value of any `'static` type, boxed as `Box<dyn Any>`.
///
/// Proofs see a slot as an opaque value: they can say that a slot is the same
/// as it was, or which slot a lookup resolves to, but not what is inside.
#[verifier::external_body]
pub struct Slot {
    value: Box<dyn Any>,
}

/// Calls `Box::new` and forgets the type of the box. The contract is silent
/// about the slot that comes back.
#[verifier::external_body]
pub(crate) fn hold<V: 'static>(value: V) -> Slot {
    Slot { value: Box::new(value) }
}

/// Calls `<dyn Any>::downcast_ref::<V>`, which gives the value back if and only
/// if it is a `V`. The contract is silent about which of the two happens.
#[verifier::external_body]
pub(crate) fn held_ref<V: 'static>(slot: &Slot) -> Option<&V> {
    slot.value.downcast_ref::<V>()
}

/// Calls `<dyn Any>::downcast_mut::<V>`, which lends the value out if and only
/// if it is a `V`. The contract claims that a slot which lends nothing out is
/// left as it was.
#[verifier::external_body]
pub(crate) fn held_mut<V: 'static>(slot: &mut Slot) -> (held: Option<&mut V>)
    ensures
        held is None ==> *final(slot) == *old(slot),
{
    slot.value.downcast_mut::<V>()
}

} // verus!
