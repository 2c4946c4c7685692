//! The slot that a cell protects: empty, or holding one boxed value.
//! Everything here works on the slot itself, once the lock is held.

use vstd::prelude::*;

verus! {

/// The slot after a replace with `by`: exactly `by`, whatever it held before.
pub open spec fn slot_after_replace<V>(before: Option<V>, by: Option<V>) -> Option<V> {
    by
}

/// The slot after the replaces `calls`, made one after the other from `start`.
pub open spec fn slot_after_replaces<V>(start: Option<V>, calls: Seq<Option<V>>) -> Option<V>
    decreases calls.len(),
{
    if calls.len() == 0 {
        start
    } else {
        slot_after_replace(slot_after_replaces(start, calls.drop_last()), calls.last())
    }
}

/// Whatever the slot held and whatever replaces came before, after a run of
/// replaces it holds what the last of them handed in (empty if that one
/// handed in nothing); after no replace at all it holds what it held.
pub proof fn lemma_last_replace_wins<V>(start: Option<V>, calls: Seq<Option<V>>)
    ensures
        calls.len() == 0 ==> slot_after_replaces(start, calls) == start,
        calls.len() > 0 ==> slot_after_replaces(start, calls) == calls.last(),
{
}

/// Stores `replace_by` in the slot, dropping what it held; `None` clears it.
pub fn replace_slot<T: ?Sized>(slot: &mut Option<Box<T>>, replace_by: Option<Box<T>>)
    ensures
        *final(slot) == slot_after_replace(*old(slot), replace_by),
{
    if let Some(value) = replace_by {
        *slot = Some(value);
    } else {
        slot.take();
    }
}

/// A shared borrow of the value the slot holds, if any.
pub fn slot_inner<T: ?Sized>(slot: &Option<Box<T>>) -> (r: Option<&T>)
    ensures
        r.is_some() == slot.is_some(),
        r.is_some() ==> r.unwrap() == &*slot.unwrap(),
{
    match slot {
        Some(b) => Some(&**b),
        None => None,
    }
}

/// A mutable borrow of the value the slot holds, if any; what is written
/// through it is what the slot holds afterwards.
pub fn slot_inner_mut<T: ?Sized>(slot: &mut Option<Box<T>>) -> (r: Option<&mut T>)
    ensures
        r.is_some() == old(slot).is_some(),
        r.is_some() ==> &*r.unwrap() == &*old(slot).unwrap(),
        r.is_some() ==> final(slot).is_some() && &*final(slot).unwrap() == &*final(r.unwrap()),
        old(slot).is_none() ==> *final(slot) == *old(slot),
{
    match slot {
        Some(b) => Some(&mut **b),
        None => None,
    }
}

/// A shared borrow of the box the slot holds, if any.
pub fn slot_inner_box<T: ?Sized>(slot: &Option<Box<T>>) -> (r: Option<&Box<T>>)
    ensures
        r.is_some() == slot.is_some(),
        r.is_some() ==> r.unwrap() == &slot.unwrap(),
{
    match slot {
        Some(b) => Some(b),
        None => None,
    }
}

} // verus!
