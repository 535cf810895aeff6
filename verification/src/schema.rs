//! The registry of a schema: it hands every key of the schema its slot.

use core::marker::PhantomData;
use vstd::prelude::*;

verus! {

/// A closed namespace of keys. A type that implements `Schema` names one
/// namespace; registries, keys and maps carry it as a parameter, so that a
/// key of one schema cannot address a map of another.
pub trait Schema: Sized {

}

/// Every schema can be the schema of a context map.
pub trait CtxMapSchema: Schema {

}

impl<S: Schema> CtxMapSchema for S {

}

/// The registry of the schema `S`: the count of the slots handed out so far.
///
/// Slots are numbered from zero without gaps, in the order in which the keys
/// were registered, and a slot is never taken back.
pub struct SchemaData<S: Schema> {
    next: usize,
    schema: PhantomData<S>,
}

impl<S: Schema> SchemaData<S> {
    /// The number of slots handed out so far.
    pub closed spec fn slots(&self) -> nat {
        self.next as nat
    }

    /// A registry that has handed out no slot.
    pub fn new() -> (data: Self)
        ensures
            data.slots() == 0,
    {
        SchemaData { next: 0, schema: PhantomData }
    }

    /// The number of slots handed out so far; a new map is sized by it.
    pub fn slot_count(&self) -> (count: usize)
        ensures
            count == self.slots(),
    {
        self.next
    }

    /// Hands out the next slot: the lowest index not handed out before.
    pub fn push_key(&mut self) -> (index: usize)
        requires
            old(self).slots() < usize::MAX,
        ensures
            index == old(self).slots(),
            final(self).slots() == old(self).slots() + 1,
    {
        let index: usize = self.next;
        self.next = index + 1;
        index
    }

    /// The empty slot array of a new map: one empty slot for each slot
    /// handed out so far.
    pub fn new_items<T>(&self) -> (items: Vec<Option<T>>)
        ensures
            items@.len() == self.slots(),
            forall|slot: int| 0 <= slot < items@.len() ==> items@[slot] is None,
    {
        let mut items: Vec<Option<T>> = Vec::with_capacity(self.next);
        let mut filled: usize = 0;
        while filled < self.next
            invariant
                filled <= self.next,
                items@.len() == filled,
                forall|slot: int| 0 <= slot < items@.len() ==> items@[slot] is None,
            decreases self.next - filled,
        {
            items.push(None);
            filled = filled + 1;
        }
        items
    }
}

} // verus!
