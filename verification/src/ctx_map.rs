//! The context map: slot storage, lookup and the lazily kept defaults.

use crate::key::Key;
use crate::key::KeyMut;
use crate::key::RawKey;
use crate::schema::Schema;
use crate::schema::SchemaData;
use crate::slots::Slots;
use core::marker::PhantomData;
use vstd::prelude::*;

verus! {

/// The filled cells of a slot array, by slot.
spec fn filled<T>(cells: Seq<Option<T>>) -> Map<int, T> {
    Map::new(
        |slot: int| 0 <= slot < cells.len() && cells[slot] is Some,
        |slot: int| cells[slot].unwrap(),
    )
}

/// How the filled cells change when one cell of the array is set, and that
/// they do not change when an empty cell is added at the end.
proof fn lemma_filled<T>()
    ensures
        forall|cells: Seq<Option<T>>, slot: int, value: T|
            0 <= slot < cells.len() ==> #[trigger] filled(cells.update(slot, Some(value)))
                == filled(cells).insert(slot, value),
        forall|cells: Seq<Option<T>>, slot: int|
            0 <= slot < cells.len() ==> #[trigger] filled(cells.update(slot, None))
                == filled(cells).remove(slot),
        forall|cells: Seq<Option<T>>| #[trigger] filled(cells.push(None)) == filled(cells),
{
    assert forall|cells: Seq<Option<T>>, slot: int, value: T|
        0 <= slot < cells.len() implies #[trigger] filled(cells.update(slot, Some(value)))
        == filled(cells).insert(slot, value) by {
        assert(filled(cells.update(slot, Some(value))) =~= filled(cells).insert(slot, value));
    }
    assert forall|cells: Seq<Option<T>>, slot: int|
        0 <= slot < cells.len() implies #[trigger] filled(cells.update(slot, None))
        == filled(cells).remove(slot) by {
        assert(filled(cells.update(slot, None)) =~= filled(cells).remove(slot));
    }
    assert forall|cells: Seq<Option<T>>| #[trigger] filled(cells.push(None)) == filled(cells) by {
        assert(filled(cells.push(None)) =~= filled(cells));
    }
}

/// A collection that holds one value for each key of the schema `S`.
///
/// A key's value is the override that is in force for it, or else the
/// default that the map made for it on first need and keeps from then on.
pub struct CtxMap<S: Schema, T> {
    schema: PhantomData<S>,
    /// By slot, the override in force.
    overrides: Vec<Option<T>>,
    /// By slot, the default that was made.
    defaults: Vec<Option<T>>,
}

impl<S: Schema, T> CtxMap<S, T> {
    /// What the map holds.
    pub closed spec fn slots(&self) -> Slots<T> {
        Slots { overrides: filled(self.overrides@), defaults: filled(self.defaults@) }
    }

    /// The value that the map holds for `key` as it is, without making a
    /// default: the override in force, or else, for a key that has a
    /// default, the default that the map keeps.
    pub open spec fn held<const MUT: bool>(&self, key: &Key<S, T, MUT>) -> Option<T> {
        self.slots().peek(key.slot(), key.has_default())
    }

    /// The number of slots that the storage of the map has room for. A
    /// slot beyond it gets its room when it is first filled.
    pub closed spec fn room(&self) -> nat {
        if self.overrides@.len() <= self.defaults@.len() {
            self.overrides@.len()
        } else {
            self.defaults@.len()
        }
    }

    /// A map for the keys of `schema`, with no override in force and no
    /// default made yet. Its storage has room for the slots handed out so
    /// far, and grows when the key of a later slot is used.
    pub fn new(schema: &SchemaData<S>) -> (map: Self)
        ensures
            map.slots() == Slots::<T>::empty(),
            map.room() == schema.slots(),
    {
        let map = CtxMap {
            schema: PhantomData,
            overrides: schema.new_items(),
            defaults: schema.new_items(),
        };
        assert(map.slots().overrides =~= Map::<int, T>::empty());
        assert(map.slots().defaults =~= Map::<int, T>::empty());
        map
    }

    /// The value of `key`: the override in force, or else the default,
    /// which is made and kept now if this map has not made it before.
    /// `None` if there is no override and the key has no default.
    pub fn get<const MUT: bool>(&mut self, key: &Key<S, T, MUT>) -> (found: Option<&T>)
        ensures
            old(self).held(key) matches Some(value) ==> (found == Some(&value)
                && final(self).slots() == old(self).slots()),
            old(self).held(key) is None && !key.has_default() ==> (found is None
                && final(self).slots() == old(self).slots()),
            old(self).held(key) is None && key.has_default() ==> (found matches Some(made)
                && key.makes(*made)
                && final(self).slots() == old(self).slots().keep(key.slot(), *made)),
            final(self).slots().follows(old(self).slots()),
    {
        let raw = key.raw();
        let index: usize = raw.key().index();
        if index < self.overrides.len() && self.overrides[index].is_some() {
            return self.overrides[index].as_ref();
        }
        if !raw.provides_default() {
            return None;
        }
        if !(index < self.defaults.len() && self.defaults[index].is_some()) {
            self.init_value(index, raw);
        }
        self.defaults[index].as_ref()
    }

    /// Mutable access to the value of `key`: to the override in force, or
    /// else to the default, which is made and kept now if this map has not
    /// made it before. `None` if there is no override and the key has no
    /// default. What is written lands where the value was found.
    pub fn get_mut(&mut self, key: &KeyMut<S, T>) -> (found: Option<&mut T>)
        ensures
            old(self).held(key) matches Some(value) ==> (found matches Some(place)
                && *place == value),
            old(self).held(key) is None && key.has_default() ==> (found matches Some(place)
                && key.makes(*place)),
            old(self).held(key) is None && !key.has_default() ==> (found is None
                && final(self).slots() == old(self).slots()),
            found matches Some(place) ==> final(self).slots() == old(self).slots().write(
                key.slot(),
                *final(place),
            ),
            final(self).slots().follows(old(self).slots()),
    {
        let raw = key.raw();
        let index: usize = raw.key().index();
        proof {
            lemma_filled::<T>();
        }
        if index < self.overrides.len() && self.overrides[index].is_some() {
            return self.overrides[index].as_mut();
        }
        if !raw.provides_default() {
            return None;
        }
        if !(index < self.defaults.len() && self.defaults[index].is_some()) {
            self.init_value(index, raw);
        }
        self.defaults[index].as_mut()
    }

    /// The value of `key`, for a key that has one: an override in force or
    /// a default.
    pub fn index<const MUT: bool>(&mut self, key: &Key<S, T, MUT>) -> (value: &T)
        requires
            old(self).slots().active(key.slot()) is Some || key.has_default(),
        ensures
            old(self).held(key) matches Some(found) ==> (*value == found
                && final(self).slots() == old(self).slots()),
            old(self).held(key) is None ==> (key.makes(*value)
                && final(self).slots() == old(self).slots().keep(key.slot(), *value)),
            final(self).slots().follows(old(self).slots()),
    {
        match self.get(key) {
            Some(value) => value,
            None => unreached(),
        }
    }

    /// Mutable access to the value of `key`, for a key that has one: an
    /// override in force or a default. What is written lands where the
    /// value was found.
    pub fn index_mut(&mut self, key: &KeyMut<S, T>) -> (place: &mut T)
        requires
            old(self).slots().active(key.slot()) is Some || key.has_default(),
        ensures
            old(self).held(key) matches Some(found) ==> *place == found,
            old(self).held(key) is None ==> key.makes(*place),
            final(self).slots() == old(self).slots().write(key.slot(), *final(place)),
            final(self).slots().follows(old(self).slots()),
    {
        match self.get_mut(key) {
            Some(place) => place,
            None => unreached(),
        }
    }

    /// Makes `value` the override at `index`, growing the storage of the
    /// overrides up to that slot if need be, and returns what was there.
    pub(crate) fn install(&mut self, index: usize, value: T) -> (saved: Option<T>)
        requires
            index < usize::MAX,
        ensures
            saved == old(self).slots().active(index as int),
            final(self).slots() == old(self).slots().install(index as int, value),
    {
        proof {
            lemma_filled::<T>();
        }
        while self.overrides.len() <= index
            invariant
                index < usize::MAX,
                self.defaults == old(self).defaults,
                filled(self.overrides@) == filled(old(self).overrides@),
            decreases index + 1 - self.overrides@.len(),
        {
            self.overrides.push(None);
        }
        let mut cell = Some(value);
        core::mem::swap(&mut self.overrides[index], &mut cell);
        cell
    }

    /// Puts the override at `index` back to `saved`, and returns the
    /// override that was in force there.
    pub(crate) fn restore(&mut self, index: usize, saved: Option<T>) -> (ended: T)
        requires
            old(self).slots().active(index as int) is Some,
        ensures
            Some(ended) == old(self).slots().active(index as int),
            final(self).slots() == old(self).slots().restore(index as int, saved),
    {
        proof {
            lemma_filled::<T>();
        }
        let mut cell = saved;
        core::mem::swap(&mut self.overrides[index], &mut cell);
        match cell {
            Some(ended) => ended,
            None => unreached(),
        }
    }

    /// Makes the default of `raw` and keeps it at `index`, growing the
    /// storage of the defaults up to that slot if need be.
    fn init_value<const MUT: bool>(&mut self, index: usize, raw: &RawKey<S, T, MUT>)
        requires
            raw.has_default(),
            index < usize::MAX,
        ensures
            index < final(self).defaults@.len(),
            (final(self).defaults@[index as int] matches Some(made) && raw.makes(made)
                && final(self).slots() == old(self).slots().keep(index as int, made)),
            final(self).overrides == old(self).overrides,
    {
        proof {
            lemma_filled::<T>();
        }
        let init = raw.init();
        while self.defaults.len() <= index
            invariant
                index < usize::MAX,
                self.overrides == old(self).overrides,
                filled(self.defaults@) == filled(old(self).defaults@),
            decreases index + 1 - self.defaults@.len(),
        {
            self.defaults.push(None);
        }
        self.defaults[index] = Some(init);
    }
}

} // verus!
