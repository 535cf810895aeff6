//! The mathematical model of a context map: which slots carry an override and
//! which slots hold a default that the map has already made.

use vstd::prelude::*;

verus! {

/// What a context map holds, slot by slot.
///
/// A slot is named by the index that the registry gave to its key. The
/// storage behind a map may be longer or shorter than the highest index in
/// use; the model does not see that, only which slots are filled.
#[verifier::ext_equal]
pub struct Slots<T> {
    /// The override in force at each slot that has one.
    pub overrides: Map<int, T>,
    /// The default that the map made and keeps, at each slot where it made one.
    pub defaults: Map<int, T>,
}

impl<T> Slots<T> {
    /// The model of a map that holds nothing yet.
    pub open spec fn empty() -> Slots<T> {
        Slots { overrides: Map::empty(), defaults: Map::empty() }
    }

    /// The override in force at `slot`, if there is one.
    pub open spec fn active(self, slot: int) -> Option<T> {
        if self.overrides.contains_key(slot) {
            Some(self.overrides[slot])
        } else {
            None
        }
    }

    /// The default kept at `slot`, if the map has made one.
    pub open spec fn cached(self, slot: int) -> Option<T> {
        if self.defaults.contains_key(slot) {
            Some(self.defaults[slot])
        } else {
            None
        }
    }

    /// The model after `value` became the override at `slot`.
    pub open spec fn install(self, slot: int, value: T) -> Slots<T> {
        Slots { overrides: self.overrides.insert(slot, value), defaults: self.defaults }
    }

    /// The model after the override at `slot` was put back to `saved`.
    pub open spec fn restore(self, slot: int, saved: Option<T>) -> Slots<T> {
        match saved {
            Some(value) => self.install(slot, value),
            None => Slots { overrides: self.overrides.remove(slot), defaults: self.defaults },
        }
    }

    /// The model after `value` became the default kept at `slot`.
    pub open spec fn keep(self, slot: int, value: T) -> Slots<T> {
        Slots { overrides: self.overrides, defaults: self.defaults.insert(slot, value) }
    }

    /// What a lookup at `slot` finds without making anything: the override,
    /// or else the kept default of a key that has a default.
    pub open spec fn peek(self, slot: int, has_default: bool) -> Option<T> {
        if self.overrides.contains_key(slot) {
            Some(self.overrides[slot])
        } else if has_default {
            self.cached(slot)
        } else {
            None
        }
    }

    /// The model after `value` was written through a mutable lookup at `slot`:
    /// it lands in the override if one is in force, else in the kept default.
    pub open spec fn write(self, slot: int, value: T) -> Slots<T> {
        if self.overrides.contains_key(slot) {
            self.install(slot, value)
        } else {
            self.keep(slot, value)
        }
    }

    /// The scope discipline between two moments of one map, `before` and
    /// `self`: no override has appeared or gone, the default under an
    /// override in force is untouched, and no kept default was dropped.
    pub open spec fn follows(self, before: Slots<T>) -> bool {
        &&& forall|slot: int|
            before.overrides.contains_key(slot) <==> #[trigger] self.overrides.contains_key(slot)
        &&& forall|slot: int|
            before.overrides.contains_key(slot) ==> #[trigger] self.cached(slot) == before.cached(
                slot,
            )
        &&& forall|slot: int|
            before.defaults.contains_key(slot) ==> #[trigger] self.defaults.contains_key(slot)
    }
}

impl<T: Clone> Slots<T> {
    /// Whether `self` is `outer` with a copy of `value` as the override at
    /// `slot`: what the body of a scoped override starts from.
    pub open spec fn entered(self, outer: Slots<T>, slot: int, value: T) -> bool {
        self.active(slot) matches Some(copy) && cloned(value, copy) && self == outer.install(
            slot,
            copy,
        )
    }
}

} // verus!
