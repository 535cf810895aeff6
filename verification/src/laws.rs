//! What holds of every context map, stated over the model and proved.

use crate::ctx_map::CtxMap;
use crate::key::Key;
use crate::schema::Schema;
use crate::slots::Slots;
use vstd::prelude::*;

verus! {

/// The scope discipline holds between a moment and itself, and it carries
/// over a chain of steps: a body that is made of lookups and scoped
/// overrides, in any number and nested to any depth, keeps it.
pub proof fn law_discipline_composes<T>(first: Slots<T>, second: Slots<T>, third: Slots<T>)
    requires
        second.follows(first),
        third.follows(second),
    ensures
        first.follows(first),
        third.follows(first),
{
    assert forall|slot: int| first.overrides.contains_key(slot) implies #[trigger] third.cached(
        slot,
    ) == first.cached(slot) by {
        assert(second.overrides.contains_key(slot));
        assert(second.cached(slot) == first.cached(slot));
    }
    assert forall|slot: int| first.defaults.contains_key(slot) implies #[trigger]
        third.defaults.contains_key(slot) by {
        assert(second.defaults.contains_key(slot));
    }
    assert forall|slot: int|
        first.overrides.contains_key(slot) <==> #[trigger] third.overrides.contains_key(slot) by {
        assert(first.overrides.contains_key(slot) <==> second.overrides.contains_key(slot));
    }
}

/// A scoped override, from outside and from inside.
///
/// Let a map hold `outer`, let `value` become the override at `slot`, let a
/// body that keeps the scope discipline run and leave `inner`, and let the
/// saved override be put back. Then, in the body, a lookup at `slot` found
/// `value`. Afterwards the slot is as it was before: the same override or
/// none, the same kept default or none, so that a lookup finds what it
/// found before. Every other slot is as the body left it. The whole step
/// keeps the scope discipline, so that no override is in force after the
/// scope that was not in force before it.
pub proof fn law_scope_restores<T>(outer: Slots<T>, slot: int, value: T, inner: Slots<T>)
    requires
        inner.follows(outer.install(slot, value)),
    ensures
        forall|has_default: bool| outer.install(slot, value).peek(slot, has_default) == Some(value),
        inner.active(slot) is Some,
        inner.restore(slot, outer.active(slot)).active(slot) == outer.active(slot),
        inner.restore(slot, outer.active(slot)).cached(slot) == outer.cached(slot),
        forall|has_default: bool|
            inner.restore(slot, outer.active(slot)).peek(slot, has_default) == outer.peek(
                slot,
                has_default,
            ),
        forall|other: int|
            other != slot ==> inner.restore(slot, outer.active(slot)).active(other)
                == inner.active(other) && inner.restore(slot, outer.active(slot)).cached(other)
                == inner.cached(other),
        inner.restore(slot, outer.active(slot)).follows(outer),
        forall|other: int|
            inner.restore(slot, outer.active(slot)).active(other) is Some <==> outer.active(other)
                is Some,
{
    let entered = outer.install(slot, value);
    let after = inner.restore(slot, outer.active(slot));
    assert(entered.overrides.contains_key(slot));
    assert(inner.overrides.contains_key(slot));
    assert(inner.cached(slot) == entered.cached(slot));
    assert forall|other: int| outer.overrides.contains_key(other) implies #[trigger] after.cached(
        other,
    ) == outer.cached(other) by {
        assert(entered.overrides.contains_key(other));
        assert(inner.cached(other) == entered.cached(other));
    }
    assert forall|other: int| outer.defaults.contains_key(other) implies #[trigger]
        after.defaults.contains_key(other) by {
        assert(entered.defaults.contains_key(other));
        assert(inner.defaults.contains_key(other));
    }
    assert forall|other: int|
        outer.overrides.contains_key(other) <==> #[trigger] after.overrides.contains_key(other) by {
        assert(entered.overrides.contains_key(other) <==> inner.overrides.contains_key(other));
    }
}

/// Keys of one schema are interchangeable when they share their slot and
/// both have or both lack a default: a map holds the same value for both,
/// and an override for one is an override for the other. Whether a key
/// gives mutable access makes no difference to what the map holds for it.
pub proof fn law_keys_of_one_slot_agree<S: Schema, T, const A: bool, const B: bool>(
    map: CtxMap<S, T>,
    one: Key<S, T, A>,
    other: Key<S, T, B>,
    value: T,
)
    requires
        one.slot() == other.slot(),
        one.has_default() == other.has_default(),
    ensures
        map.held(&one) == map.held(&other),
        map.slots().install(one.slot(), value).peek(other.slot(), other.has_default()) == Some(
            value,
        ),
{
}

/// Slots are independent: what is installed, put back, kept or written at
/// one slot changes nothing for a lookup at another.
pub proof fn law_slots_independent<T>(
    held: Slots<T>,
    slot: int,
    other: int,
    value: T,
    saved: Option<T>,
    has_default: bool,
)
    requires
        slot != other,
    ensures
        held.install(slot, value).peek(other, has_default) == held.peek(other, has_default),
        held.restore(slot, saved).peek(other, has_default) == held.peek(other, has_default),
        held.keep(slot, value).peek(other, has_default) == held.peek(other, has_default),
        held.write(slot, value).peek(other, has_default) == held.peek(other, has_default),
{
}

/// A fresh map holds nothing: a lookup finds no value there, so for a key
/// with a default it makes the default and returns it, and from then on
/// lookups find that default in the map.
pub proof fn law_fresh_map_gives_default<T>(slot: int, has_default: bool, made: T)
    ensures
        Slots::<T>::empty().active(slot) is None,
        Slots::<T>::empty().cached(slot) is None,
        Slots::<T>::empty().peek(slot, has_default) is None,
        Slots::<T>::empty().keep(slot, made).peek(slot, true) == Some(made),
{
}

/// A default is made at most once for each slot of a map.
///
/// A lookup makes a default only where it finds no value. Once a default
/// is kept at `slot`, a lookup for a key with a default finds a value
/// there, in `kept` and at every later moment `later` of the map, whatever
/// lookups, writes and scoped overrides lie between.
pub proof fn law_default_made_once<T>(kept: Slots<T>, slot: int, later: Slots<T>)
    requires
        kept.cached(slot) is Some,
        later.follows(kept),
    ensures
        kept.peek(slot, true) is Some,
        later.cached(slot) is Some,
        later.peek(slot, true) is Some,
{
    assert(kept.defaults.contains_key(slot));
    assert(later.defaults.contains_key(slot));
}

/// Nested scoped overrides of one key.
///
/// In a map that holds `outer`, let `first` become the override at `slot`;
/// in that scope let `second` become the override; let the inner body
/// leave `innermost`, and let the rest of the outer body, after the inner
/// scope has ended, leave `rest`. Then a lookup in the inner body found
/// `second`; between the end of the inner scope and the end of the outer
/// one the override is `first` again; and after both the slot is as it was
/// at the beginning.
pub proof fn law_nested_scopes<T>(
    outer: Slots<T>,
    slot: int,
    first: T,
    second: T,
    innermost: Slots<T>,
    rest: Slots<T>,
)
    requires
        innermost.follows(outer.install(slot, first).install(slot, second)),
        rest.follows(innermost.restore(slot, Some(first))),
    ensures
        forall|has_default: bool|
            outer.install(slot, first).install(slot, second).peek(slot, has_default) == Some(
                second,
            ),
        forall|has_default: bool|
            innermost.restore(slot, Some(first)).peek(slot, has_default) == Some(first),
        innermost.restore(slot, Some(first)).follows(outer.install(slot, first)),
        rest.restore(slot, outer.active(slot)).active(slot) == outer.active(slot),
        rest.restore(slot, outer.active(slot)).cached(slot) == outer.cached(slot),
        forall|has_default: bool|
            rest.restore(slot, outer.active(slot)).peek(slot, has_default) == outer.peek(
                slot,
                has_default,
            ),
        rest.restore(slot, outer.active(slot)).follows(outer),
{
    let entered = outer.install(slot, first);
    law_scope_restores(entered, slot, second, innermost);
    let between = innermost.restore(slot, Some(first));
    assert(entered.active(slot) == Some(first));
    law_discipline_composes(entered, between, rest);
    law_scope_restores(outer, slot, first, rest);
}

/// A write through a key with mutable access.
///
/// With no override in force at `slot`, a write of `written` lands in the
/// default that the map keeps, and lookups find it from then on. A scoped
/// override with `value` hides it: in the scope lookups find `value`, a
/// write of `inside` lands in the override and leaves the kept default
/// alone. When the scope ends, the override is gone and lookups find
/// `written` again.
pub proof fn law_mutable_write<T>(
    outer: Slots<T>,
    slot: int,
    written: T,
    value: T,
    inside: T,
    inner: Slots<T>,
)
    requires
        outer.active(slot) is None,
        inner.follows(outer.write(slot, written).install(slot, value).write(slot, inside)),
    ensures
        outer.write(slot, written).peek(slot, true) == Some(written),
        outer.write(slot, written).install(slot, value).peek(slot, true) == Some(value),
        outer.write(slot, written).install(slot, value).write(slot, inside).peek(slot, true)
            == Some(inside),
        outer.write(slot, written).install(slot, value).write(slot, inside).cached(slot) == Some(
            written,
        ),
        inner.active(slot) is Some,
        inner.restore(slot, None).active(slot) is None,
        inner.restore(slot, None).peek(slot, true) == Some(written),
{
    let kept = outer.write(slot, written);
    let entered = kept.install(slot, value);
    let changed = entered.write(slot, inside);
    assert(changed == kept.install(slot, inside));
    law_scope_restores(kept, slot, inside, inner);
}

} // verus!
