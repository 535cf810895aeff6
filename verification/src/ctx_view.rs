//! The view of a map inside a scope: lookup and the scoped override.

use crate::ctx_map::CtxMap;
use crate::key::Key;
use crate::key::KeyMut;
use crate::laws::law_scope_restores;
use crate::schema::Schema;
use crate::slots::Slots;
use core::marker::PhantomData;
use vstd::prelude::*;

verus! {

/// Exclusive access to a [`CtxMap`] for the time of a scope.
///
/// The body of a scoped override works on the map through a view. A view
/// gives lookup and further scoped overrides, and nothing that exchanges
/// the map as a whole. The lifetime of a view is invariant, and the body
/// of a scoped override has to take a view of any lifetime: so the body
/// cannot put another view in the place of the one it was given.
pub struct CtxMapView<'a, S: Schema, T>(&'a mut CtxMap<S, T>, PhantomData<&'a mut &'a ()>);

impl<'a, S: Schema, T> CtxMapView<'a, S, T> {
    /// What the map behind the view holds.
    pub closed spec fn slots(&self) -> Slots<T> {
        self.0.slots()
    }

    /// The value that the map behind the view holds for `key` as it is,
    /// without making a default.
    pub open spec fn held<const MUT: bool>(&self, key: &Key<S, T, MUT>) -> Option<T> {
        self.slots().peek(key.slot(), key.has_default())
    }

    /// The map behind the view. Every operation of a view leaves the view
    /// on its map: what the map is in the end is the same before and after
    /// the operation.
    pub closed spec fn target(&self) -> &mut CtxMap<S, T> {
        self.0
    }

    /// Overrides the value of `key` while `f` runs: saves the override at
    /// the key's slot, makes `value` the override, growing the storage up
    /// to the slot if need be, runs `f` on this view and puts the saved
    /// override back. Returns what `f` returned and the value that the
    /// override had when `f` ended.
    fn with_impl<U, F, const MUT: bool>(
        &mut self,
        key: &Key<S, T, MUT>,
        value: T,
        f: F,
    ) -> (done: (U, T)) where F: FnOnce(&mut CtxMapView<S, T>) -> U
        requires
            forall|m: &mut CtxMapView<S, T>|
                m.slots() == old(self).slots().install(key.slot(), value)
                    ==> call_requires(f, (m,)),
            forall|m: &mut CtxMapView<S, T>, r: U|
                call_ensures(f, (m,), r) ==> final(m).slots().follows(m.slots())
                    && *final(final(m).target()) == *final(m.target()),
        ensures
            exists|m: &mut CtxMapView<S, T>|
                m.slots() == old(self).slots().install(key.slot(), value)
                    && #[trigger] call_ensures(f, (m,), done.0)
                    && final(m).slots().active(key.slot()) == Some(done.1)
                    && final(self).slots() == final(m).slots().restore(
                    key.slot(),
                    old(self).slots().active(key.slot()),
                ),
            final(self).slots().active(key.slot()) == old(self).slots().active(key.slot()),
            final(self).slots().cached(key.slot()) == old(self).slots().cached(key.slot()),
            final(self).slots().follows(old(self).slots()),
            *final(final(self).target()) == *final(old(self).target()),
    {
        let index: usize = key.raw().key().index();
        let saved = self.0.install(index, value);
        assert(self.slots() == old(self).slots().install(key.slot(), value));
        let ret = f(self);
        let ghost body = choose|m: &mut CtxMapView<S, T>|
            m.slots() == old(self).slots().install(key.slot(), value)
                && #[trigger] call_ensures(f, (m,), ret) && final(m).slots() == self.slots();
        proof {
            law_scope_restores(old(self).slots(), key.slot(), value, final(body).slots());
        }
        let ended = self.0.restore(index, saved);
        let done = (ret, ended);
        assert(call_ensures(f, (body,), done.0)
            && final(body).slots().active(key.slot()) == Some(done.1));
        done
    }

    /// Sets a value for `key` only while `f` is being called.
    ///
    /// `f` runs on this view with a copy of `value` as the override at the
    /// key's slot. When `f` has returned, the slot is as it was before the
    /// call, and every other slot is as `f` left it. `f` has to keep the
    /// scope discipline and the map of its view, as every operation of a
    /// view does.
    pub fn with<U, F>(&mut self, key: &Key<S, T, false>, value: &T, f: F) -> (ret: U) where
        T: Clone,
        F: FnOnce(&mut CtxMapView<S, T>) -> U,

        requires
            forall|m: &mut CtxMapView<S, T>|
                m.slots().entered(old(self).slots(), key.slot(), *value)
                    ==> call_requires(f, (m,)),
            forall|m: &mut CtxMapView<S, T>, r: U|
                call_ensures(f, (m,), r) ==> final(m).slots().follows(m.slots())
                    && *final(final(m).target()) == *final(m.target()),
        ensures
            exists|m: &mut CtxMapView<S, T>|
                m.slots().entered(old(self).slots(), key.slot(), *value)
                    && #[trigger] call_ensures(f, (m,), ret)
                    && final(self).slots() == final(m).slots().restore(
                    key.slot(),
                    old(self).slots().active(key.slot()),
                ),
            final(self).slots().active(key.slot()) == old(self).slots().active(key.slot()),
            final(self).slots().cached(key.slot()) == old(self).slots().cached(key.slot()),
            final(self).slots().follows(old(self).slots()),
            *final(final(self).target()) == *final(old(self).target()),
    {
        let copy = value.clone();
        assert(cloned(*value, copy));
        let done = self.with_impl(key, copy, f);
        done.0
    }

    /// Sets a mutable value for `key` only while `f` is being called.
    ///
    /// `f` runs on this view with a copy of `value` as the override at the
    /// key's slot, and what `f` leaves as that override is written back to
    /// `value`. When `f` has returned, the slot is as it was before the
    /// call, and every other slot is as `f` left it. `f` has to keep the
    /// scope discipline and the map of its view, as every operation of a
    /// view does.
    pub fn with_mut<U, F, const MUT: bool>(
        &mut self,
        key: &Key<S, T, MUT>,
        value: &mut T,
        f: F,
    ) -> (ret: U) where T: Clone, F: FnOnce(&mut CtxMapView<S, T>) -> U
        requires
            forall|m: &mut CtxMapView<S, T>|
                m.slots().entered(old(self).slots(), key.slot(), *old(value))
                    ==> call_requires(f, (m,)),
            forall|m: &mut CtxMapView<S, T>, r: U|
                call_ensures(f, (m,), r) ==> final(m).slots().follows(m.slots())
                    && *final(final(m).target()) == *final(m.target()),
        ensures
            exists|m: &mut CtxMapView<S, T>|
                m.slots().entered(old(self).slots(), key.slot(), *old(value))
                    && #[trigger] call_ensures(f, (m,), ret)
                    && final(m).slots().active(key.slot()) == Some(*final(value))
                    && final(self).slots() == final(m).slots().restore(
                    key.slot(),
                    old(self).slots().active(key.slot()),
                ),
            final(self).slots().active(key.slot()) == old(self).slots().active(key.slot()),
            final(self).slots().cached(key.slot()) == old(self).slots().cached(key.slot()),
            final(self).slots().follows(old(self).slots()),
            *final(final(self).target()) == *final(old(self).target()),
    {
        let copy = value.clone();
        assert(cloned(*value, copy));
        let done = self.with_impl(key, copy, f);
        *value = done.1;
        done.0
    }

    /// A view of the same map for a shorter time.
    pub fn view(&mut self) -> (view: CtxMapView<'_, S, T>)
        ensures
            view.slots() == old(self).slots(),
            final(self).slots() == final(view.target()).slots(),
            *final(final(self).target()) == *final(old(self).target()),
    {
        CtxMapView(self.0, PhantomData)
    }

    /// The value of `key`: the override in force, or else the default,
    /// which is made and kept now if the map has not made it before.
    /// `None` if there is no override and the key has no default.
    pub fn get<const MUT: bool>(&mut self, key: &Key<S, T, MUT>) -> (found: Option<&T>)
        ensures
            old(self).held(key) matches Some(value) ==> (found == Some(&value)
                && final(self).slots() == old(self).slots()),
            old(self).held(key) is None && !key.has_default() ==> (found is None
                && final(self).slots() == old(self).slots()),
            old(self).held(key) is None && key.has_default() ==> (found matches Some(made)
                && key.makes(*made)
                && final(self).slots() == old(self).slots().keep(key.slot(), *made)),
            final(self).slots().follows(old(self).slots()),
            *final(final(self).target()) == *final(old(self).target()),
    {
        self.0.get(key)
    }

    /// Mutable access to the value of `key`: to the override in force, or
    /// else to the default, which is made and kept now if the map has not
    /// made it before. `None` if there is no override and the key has no
    /// default. What is written lands where the value was found.
    pub fn get_mut(&mut self, key: &KeyMut<S, T>) -> (found: Option<&mut T>)
        ensures
            old(self).held(key) matches Some(value) ==> (found matches Some(place)
                && *place == value),
            old(self).held(key) is None && key.has_default() ==> (found matches Some(place)
                && key.makes(*place)),
            old(self).held(key) is None && !key.has_default() ==> (found is None
                && final(self).slots() == old(self).slots()),
            found matches Some(place) ==> final(self).slots() == old(self).slots().write(
                key.slot(),
                *final(place),
            ),
            final(self).slots().follows(old(self).slots()),
            *final(final(self).target()) == *final(old(self).target()),
    {
        self.0.get_mut(key)
    }

    /// The value of `key`, for a key that has one: an override in force or
    /// a default.
    pub fn index<const MUT: bool>(&mut self, key: &Key<S, T, MUT>) -> (value: &T)
        requires
            old(self).slots().active(key.slot()) is Some || key.has_default(),
        ensures
            old(self).held(key) matches Some(found) ==> (*value == found
                && final(self).slots() == old(self).slots()),
            old(self).held(key) is None ==> (key.makes(*value)
                && final(self).slots() == old(self).slots().keep(key.slot(), *value)),
            final(self).slots().follows(old(self).slots()),
            *final(final(self).target()) == *final(old(self).target()),
    {
        self.0.index(key)
    }

    /// Mutable access to the value of `key`, for a key that has one: an
    /// override in force or a default. What is written lands where the
    /// value was found.
    pub fn index_mut(&mut self, key: &KeyMut<S, T>) -> (place: &mut T)
        requires
            old(self).slots().active(key.slot()) is Some || key.has_default(),
        ensures
            old(self).held(key) matches Some(found) ==> *place == found,
            old(self).held(key) is None ==> key.makes(*place),
            final(self).slots() == old(self).slots().write(key.slot(), *final(place)),
            final(self).slots().follows(old(self).slots()),
            *final(final(self).target()) == *final(old(self).target()),
    {
        self.0.index_mut(key)
    }
}

impl<S: Schema, T> CtxMap<S, T> {
    /// A view of the map. When the view is given up, the map is as the
    /// view left it.
    pub fn view(&mut self) -> (view: CtxMapView<'_, S, T>)
        ensures
            view.slots() == old(self).slots(),
            *final(self) == *final(view.target()),
    {
        CtxMapView(self, PhantomData)
    }

    /// Sets a value for `key` only while `f` is being called.
    ///
    /// `f` runs on a view of the map with a copy of `value` as the override
    /// at the key's slot. When `f` has returned, the slot is as it was
    /// before the call, and every other slot is as `f` left it. `f` has to
    /// keep the scope discipline and the map of its view, as every
    /// operation of a view does.
    pub fn with<U, F>(&mut self, key: &Key<S, T, false>, value: &T, f: F) -> (ret: U) where
        T: Clone,
        F: FnOnce(&mut CtxMapView<S, T>) -> U,

        requires
            forall|m: &mut CtxMapView<S, T>|
                m.slots().entered(old(self).slots(), key.slot(), *value)
                    ==> call_requires(f, (m,)),
            forall|m: &mut CtxMapView<S, T>, r: U|
                call_ensures(f, (m,), r) ==> final(m).slots().follows(m.slots())
                    && *final(final(m).target()) == *final(m.target()),
        ensures
            exists|m: &mut CtxMapView<S, T>|
                m.slots().entered(old(self).slots(), key.slot(), *value)
                    && #[trigger] call_ensures(f, (m,), ret)
                    && final(self).slots() == final(m).slots().restore(
                    key.slot(),
                    old(self).slots().active(key.slot()),
                ),
            final(self).slots().active(key.slot()) == old(self).slots().active(key.slot()),
            final(self).slots().cached(key.slot()) == old(self).slots().cached(key.slot()),
            final(self).slots().follows(old(self).slots()),
    {
        let mut view = self.view();
        view.with(key, value, f)
    }

    /// Sets a mutable value for `key` only while `f` is being called.
    ///
    /// `f` runs on a view of the map with a copy of `value` as the override
    /// at the key's slot, and what `f` leaves as that override is written
    /// back to `value`. When `f` has returned, the slot is as it was before
    /// the call, and every other slot is as `f` left it. `f` has to keep
    /// the scope discipline and the map of its view, as every operation of
    /// a view does.
    pub fn with_mut<U, F, const MUT: bool>(
        &mut self,
        key: &Key<S, T, MUT>,
        value: &mut T,
        f: F,
    ) -> (ret: U) where T: Clone, F: FnOnce(&mut CtxMapView<S, T>) -> U
        requires
            forall|m: &mut CtxMapView<S, T>|
                m.slots().entered(old(self).slots(), key.slot(), *old(value))
                    ==> call_requires(f, (m,)),
            forall|m: &mut CtxMapView<S, T>, r: U|
                call_ensures(f, (m,), r) ==> final(m).slots().follows(m.slots())
                    && *final(final(m).target()) == *final(m.target()),
        ensures
            exists|m: &mut CtxMapView<S, T>|
                m.slots().entered(old(self).slots(), key.slot(), *old(value))
                    && #[trigger] call_ensures(f, (m,), ret)
                    && final(m).slots().active(key.slot()) == Some(*final(value))
                    && final(self).slots() == final(m).slots().restore(
                    key.slot(),
                    old(self).slots().active(key.slot()),
                ),
            final(self).slots().active(key.slot()) == old(self).slots().active(key.slot()),
            final(self).slots().cached(key.slot()) == old(self).slots().cached(key.slot()),
            final(self).slots().follows(old(self).slots()),
    {
        let mut view = self.view();
        view.with_mut(key, value, f)
    }
}

} // verus!
