//! Keys: the typed handle of a slot, and the description of its default.

use crate::schema::Schema;
use crate::schema::SchemaData;
use core::marker::PhantomData;
use vstd::prelude::*;

verus! {

/// The typed handle of one slot of the schema `S`, for values of type `T`.
///
/// Two handles stand for the same slot exactly when their indices agree.
pub struct CtxMapKey<S: Schema, T> {
    index: usize,
    value: PhantomData<T>,
    schema: PhantomData<S>,
}

impl<S: Schema, T> CtxMapKey<S, T> {
    #[verifier::type_invariant]
    spec fn below_limit(self) -> bool {
        self.index < usize::MAX
    }

    /// The slot that the handle stands for.
    pub closed spec fn slot(&self) -> int {
        self.index as int
    }

    /// The index of the slot in a map's storage.
    pub fn index(&self) -> (index: usize)
        ensures
            index == self.slot(),
            index < usize::MAX,
    {
        proof {
            use_type_invariant(self);
        }
        self.index
    }

    /// Whether both handles stand for the same slot.
    pub fn same_slot(&self, other: &CtxMapKey<S, T>) -> (same: bool)
        ensures
            same == (self.slot() == other.slot()),
    {
        self.index == other.index
    }
}

impl<S: Schema> SchemaData<S> {
    /// Registers a key for values of type `T`: takes the next slot of the
    /// schema and returns its handle.
    pub fn register<T>(&mut self) -> (key: CtxMapKey<S, T>)
        requires
            old(self).slots() < usize::MAX,
        ensures
            key.slot() == old(self).slots(),
            final(self).slots() == old(self).slots() + 1,
    {
        let index: usize = self.push_key();
        CtxMapKey { index, value: PhantomData, schema: PhantomData }
    }
}

/// How the default of a key comes to be.
trait KeyData<T>: Send + Sync {
    /// Whether the default can be asked for.
    spec fn ready(&self) -> bool;

    /// Whether `value` is a default that `init` may return.
    spec fn makes(&self, value: T) -> bool;

    /// Makes a fresh default.
    fn init(&self) -> (value: T)
        requires
            self.ready(),
        ensures
            self.makes(value),
    ;
}

/// A default that a function makes on demand.
struct KeyDataValue<Init> {
    init: Init,
}

impl<T, Init: Send + Sync + Fn() -> T> KeyData<T> for KeyDataValue<Init> {
    closed spec fn ready(&self) -> bool {
        call_requires(self.init, ())
    }

    closed spec fn makes(&self, value: T) -> bool {
        call_ensures(self.init, (), value)
    }

    fn init(&self) -> (value: T) {
        (self.init)()
    }
}

/// A registered key: the handle of its slot and, if it has one, the
/// description of its default. `MUT` tells whether the key gives mutable
/// access to its value.
#[verifier::reject_recursive_types(T)]
pub struct RawKey<S: Schema, T, const MUT: bool> {
    key: CtxMapKey<S, T>,
    data: Option<Box<dyn KeyData<T>>>,
}

/// A registered key with mutable access.
pub type RawKeyMut<S, T> = RawKey<S, T, true>;

impl<S: Schema, T, const MUT: bool> RawKey<S, T, MUT> {
    #[verifier::type_invariant]
    spec fn default_ready(self) -> bool {
        self.data matches Some(data) ==> data.ready()
    }

    /// The slot of the key.
    pub closed spec fn slot(&self) -> int {
        self.key.slot()
    }

    /// Whether the key has a default.
    pub closed spec fn has_default(&self) -> bool {
        self.data is Some
    }

    /// Whether `value` is a default that the key may make: a value that its
    /// factory may return.
    pub closed spec fn makes(&self, value: T) -> bool {
        self.data matches Some(data) && data.makes(value)
    }

    /// Registers a key with the given description of its default.
    fn new(schema: &mut SchemaData<S>, data: Option<Box<dyn KeyData<T>>>) -> (raw: Self)
        requires
            old(schema).slots() < usize::MAX,
            data matches Some(d) ==> d.ready(),
        ensures
            raw.slot() == old(schema).slots(),
            final(schema).slots() == old(schema).slots() + 1,
            raw.data == data,
    {
        RawKey { key: schema.register(), data }
    }

    /// Whether the key has a default.
    pub fn provides_default(&self) -> (provided: bool)
        ensures
            provided == self.has_default(),
    {
        self.data.is_some()
    }

    /// Makes a fresh default of the key.
    pub(crate) fn init(&self) -> (value: T)
        requires
            self.has_default(),
        ensures
            self.makes(value),
    {
        proof {
            use_type_invariant(self);
        }
        match &self.data {
            Some(data) => data.init(),
            None => unreached(),
        }
    }

    /// The handle of the key's slot.
    pub fn key(&self) -> (key: &CtxMapKey<S, T>)
        ensures
            key.slot() == self.slot(),
    {
        &self.key
    }
}

impl<S: Schema, T> RawKey<S, T, false> {
    /// Registers a key whose default is made by `init`, on first need, once
    /// for each map.
    pub fn new_with_default<Init>(schema: &mut SchemaData<S>, init: Init) -> (raw: Self) where
        Init: Send + Sync + Fn() -> T + 'static,

        requires
            old(schema).slots() < usize::MAX,
            call_requires(init, ()),
        ensures
            raw.slot() == old(schema).slots(),
            final(schema).slots() == old(schema).slots() + 1,
            raw.has_default(),
            forall|value: T| raw.makes(value) <==> call_ensures(init, (), value),
    {
        Self::new(schema, Some(Box::new(KeyDataValue { init })))
    }
}

impl<S: Schema, T> RawKey<S, T, true> {
    /// Registers a key with mutable access whose default is made by `init`,
    /// on first need, once for each map.
    pub fn new_with_default_mut<Init>(schema: &mut SchemaData<S>, init: Init) -> (raw: Self) where
        Init: Send + Sync + Fn() -> T + 'static,

        requires
            old(schema).slots() < usize::MAX,
            call_requires(init, ()),
        ensures
            raw.slot() == old(schema).slots(),
            final(schema).slots() == old(schema).slots() + 1,
            raw.has_default(),
            forall|value: T| raw.makes(value) <==> call_ensures(init, (), value),
    {
        Self::new(schema, Some(Box::new(KeyDataValue { init })))
    }
}

/// A key of a context map of the schema `S`, for values of type `T`.
#[verifier::reject_recursive_types(T)]
pub struct Key<S: Schema, T, const MUT: bool>(RawKey<S, T, MUT>);

/// A key that gives mutable access to its value.
pub type KeyMut<S, T> = Key<S, T, true>;

impl<S: Schema, T, const MUT: bool> Key<S, T, MUT> {
    /// The slot of the key.
    pub closed spec fn slot(&self) -> int {
        self.0.slot()
    }

    /// Whether the key has a default.
    pub closed spec fn has_default(&self) -> bool {
        self.0.has_default()
    }

    /// Whether `value` is a default that the key may make.
    pub closed spec fn makes(&self, value: T) -> bool {
        self.0.makes(value)
    }

    /// The registered key behind this key.
    pub fn raw(&self) -> (raw: &RawKey<S, T, MUT>)
        ensures
            raw.slot() == self.slot(),
            raw.has_default() == self.has_default(),
            forall|value: T| raw.makes(value) == self.makes(value),
    {
        &self.0
    }
}

/// Registers a key that has no default.
pub fn new_key_without_default<S: Schema, T, const MUT: bool>(schema: &mut SchemaData<S>) -> (key:
    Key<S, T, MUT>)
    requires
        old(schema).slots() < usize::MAX,
    ensures
        key.slot() == old(schema).slots(),
        final(schema).slots() == old(schema).slots() + 1,
        !key.has_default(),
        forall|value: T| !key.makes(value),
{
    Key(RawKey::new(schema, None))
}

/// The key of a registered key.
pub fn new_key<S: Schema, T, const MUT: bool>(raw: RawKey<S, T, MUT>) -> (key: Key<S, T, MUT>)
    ensures
        key.slot() == raw.slot(),
        key.has_default() == raw.has_default(),
        forall|value: T| key.makes(value) == raw.makes(value),
{
    Key(raw)
}

} // verus!
