//! A context map: a collection that holds one value for each key of a
//! schema, where a value can be overridden for the time of a call.
//!
//! A [`SchemaData`] registers the keys of a schema and gives each its slot.
//! A [`CtxMap`] holds, slot by slot, the override that is in force and the
//! default that it made on first need. [`CtxMap::with`] puts an override in
//! force while a function runs on a [`CtxMapView`] of the map, and puts the
//! earlier state of the slot back when the function has returned.
//!
//! All values of one map have one type, `T`; a map for values of several
//! types takes an enum of them as `T`. A map owns what it holds: an
//! override is a copy of the caller's value, and a mutable override is
//! copied back to the caller when its scope ends.
//!
//! The contracts speak of a map through its model, [`Slots`]; the module
//! [`laws`] states what follows from them for every map.

pub mod ctx_map;
pub mod ctx_view;
pub mod key;
pub mod laws;
pub mod schema;
pub mod slots;

pub use crate::ctx_map::CtxMap;
pub use crate::ctx_view::CtxMapView;
pub use crate::key::new_key;
pub use crate::key::new_key_without_default;
pub use crate::key::CtxMapKey;
pub use crate::key::Key;
pub use crate::key::KeyMut;
pub use crate::key::RawKey;
pub use crate::key::RawKeyMut;
pub use crate::schema::CtxMapSchema;
pub use crate::schema::Schema;
pub use crate::schema::SchemaData;
pub use crate::slots::Slots;
