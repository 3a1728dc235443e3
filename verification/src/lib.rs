//! Serializable map of any type.
//!
//! A map stores values of arbitrary concrete types behind one uniform handle
//! and hands them back at their own type. A registry associates a key with the
//! logic that rebuilds one concrete type, and decides, entry by entry, how a
//! map that is being read is filled.
//!
//! * [`untagged`] holds the map and registry whose values are written without
//!   a type tag: the key of an entry is also the key under which its type is
//!   registered. A second map admits entries without a value, and a registry
//!   may keep the entries that it has no type for.
//! * [`tagged`] holds the map and registry whose values are written under the
//!   name of their type.
//!
//! A type can be stored once it is a [`untagged::StoredType`]: it names
//! itself, lends itself to a serializer, and is `Clone`, `Send` and `Sync`.
//!
//! Keys are text. Maps and registries keep their entries in the order in
//! which their keys were first inserted, and match keys exactly.
//!
//! The library reads and writes nothing by itself. A map in the making is
//! filled through a visitor, which answers each key with the seed to read the
//! value with and stores what was read; the entries of a finished map are
//! walked by position, and each boxed value hands out itself as a
//! serializable object.

pub mod common;
pub mod de;
pub mod handles;
pub mod ordered_map;
pub mod tagged;
pub mod text;
pub mod type_name_lit;
pub mod untagged;

pub use crate::type_name_lit::TypeNameLit;
