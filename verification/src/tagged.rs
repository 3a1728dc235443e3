//! Type registry and map that use an externally serialized type tag.
//!
//! This means for a given map:
//!
//! ```text,ignore
//! {
//!     "one": 1u32,
//!     "two": 2u64,
//! }
//! ```
//!
//! the serialized form holds, under each key, the value under the name of its
//! type. Reading it back relies on the type tag matching the name of a
//! registered type.

pub mod data_type;
pub mod type_map;
pub mod type_map_visitor;
pub mod type_reg;

pub use self::{
    data_type::DataType, type_map::TypeMap, type_map_visitor::TypeMapVisitor, type_reg::TypeReg,
};
