//! Type registry and map that do not serialize the type tag.
//!
//! This means for a given map:
//!
//! ```text,ignore
//! {
//!     "one": 1u32,
//!     "two": 2u64,
//! }
//! ```
//!
//! the serialized form holds the values alone, each under its key. Reading it
//! back relies on the key given with the registration of a type matching the
//! key of the value.

pub mod box_data_type_downcast;
pub mod box_dt;
pub mod box_dt_display;
pub mod data_type;
pub mod data_type_display;
pub mod data_type_wrapper;
pub mod from_data_type;
pub mod into_box_data_type;
mod sealed;
pub mod type_map;
pub mod type_map_opt;
pub mod type_map_opt_visitor;
pub mod type_map_visitor;
pub mod type_reg;
pub mod unknown_entries_some_fn_seed;

pub use self::{
    box_data_type_downcast::BoxDataTypeDowncast,
    box_dt::BoxDt,
    box_dt_display::BoxDtDisplay,
    data_type::{DataType, StoredType},
    data_type_display::DataTypeDisplay,
    data_type_wrapper::DataTypeWrapper,
    from_data_type::FromDataType,
    into_box_data_type::IntoBoxDataType,
    type_map::TypeMap,
    type_map_opt::TypeMapOpt,
    type_map_opt_visitor::TypeMapOptVisitor,
    type_map_visitor::{EntrySeed, TypeMapVisitor},
    type_reg::TypeReg,
    unknown_entries_some_fn_seed::UnknownEntriesSomeFnSeed,
};
