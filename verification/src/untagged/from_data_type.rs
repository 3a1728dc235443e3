use serde_tagged::de::BoxFnSeed;
use vstd::prelude::*;

use crate::untagged::box_data_type_downcast::BoxDataTypeDowncast;

verus! {

/// `From` trait for box data types.
///
/// # Type Parameters
///
/// * `T`: The data type to wrap.
///
///     - `BoxDt` provides no additional trait constraints.
///     - `BoxDtDisplay` provides the additional `Display` constraint.
pub trait FromDataType<T>: BoxDataTypeDowncast<T> {
    /// Whether `seed` is one that reads a `T`, to be boxed.
    spec fn seed_reads(seed: BoxFnSeed<Self>) -> bool;

    /// Whether `seed` is one that reads an optional `T`, to be boxed where
    /// there is one.
    spec fn opt_seed_reads(seed: BoxFnSeed<Option<Self>>) -> bool;

    /// Wraps the given `DataType` with Self: the box holds the value, at the
    /// type `T`, under the name that `T` gives of itself.
    fn from(t: T) -> (b: Self)
        ensures
            b.holds(t),
            b.named(),
    ;

    /// The seed that reads a `T` and boxes it.
    fn fn_seed() -> (seed: BoxFnSeed<Self>) where T: serde::de::DeserializeOwned
        ensures
            Self::seed_reads(seed),
    ;

    /// The seed that reads an optional `T` and boxes it where there is one.
    fn fn_opt_seed() -> (seed: BoxFnSeed<Option<Self>>) where T: serde::de::DeserializeOwned
        ensures
            Self::opt_seed_reads(seed),
    ;
}

} // verus!
