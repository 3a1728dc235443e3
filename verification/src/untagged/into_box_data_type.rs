use vstd::prelude::*;

use crate::untagged::from_data_type::FromDataType;

verus! {

/// Types that can be boxed.
///
/// # Type Parameters
///
/// * `BoxDT`: The specific box data type.
///     - `BoxDt` provides no additional trait constraints.
///     - `BoxDtDisplay` provides the additional `Display` constraint.
pub trait IntoBoxDataType<BoxDT>: Sized {
    /// Whether `b` is a box that holds the value `t`, under the name of its
    /// type.
    spec fn boxed_as(t: Self, b: BoxDT) -> bool;

    /// Turns self into a boxed `DataType`.
    fn into(t: Self) -> (b: BoxDT)
        ensures
            Self::boxed_as(t, b),
    ;
}

impl<T, BoxDT> IntoBoxDataType<BoxDT> for T where BoxDT: FromDataType<T> {
    open spec fn boxed_as(t: T, b: BoxDT) -> bool {
        b.holds(t) && b.named()
    }

    fn into(t: T) -> (b: BoxDT) {
        BoxDT::from(t)
    }
}

} // verus!
