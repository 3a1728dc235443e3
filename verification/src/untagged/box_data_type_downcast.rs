use vstd::prelude::*;

use crate::untagged::data_type_wrapper::DataTypeWrapper;

verus! {

/// Trait to downcast from a boxed DataType to the concrete type.
pub trait BoxDataTypeDowncast<T>: DataTypeWrapper {
    /// Whether the box holds the value `t`, of type `T`.
    spec fn holds(&self, t: T) -> bool;

    /// Whether the name that the box carries is the name that `T` gives of
    /// itself.
    spec fn named(&self) -> bool;

    /// The value at type `T`, if `T` is the type of the value in the box.
    fn downcast_ref(&self) -> (r: Option<&T>)
        ensures
            match r {
                Some(v) => self.holds(*v) && forall|w: T| self.holds(w) ==> w == *v,
                None => forall|w: T| !self.holds(w),
            },
    ;

    /// The value at type `T`, to be changed in place, if `T` is the type of
    /// the value in the box. Else the box stays as it is. The name that the
    /// box carries stays in either case.
    fn downcast_mut(&mut self) -> (r: Option<&mut T>)
        ensures
            final(self).type_name_spec() == old(self).type_name_spec(),
            final(self).named() == old(self).named(),
            match r {
                Some(v) => old(self).holds(*v) && final(self).holds(*final(v)) && forall|w: T|
                    old(self).holds(w) ==> w == *v,
                None => *final(self) == *old(self) && forall|w: T| !old(self).holds(w),
            },
    ;
}

} // verus!
