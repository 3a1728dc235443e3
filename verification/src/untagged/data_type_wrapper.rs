use vstd::prelude::*;

use crate::handles::SerializeRef;
use crate::type_name_lit::TypeNameLit;

verus! {

/// Trait to represent the stored type.
pub trait DataTypeWrapper: Sized {
    /// The name of the type of the value in the box, as text.
    spec fn type_name_spec(&self) -> Seq<char>;

    /// Whether `copy` is what cloning makes of this box: a box under the same
    /// name, with what the value's own `Clone` makes of the value.
    spec fn clones_to(&self, copy: Self) -> bool;

    /// Whether `serialize` is the value in the box, borrowed as a
    /// serializable object.
    spec fn lends(&self, serialize: SerializeRef<'_>) -> bool;

    /// The name of the type of the value in the box.
    fn type_name_lit(&self) -> (name: TypeNameLit)
        ensures
            name@ == self.type_name_spec(),
    ;

    /// A box under the same name, with a clone of the value.
    fn clone(&self) -> (r: Self)
        ensures
            self.clones_to(r),
            r.type_name_spec() == self.type_name_spec(),
    ;

    /// The value in the box, as a serializable object.
    fn inner(&self) -> (serialize: SerializeRef<'_>)
        ensures
            self.lends(serialize),
    ;
}

} // verus!
