use std::fmt::Display;
use vstd::prelude::*;

use crate::handles::{
    any_mut, any_ref, lent_any, lent_any_mut, stored_type_id, type_id_of, AnyMut, AnyRef,
    SerializeRef,
};
use crate::type_name_lit::TypeNameLit;
use crate::untagged::box_dt_display::BoxDtDisplay;
use crate::untagged::data_type::{erase, names_stored, StoredType};
use crate::untagged::sealed::Sealed;

verus! {

/// A copy of a stored displayable value, still behind the uniform handle.
#[verifier::external_body]
pub struct DuplicateDisplay(pub Box<dyn DataTypeDisplay>);

/// The box that holds the copy.
pub uninterp spec fn duplicate_display_box(duplicate: DuplicateDisplay) -> Box<dyn DataTypeDisplay>;

/// A [`DataType`] that is also [`Display`].
///
/// [`DataType`]: crate::untagged::DataType
pub trait DataTypeDisplay {
    /// The text of the name of the value's type.
    spec fn type_text(&self) -> Seq<char>;

    /// Whether `name` is the name that the value's type gives of itself.
    spec fn names_itself(&self, name: TypeNameLit) -> bool;

    /// Whether `id` is the identifier of the value's type, which every value
    /// of that type has.
    spec fn has_type_id(&self, id: std::any::TypeId) -> bool;

    /// Whether `any` is this value, borrowed as `Any`.
    spec fn lends_any(&self, any: AnyRef<'_>) -> bool;

    /// Whether `any` is this value, borrowed mutably as `Any`.
    spec fn lends_any_mut(&self, any: AnyMut<'_>) -> bool;

    /// Whether `serialize` is this value, borrowed as a serializable object.
    spec fn lends_serialize(&self, serialize: SerializeRef<'_>) -> bool;

    /// Whether `duplicate` holds what the value's own `Clone` makes of this
    /// value.
    spec fn duplicates_as(&self, duplicate: DuplicateDisplay) -> bool;

    /// Whether `text` is what the value displays as.
    spec fn displays_as(&self, text: String) -> bool;

    /// The name of the value's type.
    fn type_name_lit(&self) -> (name: TypeNameLit)
        ensures
            self.names_itself(name),
    ;

    /// The identifier of the value's type.
    fn type_id_inner(&self) -> (id: std::any::TypeId)
        ensures
            self.has_type_id(id),
    ;

    /// The value as `Any`.
    fn as_any(&self) -> (any: AnyRef<'_>)
        ensures
            self.lends_any(any),
    ;

    /// The value as mutable `Any`.
    fn as_any_mut(&mut self) -> (any: AnyMut<'_>)
        ensures
            old(self).lends_any_mut(any),
    ;

    /// The value as a serializable object.
    fn as_serialize(&self) -> (serialize: SerializeRef<'_>)
        ensures
            self.lends_serialize(serialize),
    ;

    /// A copy of the value.
    fn duplicate(&self) -> (duplicate: DuplicateDisplay)
        ensures
            self.duplicates_as(duplicate),
    ;

    /// The value as it is displayed.
    fn display_string(&self) -> (text: String)
        ensures
            self.displays_as(text),
    ;

    /// Keeps the trait to the library: a type is a `DataTypeDisplay` by being
    /// a [`StoredType`] that is `Display`, and in no other way.
    fn sealed(&self, seal: Sealed);
}

impl<T> DataTypeDisplay for T where T: StoredType + Display {
    open spec fn type_text(&self) -> Seq<char> {
        T::type_name_text()
    }

    open spec fn names_itself(&self, name: TypeNameLit) -> bool {
        names_stored::<T>(name)
    }

    open spec fn has_type_id(&self, id: std::any::TypeId) -> bool {
        &&& id == stored_type_id(erase(*self))
        &&& forall|t: T| #[trigger] stored_type_id(erase(t)) == id
    }

    open spec fn lends_any(&self, any: AnyRef<'_>) -> bool {
        lent_any(any) == erase(*self)
    }

    open spec fn lends_any_mut(&self, any: AnyMut<'_>) -> bool {
        lent_any_mut(any) == erase(*self)
    }

    open spec fn lends_serialize(&self, serialize: SerializeRef<'_>) -> bool {
        self.serializes_as(serialize)
    }

    open spec fn duplicates_as(&self, duplicate: DuplicateDisplay) -> bool {
        boxes_display_clone_of(&duplicate_display_box(duplicate), *self)
    }

    open spec fn displays_as(&self, text: String) -> bool {
        vstd::string::to_string_from_display_ensures::<T>(self, text)
    }

    fn type_name_lit(&self) -> (name: TypeNameLit) {
        T::type_name_lit()
    }

    fn type_id_inner(&self) -> (id: std::any::TypeId) {
        type_id_of::<T>()
    }

    fn as_any(&self) -> (any: AnyRef<'_>) {
        any_ref(self)
    }

    fn as_any_mut(&mut self) -> (any: AnyMut<'_>) {
        any_mut(self)
    }

    fn as_serialize(&self) -> (serialize: SerializeRef<'_>) {
        StoredType::as_serialize(self)
    }

    fn duplicate(&self) -> (duplicate: DuplicateDisplay) {
        duplicate_display_of(self)
    }

    fn display_string(&self) -> (text: String) {
        self.to_string()
    }

    fn sealed(&self, _seal: Sealed) {
    }
}

/// `dyn_clone::clone_box`: a box with what the value's own `Clone` makes of
/// the value.
#[verifier::external_body]
fn duplicate_display_of<T: StoredType + Display>(t: &T) -> (duplicate: DuplicateDisplay)
    ensures
        boxes_display_clone_of(&duplicate_display_box(duplicate), *t),
{
    DuplicateDisplay(dyn_clone::clone_box::<T>(t))
}

/// A clone of `t` that `boxed` holds, if it holds one.
pub open spec fn clone_in_display_box<T: StoredType + Display>(
    boxed: &Box<dyn DataTypeDisplay>,
    t: T,
) -> T {
    choose|c: T| cloned(t, c) && *boxed == erase_display(c)
}

/// Whether `boxed` holds what `Clone` makes of `t`.
pub open spec fn boxes_display_clone_of<T: StoredType + Display>(
    boxed: &Box<dyn DataTypeDisplay>,
    t: T,
) -> bool {
    cloned(t, clone_in_display_box(boxed, t)) && *boxed == erase_display(
        clone_in_display_box(boxed, t),
    )
}

/// The displayable value `t` behind the uniform handle.
pub open spec fn erase_display<T: StoredType + Display>(t: T) -> Box<dyn DataTypeDisplay> {
    Box::new(t)
}

/// Displayable values of types whose names differ are different values behind
/// the handle.
pub proof fn lemma_other_name_other_display_box<A: StoredType + Display, B: StoredType + Display>(
    a: A,
    b: B,
)
    requires
        A::type_name_text() != B::type_name_text(),
    ensures
        erase_display(a) != erase_display(b),
{
    assert(erase_display(a).type_text() == A::type_name_text());
    assert(erase_display(b).type_text() == B::type_name_text());
}

/// `std::any::Any::downcast_ref`, on `any`, which is `value` borrowed as
/// `Any`: the value at type `R` if `R` is its type, else `None`. A box holds
/// one value.
#[verifier::external_body]
#[allow(unused_variables)]
pub(crate) fn display_downcast_lent<'a, R: StoredType + Display>(
    value: &'a Box<dyn DataTypeDisplay>,
    any: AnyRef<'a>,
) -> (r: Option<&'a R>)
    requires
        value.lends_any(any),
    ensures
        match r {
            Some(v) => *value == erase_display::<R>(*v) && forall|w: R|
                *value == erase_display::<R>(w) ==> w == *v,
            None => forall|w: R| *value != erase_display::<R>(w),
        },
{
    any.0.downcast_ref::<R>()
}

/// `std::any::Any::downcast_mut`, on the value that the box holds: the value
/// at type `R`, to be changed in place, if `R` is its type, else `None` and
/// the box is left as it was.
#[verifier::external_body]
pub(crate) fn display_downcast_mut<R: StoredType + Display>(
    b: &mut Box<dyn DataTypeDisplay>,
) -> (r: Option<&mut R>)
    ensures
        match r {
            Some(v) => *old(b) == erase_display::<R>(*v) && *final(b) == erase_display::<R>(
                *final(v),
            ) && forall|w: R| *old(b) == erase_display::<R>(w) ==> w == *v,
            None => *final(b) == *old(b) && forall|w: R| *old(b) != erase_display::<R>(w),
        },
{
    b.as_any_mut().0.0.downcast_mut::<R>()
}

/// The box that a `DuplicateDisplay` holds, taken out of it and put under
/// `name`.
#[verifier::external_body]
pub(crate) fn open_duplicate_display(duplicate: DuplicateDisplay, name: TypeNameLit) -> (r:
    BoxDtDisplay)
    ensures
        r.0 == duplicate_display_box(duplicate),
        r.1 == name,
{
    BoxDtDisplay(duplicate.0, name)
}

} // verus!
