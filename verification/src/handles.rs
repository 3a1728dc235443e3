//! What a stored value lends to code that the proofs do not follow: itself as
//! `Any`, for recovering it at its own type, and itself as a serializable
//! value.
//!
//! What is behind a handle is not seen here. It is named: the value behind
//! an `Any` as the value is when boxed, and the value behind a serializable
//! object, for the types that this crate makes storable itself, as a plain
//! value.

use vstd::prelude::*;

use crate::untagged::data_type::{erase, DataType, StoredType};

verus! {

#[verifier::external_type_specification]
#[verifier::external_body]
pub struct ExTypeId(std::any::TypeId);

/// A stored value, borrowed as `Any`.
#[verifier::external_body]
pub struct AnyRef<'a>(pub &'a dyn std::any::Any);

/// A stored value, borrowed mutably as `Any`. The reference sits in a tuple
/// of one, into which it is moved as it is.
#[verifier::external_body]
pub struct AnyMut<'a>(pub (&'a mut dyn std::any::Any,));

/// A stored value, borrowed as a value that any serializer can take.
#[verifier::external_body]
pub struct SerializeRef<'a>(pub &'a dyn erased_serde::Serialize);

#[verifier::external_type_specification]
#[verifier::external_body]
#[verifier::reject_recursive_types(V)]
pub struct ExBoxFnSeed<V>(serde_tagged::de::BoxFnSeed<V>);

/// The identifier of the type of the value that the box holds.
pub uninterp spec fn stored_type_id(value: Box<dyn DataType>) -> std::any::TypeId;

/// The value that was borrowed as `Any`, as it is when boxed.
pub uninterp spec fn lent_any(any: AnyRef<'_>) -> Box<dyn DataType>;

/// The value that was borrowed mutably as `Any`, as it was when it was
/// borrowed and is when boxed.
pub uninterp spec fn lent_any_mut(any: AnyMut<'_>) -> Box<dyn DataType>;

/// `std::any::TypeId::of`: the identifier of `T`, which is that of the type
/// of every boxed value of type `T`.
#[verifier::external_body]
pub(crate) fn type_id_of<T: StoredType>() -> (id: std::any::TypeId)
    ensures
        forall|t: T| #[trigger] stored_type_id(erase(t)) == id,
{
    std::any::TypeId::of::<T>()
}

/// `downcast_rs::Downcast::as_any`: the value itself, as `Any`.
#[verifier::external_body]
pub(crate) fn any_ref<T: StoredType>(t: &T) -> (any: AnyRef<'_>)
    ensures
        lent_any(any) == erase(*t),
{
    AnyRef(downcast_rs::Downcast::as_any(t))
}

/// `downcast_rs::Downcast::as_any_mut`: the value itself, as mutable `Any`.
#[verifier::external_body]
pub(crate) fn any_mut<T: StoredType>(t: &mut T) -> (any: AnyMut<'_>)
    ensures
        lent_any_mut(any) == erase(*old(t)),
{
    let r = (downcast_rs::Downcast::as_any_mut(t),);
    AnyMut(r)
}

/// A value of one of the types that this crate itself makes storable, as a
/// plain value.
pub enum Plain {
    Bool(bool),
    Number(int),
    Char(char),
    Text(Seq<char>),
}

/// What is a plain value.
pub trait PlainValue {
    /// The value, as a plain value.
    spec fn plain(&self) -> Plain;
}

/// The plain value that was borrowed as a serializable object.
pub uninterp spec fn lent_plain(serialize: SerializeRef<'_>) -> Plain;

/// The value itself, as an `erased_serde::Serialize` object.
#[verifier::external_body]
pub(crate) fn serialize_ref<T: PlainValue + erased_serde::Serialize>(t: &T) -> (serialize:
    SerializeRef<'_>)
    ensures
        lent_plain(serialize) == t.plain(),
{
    SerializeRef(t)
}

impl PlainValue for bool {
    open spec fn plain(&self) -> Plain {
        Plain::Bool(*self)
    }
}

impl PlainValue for char {
    open spec fn plain(&self) -> Plain {
        Plain::Char(*self)
    }
}

impl PlainValue for String {
    open spec fn plain(&self) -> Plain {
        Plain::Text(self@)
    }
}

impl PlainValue for u8 {
    open spec fn plain(&self) -> Plain {
        Plain::Number(*self as int)
    }
}

impl PlainValue for u16 {
    open spec fn plain(&self) -> Plain {
        Plain::Number(*self as int)
    }
}

impl PlainValue for u32 {
    open spec fn plain(&self) -> Plain {
        Plain::Number(*self as int)
    }
}

impl PlainValue for u64 {
    open spec fn plain(&self) -> Plain {
        Plain::Number(*self as int)
    }
}

impl PlainValue for u128 {
    open spec fn plain(&self) -> Plain {
        Plain::Number(*self as int)
    }
}

impl PlainValue for usize {
    open spec fn plain(&self) -> Plain {
        Plain::Number(*self as int)
    }
}

impl PlainValue for i8 {
    open spec fn plain(&self) -> Plain {
        Plain::Number(*self as int)
    }
}

impl PlainValue for i16 {
    open spec fn plain(&self) -> Plain {
        Plain::Number(*self as int)
    }
}

impl PlainValue for i32 {
    open spec fn plain(&self) -> Plain {
        Plain::Number(*self as int)
    }
}

impl PlainValue for i64 {
    open spec fn plain(&self) -> Plain {
        Plain::Number(*self as int)
    }
}

impl PlainValue for i128 {
    open spec fn plain(&self) -> Plain {
        Plain::Number(*self as int)
    }
}

impl PlainValue for isize {
    open spec fn plain(&self) -> Plain {
        Plain::Number(*self as int)
    }
}

} // verus!
