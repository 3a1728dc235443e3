use std::marker::PhantomData;
use vstd::prelude::*;

verus! {

/// Indicates unknown entries are not stored in a given `TypeMap`.
#[derive(Clone, Copy, Debug, PartialEq, Eq)]
pub struct UnknownEntriesNone;

/// Indicates unknown entries are stored in a given `TypeMap`, each as a
/// `ValueT`.
#[derive(Debug, PartialEq, Eq)]
pub struct UnknownEntriesSome<ValueT>(pub PhantomData<ValueT>);

impl<ValueT> Clone for UnknownEntriesSome<ValueT> {
    fn clone(&self) -> (r: Self)
        ensures
            r == *self,
    {
        UnknownEntriesSome(PhantomData)
    }
}

/// Associates an `UnknownEntries` type parameter with the deserialization
/// format's generic value type.
pub trait UnknownEntries {
    type ValueT;
}

impl UnknownEntries for UnknownEntriesNone {
    type ValueT = ();
}

impl<ValueT> UnknownEntries for UnknownEntriesSome<ValueT> {
    type ValueT = ValueT;
}

} // verus!
