use serde_tagged::de::BoxFnSeed;
use vstd::prelude::*;

use crate::common::UnknownEntries;

verus! {

/// Indicates unknown entries are stored in a given `TypeMap`, and holds the
/// functions that read them.
#[verifier::reject_recursive_types(ValueT)]
pub struct UnknownEntriesSomeFnSeed<ValueT> {
    /// Function to deserialize an arbitrary value.
    fn_seed: BoxFnSeed<ValueT>,
    /// Function to deserialize an arbitrary optional value.
    fn_opt_seed: BoxFnSeed<Option<ValueT>>,
}

impl<ValueT> UnknownEntriesSomeFnSeed<ValueT> {
    /// The function to deserialize an arbitrary value.
    pub closed spec fn fn_seed_spec(&self) -> BoxFnSeed<ValueT> {
        self.fn_seed
    }

    /// The function to deserialize an arbitrary optional value.
    pub closed spec fn fn_opt_seed_spec(&self) -> BoxFnSeed<Option<ValueT>> {
        self.fn_opt_seed
    }

    /// Returns a new `UnknownEntriesSomeFnSeed` with a function to deserialize
    /// an arbitrary value, and one to deserialize an arbitrary optional value.
    pub fn new(fn_seed: BoxFnSeed<ValueT>, fn_opt_seed: BoxFnSeed<Option<ValueT>>) -> (seeds: Self)
        ensures
            seeds.fn_seed_spec() == fn_seed,
            seeds.fn_opt_seed_spec() == fn_opt_seed,
    {
        Self { fn_seed, fn_opt_seed }
    }

    /// Returns the `fn_seed` for deserializing an arbitrary value.
    pub fn fn_seed(&self) -> (fn_seed: &BoxFnSeed<ValueT>)
        ensures
            *fn_seed == self.fn_seed_spec(),
    {
        &self.fn_seed
    }

    /// Returns the `fn_opt_seed` for deserializing an arbitrary optional value.
    pub fn fn_opt_seed(&self) -> (fn_opt_seed: &BoxFnSeed<Option<ValueT>>)
        ensures
            *fn_opt_seed == self.fn_opt_seed_spec(),
    {
        &self.fn_opt_seed
    }
}

impl<ValueT> UnknownEntries for UnknownEntriesSomeFnSeed<ValueT> {
    type ValueT = ValueT;
}

} // verus!
