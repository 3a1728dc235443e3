use serde_tagged::de::BoxFnSeed;
use vstd::prelude::*;

use crate::common::{UnknownEntries, UnknownEntriesNone, UnknownEntriesSome, UnknownTypeError};
use crate::ordered_map::reserved_for;
use crate::untagged::type_map_opt::TypeMapOpt;
use crate::untagged::type_map_visitor::EntrySeed;
use crate::untagged::type_reg::TypeReg;

verus! {

/// Whether `type_map` holds typed entries only under keys that `type_reg`
/// knows, and unknown entries only under keys that it does not know.
pub open spec fn filled_opt_from<BoxDT, UnknownEntriesT: UnknownEntries>(
    type_map: TypeMapOpt<BoxDT, UnknownEntriesT>,
    type_reg: TypeReg<BoxDT>,
) -> bool {
    &&& forall|k: Seq<char>| #[trigger] type_map@.contains_key(k) ==> type_reg.is_registered(k)
    &&& forall|k: Seq<char>| #[trigger]
        type_map.unknown_view().contains_key(k) ==> !type_reg.is_registered(k)
}

/// A map filled from a registry holds no key both as a typed and as an
/// unknown entry.
pub proof fn lemma_filled_opt_from_disjoint<BoxDT, UnknownEntriesT: UnknownEntries>(
    type_map: TypeMapOpt<BoxDT, UnknownEntriesT>,
    type_reg: TypeReg<BoxDT>,
    key: Seq<char>,
)
    requires
        filled_opt_from(type_map, type_reg),
    ensures
        !(type_map@.contains_key(key) && type_map.unknown_view().contains_key(key)),
{
}

/// Decides, entry by entry, how a map of untagged optional values is read
/// into a [`TypeMapOpt`].
///
/// Whoever reads the map asks the visitor for an empty map to begin with,
/// then for each entry hands it the key, reads the value with the seed that
/// the visitor answers with, and hands the value back to be stored. The
/// [`TypeReg`] provided to this visitor determines the seed by the key; the
/// seed reads an absent value as `None`.
#[verifier::reject_recursive_types(BoxDT)]
pub struct TypeMapOptVisitor<'r, BoxDT, UnknownEntriesFn> {
    type_reg: &'r TypeReg<BoxDT>,
    /// Function to deserialize an arbitrary optional value.
    fn_opt_seed: UnknownEntriesFn,
}

impl<'r, BoxDT, UnknownEntriesFn> TypeMapOptVisitor<'r, BoxDT, UnknownEntriesFn> {
    /// The registry by which the visitor decides.
    pub closed spec fn type_reg(&self) -> TypeReg<BoxDT> {
        *self.type_reg
    }

    /// What the visitor expects to read, in words.
    pub fn expecting(&self) -> (text: &'static str)
        ensures
            text@ == "a map of arbitrary data types"@,
    {
        "a map of arbitrary data types"
    }

    /// What the visitor reads the value of an unregistered key with.
    pub closed spec fn fn_opt_seed(&self) -> UnknownEntriesFn {
        self.fn_opt_seed
    }
}

impl<'r, BoxDT> TypeMapOptVisitor<'r, BoxDT, UnknownEntriesNone> {
    /// Creates a new visitor with the given [`TypeReg`].
    pub fn new(type_reg: &'r TypeReg<BoxDT>) -> (visitor: Self)
        ensures
            visitor.type_reg() == *type_reg,
    {
        TypeMapOptVisitor { type_reg, fn_opt_seed: UnknownEntriesNone }
    }

    /// The empty map that reading begins with, with room for as many entries
    /// as the source announces.
    pub fn begin(&self, size_hint: Option<usize>) -> (type_map: TypeMapOpt<BoxDT>)
        ensures
            type_map.reserved() == match size_hint {
                Some(n) => reserved_for(n),
                None => 0,
            },
            type_map.wf(),
            type_map.keys().len() == 0,
            type_map.unknown_keys().len() == 0,
            filled_opt_from(type_map, self.type_reg()),
    {
        let type_map = match size_hint {
            Some(n) => TypeMapOpt::with_capacity_typed(n),
            None => TypeMapOpt::new_typed(),
        };
        proof {
            type_map.lemma_wf();
        }
        type_map
    }

    /// The seed to read the optional value under `key` with: that of the type
    /// registered for the key. Where none is registered, reading fails with
    /// the report that names the key and every registered key.
    pub fn seed(&self, key: &str) -> (r: Result<&'r BoxFnSeed<Option<BoxDT>>, UnknownTypeError>)
        requires
            self.type_reg().wf(),
        ensures
            match r {
                Ok(seed) => self.type_reg().is_registered(key@) && *seed
                    == self.type_reg().opt_seeds()[self.type_reg().keys().index_of(key@)],
                Err(error) => {
                    &&& !self.type_reg().is_registered(key@)
                    &&& error.subject_spec() == "Type key"@
                    &&& error.type_key_spec() == key@
                    &&& error.available_spec() == self.type_reg().keys()
                },
            },
    {
        self.type_reg.deserialize_opt_seed(key)
    }

    /// Stores the optional value read under `key`. A key that occurs again
    /// keeps its place and takes the later value.
    pub fn accept(&self, type_map: &mut TypeMapOpt<BoxDT>, key: String, value: Option<BoxDT>)
        requires
            old(type_map).wf(),
        ensures
            final(type_map).reserved() == old(type_map).reserved(),
            final(type_map).wf(),
            final(type_map)@ == old(type_map)@.insert(key@, value),
            final(type_map)@.contains_key(key@),
            final(type_map)@[key@] == value,
            forall|other: Seq<char>|
                #![trigger final(type_map)@[other]]
                #![trigger old(type_map)@[other]]
                other != key@ && old(type_map)@.contains_key(other) ==> {
                    &&& final(type_map)@.contains_key(other)
                    &&& final(type_map)@[other] == old(type_map)@[other]
                },
            final(type_map).unknown_keys() == old(type_map).unknown_keys(),
            final(type_map).unknown_values() == old(type_map).unknown_values(),
            old(type_map)@.contains_key(key@) ==> final(type_map).keys() == old(type_map).keys(),
            !old(type_map)@.contains_key(key@) ==> final(type_map).keys() == old(
                type_map,
            ).keys().push(key@),
            filled_opt_from(*old(type_map), self.type_reg()) && self.type_reg().is_registered(key@)
                ==> filled_opt_from(*final(type_map), self.type_reg()),
    {
        type_map.insert_raw(key, value);
        proof {
            if filled_opt_from(*old(type_map), self.type_reg()) && self.type_reg().is_registered(
                key@,
            ) {
                assert(type_map.unknown_view() == old(type_map).unknown_view());
                assert forall|k: Seq<char>| #[trigger] type_map@.contains_key(k) implies
                    self.type_reg().is_registered(k) by {
                    if k != key@ {
                        assert(old(type_map)@.contains_key(k));
                    }
                }
                assert forall|k: Seq<char>| #[trigger]
                    type_map.unknown_view().contains_key(k) implies !self.type_reg().is_registered(
                    k,
                ) by {
                    assert(old(type_map).unknown_view().contains_key(k));
                }
            }
        }
    }
}

impl<'r, BoxDT, ValueT> TypeMapOptVisitor<'r, BoxDT, BoxFnSeed<Option<ValueT>>> {
    /// Creates a new visitor with the given [`TypeReg`], which reads the
    /// value of an unregistered key with `fn_opt_seed`.
    pub fn new(type_reg: &'r TypeReg<BoxDT>, fn_opt_seed: BoxFnSeed<Option<ValueT>>) -> (visitor:
        Self)
        ensures
            visitor.type_reg() == *type_reg,
            visitor.fn_opt_seed() == fn_opt_seed,
    {
        TypeMapOptVisitor { type_reg, fn_opt_seed }
    }

    /// The empty map that reading begins with, with room for as many entries
    /// as the source announces.
    pub fn begin(&self, size_hint: Option<usize>) -> (type_map: TypeMapOpt<
        BoxDT,
        UnknownEntriesSome<ValueT>,
    >)
        ensures
            type_map.reserved() == match size_hint {
                Some(n) => reserved_for(n),
                None => 0,
            },
            type_map.wf(),
            type_map.keys().len() == 0,
            type_map.unknown_keys().len() == 0,
            filled_opt_from(type_map, self.type_reg()),
    {
        let type_map = match size_hint {
            Some(n) => TypeMapOpt::with_capacity_typed(n),
            None => TypeMapOpt::new_typed(),
        };
        proof {
            type_map.lemma_wf();
        }
        type_map
    }

    /// The seed to read the optional value under `key` with: that of the type
    /// registered for the key, or, where none is registered, the seed for an
    /// arbitrary optional value.
    pub fn seed(&self, key: &str) -> (r: EntrySeed<'_, Option<BoxDT>, Option<ValueT>>)
        requires
            self.type_reg().wf(),
        ensures
            match r {
                EntrySeed::Typed(seed) => self.type_reg().is_registered(key@) && *seed
                    == self.type_reg().opt_seeds()[self.type_reg().keys().index_of(key@)],
                EntrySeed::Unknown(seed) => !self.type_reg().is_registered(key@) && *seed
                    == self.fn_opt_seed(),
            },
    {
        match self.type_reg.deserialize_opt_seed_opt(key) {
            Some(seed) => EntrySeed::Typed(seed),
            None => EntrySeed::Unknown(&self.fn_opt_seed),
        }
    }

    /// Stores the optional value read under `key` with the seed of its
    /// registered type. A key that occurs again keeps its place and takes the
    /// later value.
    pub fn accept_typed(
        &self,
        type_map: &mut TypeMapOpt<BoxDT, UnknownEntriesSome<ValueT>>,
        key: String,
        value: Option<BoxDT>,
    )
        requires
            old(type_map).wf(),
        ensures
            final(type_map).reserved() == old(type_map).reserved(),
            final(type_map).wf(),
            final(type_map)@ == old(type_map)@.insert(key@, value),
            final(type_map)@.contains_key(key@),
            final(type_map)@[key@] == value,
            forall|other: Seq<char>|
                #![trigger final(type_map)@[other]]
                #![trigger old(type_map)@[other]]
                other != key@ && old(type_map)@.contains_key(other) ==> {
                    &&& final(type_map)@.contains_key(other)
                    &&& final(type_map)@[other] == old(type_map)@[other]
                },
            final(type_map).unknown_keys() == old(type_map).unknown_keys(),
            final(type_map).unknown_values() == old(type_map).unknown_values(),
            old(type_map)@.contains_key(key@) ==> final(type_map).keys() == old(type_map).keys(),
            !old(type_map)@.contains_key(key@) ==> final(type_map).keys() == old(
                type_map,
            ).keys().push(key@),
            filled_opt_from(*old(type_map), self.type_reg()) && self.type_reg().is_registered(key@)
                ==> filled_opt_from(*final(type_map), self.type_reg()),
    {
        type_map.insert_raw(key, value);
        proof {
            if filled_opt_from(*old(type_map), self.type_reg()) && self.type_reg().is_registered(
                key@,
            ) {
                assert(type_map.unknown_view() == old(type_map).unknown_view());
                assert forall|k: Seq<char>| #[trigger] type_map@.contains_key(k) implies
                    self.type_reg().is_registered(k) by {
                    if k != key@ {
                        assert(old(type_map)@.contains_key(k));
                    }
                }
                assert forall|k: Seq<char>| #[trigger]
                    type_map.unknown_view().contains_key(k) implies !self.type_reg().is_registered(
                    k,
                ) by {
                    assert(old(type_map).unknown_view().contains_key(k));
                }
            }
        }
    }

    /// Stores the optional value read under the unregistered `key` with the
    /// seed for an arbitrary optional value. A key that occurs again keeps
    /// its place and takes the later value.
    pub fn accept_unknown(
        &self,
        type_map: &mut TypeMapOpt<BoxDT, UnknownEntriesSome<ValueT>>,
        key: String,
        value: Option<ValueT>,
    )
        requires
            old(type_map).wf(),
        ensures
            final(type_map).reserved() == old(type_map).reserved(),
            final(type_map).wf(),
            final(type_map).keys() == old(type_map).keys(),
            final(type_map).values() == old(type_map).values(),
            final(type_map).unknown_view() == old(type_map).unknown_view().insert(key@, value),
            old(type_map).unknown_view().contains_key(key@) ==> final(type_map).unknown_keys()
                == old(type_map).unknown_keys(),
            !old(type_map).unknown_view().contains_key(key@) ==> final(type_map).unknown_keys()
                == old(type_map).unknown_keys().push(key@),
            filled_opt_from(*old(type_map), self.type_reg()) && !self.type_reg().is_registered(key@)
                ==> filled_opt_from(*final(type_map), self.type_reg()),
    {
        type_map.insert_unknown_entry(key, value);
        proof {
            if filled_opt_from(*old(type_map), self.type_reg()) && !self.type_reg().is_registered(
                key@,
            ) {
                assert(type_map@ == old(type_map)@);
                assert forall|k: Seq<char>| #[trigger] type_map@.contains_key(k) implies
                    self.type_reg().is_registered(k) by {
                    assert(old(type_map)@.contains_key(k));
                }
                assert forall|k: Seq<char>| #[trigger]
                    type_map.unknown_view().contains_key(k) implies !self.type_reg().is_registered(
                    k,
                ) by {
                    if k != key@ {
                        assert(old(type_map).unknown_view().contains_key(k));
                    }
                }
            }
        }
    }
}

} // verus!
