use serde_tagged::de::BoxFnSeed;
use vstd::prelude::*;

use crate::common::{UnknownEntries, UnknownEntriesNone, UnknownEntriesSome, UnknownTypeError};
use crate::ordered_map::{lemma_stored_in_order, reserved_for, stored_in_order};
use crate::untagged::box_data_type_downcast::BoxDataTypeDowncast;
use crate::untagged::type_map::TypeMap;
use crate::untagged::type_reg::TypeReg;

verus! {

/// How the value of one entry is to be read.
#[verifier::reject_recursive_types(BoxDT)]
#[verifier::reject_recursive_types(ValueT)]
pub enum EntrySeed<'r, BoxDT, ValueT> {
    /// With the seed of the type registered for the key; the value goes to
    /// the typed entries.
    Typed(&'r BoxFnSeed<BoxDT>),
    /// With the seed for an arbitrary value; the value goes to the unknown
    /// entries.
    Unknown(&'r BoxFnSeed<ValueT>),
}

/// Whether `type_map` holds typed entries only under keys that `type_reg`
/// knows, and unknown entries only under keys that it does not know.
pub open spec fn filled_from<BoxDT, UnknownEntriesT: UnknownEntries>(
    type_map: TypeMap<BoxDT, UnknownEntriesT>,
    type_reg: TypeReg<BoxDT>,
) -> bool {
    &&& forall|k: Seq<char>| #[trigger] type_map@.contains_key(k) ==> type_reg.is_registered(k)
    &&& forall|k: Seq<char>| #[trigger]
        type_map.unknown_view().contains_key(k) ==> !type_reg.is_registered(k)
}

/// A map filled from a registry holds no key both as a typed and as an
/// unknown entry.
pub proof fn lemma_filled_from_disjoint<BoxDT, UnknownEntriesT: UnknownEntries>(
    type_map: TypeMap<BoxDT, UnknownEntriesT>,
    type_reg: TypeReg<BoxDT>,
    key: Seq<char>,
)
    requires
        filled_from(type_map, type_reg),
    ensures
        !(type_map@.contains_key(key) && type_map.unknown_view().contains_key(key)),
{
}

/// A map that is written and read back holds each value again, under its
/// key and at its type. `entries` are the entries as they were read, one for
/// each entry of `written`, in its order and under its key, and `read` is the
/// map that storing them one after another left. Where the value read at
/// position `i` is `value`, the value that `written` holds there, `read` has
/// as many keys as `written` and holds `value` under the key at `i`.
pub proof fn lemma_read_back<BoxDT, UnknownEntriesT, R>(
    written: TypeMap<BoxDT, UnknownEntriesT>,
    entries: Seq<(Seq<char>, BoxDT)>,
    read: TypeMap<BoxDT, UnknownEntriesT>,
    i: int,
    value: R,
) where BoxDT: BoxDataTypeDowncast<R>, UnknownEntriesT: UnknownEntries
    requires
        written.wf(),
        read.wf(),
        entries.len() == written.keys().len(),
        forall|j: int| 0 <= j < entries.len() ==> (#[trigger] entries[j]).0 == written.keys()[j],
        read@ == stored_in_order(entries),
        0 <= i < entries.len(),
        written.values()[i].holds(value),
        entries[i].1.holds(value),
    ensures
        read.keys().len() == written.keys().len(),
        read@.contains_key(written.keys()[i]),
        read@[written.keys()[i]].holds(value),
{
    written.lemma_wf();
    read.lemma_wf();
    lemma_stored_in_order(written.keys(), entries);
    assert(written.keys().contains(written.keys()[i]));
    assert(read.keys().to_set() =~= written.keys().to_set()) by {
        assert forall|k: Seq<char>| read.keys().contains(k) <==> written.keys().contains(k) by {
            assert(read@.contains_key(k) <==> read.keys().contains(k));
        }
    }
    read.keys().unique_seq_to_set();
    written.keys().unique_seq_to_set();
}

/// Decides, entry by entry, how a map of untagged values is read into a
/// [`TypeMap`].
///
/// Whoever reads the map asks the visitor for an empty map to begin with,
/// then for each entry hands it the key, reads the value with the seed that
/// the visitor answers with, and hands the value back to be stored. The
/// [`TypeReg`] provided to this visitor determines the seed by the key.
#[verifier::reject_recursive_types(BoxDT)]
pub struct TypeMapVisitor<'r, BoxDT, UnknownEntriesFn> {
    type_reg: &'r TypeReg<BoxDT>,
    /// Function to deserialize an arbitrary value.
    fn_seed: UnknownEntriesFn,
}

impl<'r, BoxDT, UnknownEntriesFn> TypeMapVisitor<'r, BoxDT, UnknownEntriesFn> {
    /// The registry by which the visitor decides.
    pub closed spec fn type_reg(&self) -> TypeReg<BoxDT> {
        *self.type_reg
    }

    /// What the visitor expects to read, in words.
    pub fn expecting(&self) -> (text: &'static str)
        ensures
            text@ == "a map of arbitrary data types"@,
    {
        "a map of arbitrary data types"
    }

    /// What the visitor reads the value of an unregistered key with.
    pub closed spec fn fn_seed(&self) -> UnknownEntriesFn {
        self.fn_seed
    }
}

impl<'r, BoxDT> TypeMapVisitor<'r, BoxDT, UnknownEntriesNone> {
    /// Creates a new visitor with the given [`TypeReg`].
    pub fn new(type_reg: &'r TypeReg<BoxDT>) -> (visitor: Self)
        ensures
            visitor.type_reg() == *type_reg,
    {
        TypeMapVisitor { type_reg, fn_seed: UnknownEntriesNone }
    }

    /// The empty map that reading begins with, with room for as many entries
    /// as the source announces.
    pub fn begin(&self, size_hint: Option<usize>) -> (type_map: TypeMap<BoxDT>)
        ensures
            type_map.reserved() == match size_hint {
                Some(n) => reserved_for(n),
                None => 0,
            },
            type_map.wf(),
            type_map.keys().len() == 0,
            type_map.unknown_keys().len() == 0,
            filled_from(type_map, self.type_reg()),
    {
        let type_map = match size_hint {
            Some(n) => TypeMap::with_capacity_typed(n),
            None => TypeMap::new_typed(),
        };
        proof {
            type_map.lemma_wf();
        }
        type_map
    }

    /// The seed to read the value under `key` with: that of the type
    /// registered for the key. Where none is registered, reading fails with
    /// the report that names the key and every registered key.
    pub fn seed(&self, key: &str) -> (r: Result<&'r BoxFnSeed<BoxDT>, UnknownTypeError>)
        requires
            self.type_reg().wf(),
        ensures
            match r {
                Ok(seed) => self.type_reg().is_registered(key@) && *seed
                    == self.type_reg().seeds()[self.type_reg().keys().index_of(key@)],
                Err(error) => {
                    &&& !self.type_reg().is_registered(key@)
                    &&& error.subject_spec() == "Type key"@
                    &&& error.type_key_spec() == key@
                    &&& error.available_spec() == self.type_reg().keys()
                },
            },
    {
        self.type_reg.deserialize_seed(key)
    }

    /// Stores the value read under `key`. A key that occurs again keeps its
    /// place and takes the later value.
    pub fn accept(&self, type_map: &mut TypeMap<BoxDT>, key: String, value: BoxDT)
        requires
            old(type_map).wf(),
        ensures
            final(type_map).reserved() == old(type_map).reserved(),
            final(type_map).wf(),
            final(type_map)@ == old(type_map)@.insert(key@, value),
            final(type_map)@.contains_key(key@),
            final(type_map)@[key@] == value,
            forall|other: Seq<char>|
                #![trigger final(type_map)@[other]]
                #![trigger old(type_map)@[other]]
                other != key@ && old(type_map)@.contains_key(other) ==> {
                    &&& final(type_map)@.contains_key(other)
                    &&& final(type_map)@[other] == old(type_map)@[other]
                },
            final(type_map).unknown_keys() == old(type_map).unknown_keys(),
            final(type_map).unknown_values() == old(type_map).unknown_values(),
            old(type_map)@.contains_key(key@) ==> final(type_map).keys() == old(type_map).keys(),
            !old(type_map)@.contains_key(key@) ==> final(type_map).keys() == old(
                type_map,
            ).keys().push(key@),
            filled_from(*old(type_map), self.type_reg()) && self.type_reg().is_registered(key@)
                ==> filled_from(*final(type_map), self.type_reg()),
    {
        type_map.insert_raw(key, value);
        proof {
            if filled_from(*old(type_map), self.type_reg()) && self.type_reg().is_registered(key@) {
                assert(type_map.unknown_view() == old(type_map).unknown_view());
                assert forall|k: Seq<char>| #[trigger] type_map@.contains_key(k) implies
                    self.type_reg().is_registered(k) by {
                    if k != key@ {
                        assert(old(type_map)@.contains_key(k));
                    }
                }
                assert forall|k: Seq<char>| #[trigger]
                    type_map.unknown_view().contains_key(k) implies !self.type_reg().is_registered(
                    k,
                ) by {
                    assert(old(type_map).unknown_view().contains_key(k));
                }
            }
        }
    }
}

impl<'r, BoxDT, ValueT> TypeMapVisitor<'r, BoxDT, BoxFnSeed<ValueT>> {
    /// Creates a new visitor with the given [`TypeReg`], which reads the
    /// value of an unregistered key with `fn_seed`.
    pub fn new(type_reg: &'r TypeReg<BoxDT>, fn_seed: BoxFnSeed<ValueT>) -> (visitor: Self)
        ensures
            visitor.type_reg() == *type_reg,
            visitor.fn_seed() == fn_seed,
    {
        TypeMapVisitor { type_reg, fn_seed }
    }

    /// The empty map that reading begins with, with room for as many entries
    /// as the source announces.
    pub fn begin(&self, size_hint: Option<usize>) -> (type_map: TypeMap<
        BoxDT,
        UnknownEntriesSome<ValueT>,
    >)
        ensures
            type_map.reserved() == match size_hint {
                Some(n) => reserved_for(n),
                None => 0,
            },
            type_map.wf(),
            type_map.keys().len() == 0,
            type_map.unknown_keys().len() == 0,
            filled_from(type_map, self.type_reg()),
    {
        let type_map = match size_hint {
            Some(n) => TypeMap::with_capacity_typed(n),
            None => TypeMap::new_typed(),
        };
        proof {
            type_map.lemma_wf();
        }
        type_map
    }

    /// The seed to read the value under `key` with: that of the type
    /// registered for the key, or, where none is registered, the seed for an
    /// arbitrary value.
    pub fn seed(&self, key: &str) -> (r: EntrySeed<'_, BoxDT, ValueT>)
        requires
            self.type_reg().wf(),
        ensures
            match r {
                EntrySeed::Typed(seed) => self.type_reg().is_registered(key@) && *seed
                    == self.type_reg().seeds()[self.type_reg().keys().index_of(key@)],
                EntrySeed::Unknown(seed) => !self.type_reg().is_registered(key@) && *seed
                    == self.fn_seed(),
            },
    {
        match self.type_reg.deserialize_seed_opt(key) {
            Some(seed) => EntrySeed::Typed(seed),
            None => EntrySeed::Unknown(&self.fn_seed),
        }
    }

    /// Stores the value read under `key` with the seed of its registered
    /// type. A key that occurs again keeps its place and takes the later
    /// value.
    pub fn accept_typed(
        &self,
        type_map: &mut TypeMap<BoxDT, UnknownEntriesSome<ValueT>>,
        key: String,
        value: BoxDT,
    )
        requires
            old(type_map).wf(),
        ensures
            final(type_map).reserved() == old(type_map).reserved(),
            final(type_map).wf(),
            final(type_map)@ == old(type_map)@.insert(key@, value),
            final(type_map)@.contains_key(key@),
            final(type_map)@[key@] == value,
            forall|other: Seq<char>|
                #![trigger final(type_map)@[other]]
                #![trigger old(type_map)@[other]]
                other != key@ && old(type_map)@.contains_key(other) ==> {
                    &&& final(type_map)@.contains_key(other)
                    &&& final(type_map)@[other] == old(type_map)@[other]
                },
            final(type_map).unknown_keys() == old(type_map).unknown_keys(),
            final(type_map).unknown_values() == old(type_map).unknown_values(),
            old(type_map)@.contains_key(key@) ==> final(type_map).keys() == old(type_map).keys(),
            !old(type_map)@.contains_key(key@) ==> final(type_map).keys() == old(
                type_map,
            ).keys().push(key@),
            filled_from(*old(type_map), self.type_reg()) && self.type_reg().is_registered(key@)
                ==> filled_from(*final(type_map), self.type_reg()),
    {
        type_map.insert_raw(key, value);
        proof {
            if filled_from(*old(type_map), self.type_reg()) && self.type_reg().is_registered(key@) {
                assert(type_map.unknown_view() == old(type_map).unknown_view());
                assert forall|k: Seq<char>| #[trigger] type_map@.contains_key(k) implies
                    self.type_reg().is_registered(k) by {
                    if k != key@ {
                        assert(old(type_map)@.contains_key(k));
                    }
                }
                assert forall|k: Seq<char>| #[trigger]
                    type_map.unknown_view().contains_key(k) implies !self.type_reg().is_registered(
                    k,
                ) by {
                    assert(old(type_map).unknown_view().contains_key(k));
                }
            }
        }
    }

    /// Stores the value read under the unregistered `key` with the seed for
    /// an arbitrary value. A key that occurs again keeps its place and takes
    /// the later value.
    pub fn accept_unknown(
        &self,
        type_map: &mut TypeMap<BoxDT, UnknownEntriesSome<ValueT>>,
        key: String,
        value: ValueT,
    )
        requires
            old(type_map).wf(),
        ensures
            final(type_map).reserved() == old(type_map).reserved(),
            final(type_map).wf(),
            final(type_map).keys() == old(type_map).keys(),
            final(type_map).values() == old(type_map).values(),
            final(type_map).unknown_view() == old(type_map).unknown_view().insert(key@, value),
            old(type_map).unknown_view().contains_key(key@) ==> final(type_map).unknown_keys()
                == old(type_map).unknown_keys(),
            !old(type_map).unknown_view().contains_key(key@) ==> final(type_map).unknown_keys()
                == old(type_map).unknown_keys().push(key@),
            filled_from(*old(type_map), self.type_reg()) && !self.type_reg().is_registered(key@)
                ==> filled_from(*final(type_map), self.type_reg()),
    {
        type_map.insert_unknown_entry(key, value);
        proof {
            if filled_from(*old(type_map), self.type_reg()) && !self.type_reg().is_registered(key@) {
                assert(type_map@ == old(type_map)@);
                assert forall|k: Seq<char>| #[trigger] type_map@.contains_key(k) implies
                    self.type_reg().is_registered(k) by {
                    assert(old(type_map)@.contains_key(k));
                }
                assert forall|k: Seq<char>| #[trigger]
                    type_map.unknown_view().contains_key(k) implies !self.type_reg().is_registered(
                    k,
                ) by {
                    if k != key@ {
                        assert(old(type_map).unknown_view().contains_key(k));
                    }
                }
            }
        }
    }
}

} // verus!
