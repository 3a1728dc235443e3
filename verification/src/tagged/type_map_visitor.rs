use serde_tagged::de::BoxFnSeed;
use std::marker::PhantomData;
use vstd::prelude::*;

use crate::common::{UnknownEntries, UnknownTypeError};
use crate::ordered_map::{lemma_stored_in_order, reserved_for, stored_in_order};
use crate::tagged::type_map::TypeMap;
use crate::tagged::type_reg::TypeReg;
use crate::untagged::box_data_type_downcast::BoxDataTypeDowncast;
use crate::untagged::box_dt::BoxDt;
use crate::untagged::data_type::StoredType;

verus! {

/// A map that is written and read back holds each value again, under its
/// key and at its type. `entries` are the entries as they were read, one for
/// each entry of `written`, in its order and under its key, and `read` is the
/// map that storing them one after another left. Where the value read at
/// position `i` is `value`, the value that `written` holds there, `read` has
/// as many keys as `written` and holds `value` under the key at `i`.
pub proof fn lemma_read_back<UnknownEntriesT: UnknownEntries, R: StoredType>(
    written: TypeMap<UnknownEntriesT>,
    entries: Seq<(Seq<char>, BoxDt)>,
    read: TypeMap<UnknownEntriesT>,
    i: int,
    value: R,
)
    requires
        written.wf(),
        read.wf(),
        entries.len() == written.keys().len(),
        forall|j: int| 0 <= j < entries.len() ==> (#[trigger] entries[j]).0 == written.keys()[j],
        read@ == stored_in_order(entries),
        0 <= i < entries.len(),
        written.values()[i].holds(value),
        entries[i].1.holds(value),
    ensures
        read.keys().len() == written.keys().len(),
        read@.contains_key(written.keys()[i]),
        read@[written.keys()[i]].holds(value),
{
    written.lemma_wf();
    read.lemma_wf();
    lemma_stored_in_order(written.keys(), entries);
    assert(written.keys().contains(written.keys()[i]));
    assert(read.keys().to_set() =~= written.keys().to_set()) by {
        assert forall|k: Seq<char>| read.keys().contains(k) <==> written.keys().contains(k) by {
            assert(read@.contains_key(k) <==> read.keys().contains(k));
        }
    }
    read.keys().unique_seq_to_set();
    written.keys().unique_seq_to_set();
}

/// Decides, entry by entry, how a map of externally tagged values is read
/// into a [`TypeMap`].
///
/// An externally tagged value is a map with a single entry, whose key is the
/// tag and whose value is the value to be read. Whoever reads the map asks
/// the visitor for an empty map to begin with, then for each entry reads the
/// tag, reads the value with the seed that the visitor answers the tag with,
/// and hands the key and the value back to be stored. The [`TypeReg`]
/// provided to this visitor determines the seed by the tag.
pub struct TypeMapVisitor<'r, UnknownEntriesT> {
    type_reg: &'r TypeReg<UnknownEntriesT>,
    marker: PhantomData<UnknownEntriesT>,
}

impl<'r, UnknownEntriesT> TypeMapVisitor<'r, UnknownEntriesT> {
    /// The registry by which the visitor decides.
    pub closed spec fn type_reg(&self) -> TypeReg<UnknownEntriesT> {
        *self.type_reg
    }

    /// What the visitor expects to read, in words.
    pub fn expecting(&self) -> (text: &'static str)
        ensures
            text@ == "a map of arbitrary data types"@,
    {
        "a map of arbitrary data types"
    }

    /// Creates a new visitor with the given [`TypeReg`].
    pub fn new(type_reg: &'r TypeReg<UnknownEntriesT>) -> (visitor: Self)
        ensures
            visitor.type_reg() == *type_reg,
    {
        TypeMapVisitor { type_reg, marker: PhantomData }
    }

    /// The seed to read the value tagged with `type_tag` with: that of the
    /// type registered under the tag. Where none is registered, reading fails
    /// with the report that names the tag and every registered tag.
    pub fn seed(&self, type_tag: &str) -> (r: Result<&'r BoxFnSeed<BoxDt>, UnknownTypeError>)
        requires
            self.type_reg().wf(),
        ensures
            match r {
                Ok(seed) => self.type_reg().is_registered(type_tag@) && *seed
                    == self.type_reg().seeds()[self.type_reg().keys().index_of(type_tag@)],
                Err(error) => {
                    &&& !self.type_reg().is_registered(type_tag@)
                    &&& error.subject_spec() == "Type"@
                    &&& error.type_key_spec() == type_tag@
                    &&& error.available_spec() == self.type_reg().keys()
                },
            },
    {
        self.type_reg.seed(type_tag)
    }
}

impl<'r, UnknownEntriesT> TypeMapVisitor<'r, UnknownEntriesT> where
    UnknownEntriesT: UnknownEntries,
 {
    /// The empty map that reading begins with, with room for as many entries
    /// as the source announces.
    pub fn begin(&self, size_hint: Option<usize>) -> (type_map: TypeMap<UnknownEntriesT>)
        ensures
            type_map.reserved() == match size_hint {
                Some(n) => reserved_for(n),
                None => 0,
            },
            type_map.wf(),
            type_map.keys().len() == 0,
            type_map.unknown_keys().len() == 0,
    {
        match size_hint {
            Some(n) => TypeMap::with_capacity_typed(n),
            None => TypeMap::new_typed(),
        }
    }

    /// Stores the value read under `key`. A key that occurs again keeps its
    /// place and takes the later value.
    pub fn accept(&self, type_map: &mut TypeMap<UnknownEntriesT>, key: String, value: BoxDt)
        requires
            old(type_map).wf(),
        ensures
            final(type_map).reserved() == old(type_map).reserved(),
            final(type_map).wf(),
            final(type_map)@ == old(type_map)@.insert(key@, value),
            final(type_map)@.contains_key(key@),
            final(type_map)@[key@] == value,
            forall|other: Seq<char>|
                #![trigger final(type_map)@[other]]
                #![trigger old(type_map)@[other]]
                other != key@ && old(type_map)@.contains_key(other) ==> {
                    &&& final(type_map)@.contains_key(other)
                    &&& final(type_map)@[other] == old(type_map)@[other]
                },
            final(type_map).unknown_keys() == old(type_map).unknown_keys(),
            final(type_map).unknown_values() == old(type_map).unknown_values(),
            old(type_map)@.contains_key(key@) ==> final(type_map).keys() == old(type_map).keys(),
            !old(type_map)@.contains_key(key@) ==> final(type_map).keys() == old(
                type_map,
            ).keys().push(key@),
    {
        type_map.insert_raw(key, value);
    }
}

} // verus!
