use serde_tagged::de::BoxFnSeed;
use std::marker::PhantomData;
use vstd::prelude::*;

use crate::common::{UnknownEntriesNone, UnknownTypeError};
use crate::ordered_map::{reserved_for, OrderedMap};
use crate::tagged::type_map_visitor::TypeMapVisitor;
use crate::text::debug_map_text;
use crate::type_name_lit::TypeNameLit;
use crate::untagged::box_dt::BoxDt;
use crate::untagged::data_type::{names_stored, StoredType};
use crate::untagged::from_data_type::FromDataType;
use crate::untagged::type_reg::keys_debug_string;

verus! {

/// Map from a given key to logic to deserialize a type.
///
/// The key of a type is the name that the type gives of itself. A type that
/// is registered again keeps its place.
pub struct TypeReg<UnknownEntriesT = UnknownEntriesNone> {
    fn_seeds: OrderedMap<BoxFnSeed<BoxDt>>,
    marker: PhantomData<UnknownEntriesT>,
}

impl TypeReg<UnknownEntriesNone> {
    /// Creates an empty `TypeReg`.
    pub fn new() -> (reg: Self)
        ensures
            reg.reserved() == 0,
            reg.wf(),
            reg.keys().len() == 0,
    {
        TypeReg { fn_seeds: OrderedMap::new(), marker: PhantomData }
    }

    /// Creates an empty `TypeReg` with the specified capacity: room is made for
    /// `capacity` entries, or for `MAX_RESERVED` where more are asked for.
    pub fn with_capacity(capacity: usize) -> (reg: Self)
        ensures
            reg.reserved() == reserved_for(capacity),
            reg.wf(),
            reg.keys().len() == 0,
    {
        TypeReg { fn_seeds: OrderedMap::with_capacity(capacity), marker: PhantomData }
    }
}

impl<UnknownEntriesT> TypeReg<UnknownEntriesT> {
    /// The number of types that room was made for when the registry was made.
    pub closed spec fn reserved(&self) -> nat {
        self.fn_seeds.reserved()
    }

    /// The registered type tags, in the order of their first registration.
    pub closed spec fn keys(&self) -> Seq<Seq<char>> {
        self.fn_seeds.keys()
    }

    /// The seed of each registered type tag, at the position of the tag.
    pub closed spec fn seeds(&self) -> Seq<BoxFnSeed<BoxDt>> {
        self.fn_seeds.values()
    }

    /// Every type tag is registered once, with one seed.
    pub closed spec fn wf(&self) -> bool {
        self.fn_seeds.wf()
    }

    /// Whether a type is registered under `type_tag`.
    pub open spec fn is_registered(&self, type_tag: Seq<char>) -> bool {
        self.keys().contains(type_tag)
    }

    /// A well-formed registry has one seed for every type tag, and no tag
    /// twice.
    pub proof fn lemma_wf(&self)
        requires
            self.wf(),
        ensures
            self.keys().len() == self.seeds().len(),
            self.keys().no_duplicates(),
    {
        self.fn_seeds.lemma_wf();
    }

    /// The underlying map from each type tag to its seed, to be changed in
    /// place.
    pub fn deref_mut(&mut self) -> (inner: &mut OrderedMap<BoxFnSeed<BoxDt>>)
        ensures
            inner.wf() == old(self).wf(),
            inner.keys() == old(self).keys(),
            inner.values() == old(self).seeds(),
            inner.reserved() == old(self).reserved(),
            final(self).wf() == final(inner).wf(),
            final(self).keys() == final(inner).keys(),
            final(self).seeds() == final(inner).values(),
            final(self).reserved() == final(inner).reserved(),
    {
        &mut self.fn_seeds
    }

    /// The number of registered types.
    pub fn len(&self) -> (n: usize)
        requires
            self.wf(),
        ensures
            n == self.keys().len(),
    {
        self.fn_seeds.len()
    }

    /// How many types the registry can hold without reallocating: at least as
    /// many as it holds, and as room was made for when the registry was made;
    /// none, where no room was made and the registry holds nothing.
    pub fn capacity(&self) -> (n: usize)
        ensures
            n >= self.keys().len(),
            n >= self.reserved(),
            self.reserved() == 0 && self.keys().len() == 0 ==> n == 0,
    {
        self.fn_seeds.capacity()
    }

    /// Registers a type in this type registry, under the name that the type
    /// gives of itself, which is returned.
    ///
    /// Each type must be registered in this type registry before attempting to
    /// deserialize the type, or map of types. A tag that is registered
    /// already keeps its place and is from now on read as an `R`.
    pub fn register<R>(&mut self) -> (tag: TypeNameLit) where
        R: serde::de::DeserializeOwned + StoredType,

        requires
            old(self).wf(),
        ensures
            final(self).reserved() == old(self).reserved(),
            names_stored::<R>(tag),
            final(self).wf(),
            final(self).is_registered(tag@),
            <BoxDt as FromDataType<R>>::seed_reads(
                final(self).seeds()[final(self).keys().index_of(tag@)],
            ),
            old(self).is_registered(tag@) ==> final(self).keys() == old(self).keys(),
            !old(self).is_registered(tag@) ==> final(self).keys() == old(self).keys().push(tag@),
            forall|i: int|
                0 <= i < old(self).keys().len() && old(self).keys()[i] != tag@
                    ==> final(self).seeds()[i] == old(self).seeds()[i],
    {
        proof {
            self.lemma_wf();
        }
        let tag = R::type_name_lit();
        let seed = <BoxDt as FromDataType<R>>::fn_seed();
        self.fn_seeds.insert(tag.to_string(), seed);
        proof {
            if old(self).is_registered(tag@) {
                let i = old(self).keys().index_of(tag@);
                assert(old(self).keys()[i] == tag@);
            } else {
                assert(self.keys()[old(self).keys().len() as int] == tag@);
            }
        }
        tag
    }

    /// Begins to deserialize a map of arbitrary values into a `TypeMap`:
    /// answers with the visitor that decides how each entry is read.
    ///
    /// Each type must be registered in this type registry before attempting to
    /// deserialize the type.
    pub fn deserialize_map(&self) -> (visitor: TypeMapVisitor<'_, UnknownEntriesT>)
        ensures
            visitor.type_reg() == *self,
    {
        TypeMapVisitor::new(self)
    }

    /// Deserializes an arbitrary value, as far as the registry decides it:
    /// the value comes as a map of one entry, whose key is `type_tag`, and is
    /// read with the seed that is answered with. Where no type is registered
    /// under the tag, reading fails with the report that none is.
    pub fn deserialize_single(&self, type_tag: &str) -> (r: Result<
        &BoxFnSeed<BoxDt>,
        UnknownTypeError,
    >)
        requires
            self.wf(),
        ensures
            match r {
                Ok(seed) => self.is_registered(type_tag@) && *seed == self.seeds()[self.keys().index_of(
                    type_tag@,
                )],
                Err(error) => {
                    &&& !self.is_registered(type_tag@)
                    &&& error.subject_spec() == "Type"@
                    &&& error.type_key_spec() == type_tag@
                    &&& error.available_spec() == self.keys()
                },
            },
    {
        self.seed(type_tag)
    }

    /// The seed by which the value tagged with `type_tag` is read: the one
    /// registered for the tag. Where none is registered, reading fails with
    /// the report that names the tag and lists every registered tag, in the
    /// order of registration.
    pub fn seed(&self, type_tag: &str) -> (r: Result<&BoxFnSeed<BoxDt>, UnknownTypeError>)
        requires
            self.wf(),
        ensures
            match r {
                Ok(seed) => self.is_registered(type_tag@) && *seed == self.seeds()[self.keys().index_of(
                    type_tag@,
                )],
                Err(error) => {
                    &&& !self.is_registered(type_tag@)
                    &&& error.subject_spec() == "Type"@
                    &&& error.type_key_spec() == type_tag@
                    &&& error.available_spec() == self.keys()
                },
            },
    {
        match self.fn_seeds.get(type_tag) {
            Some(seed) => Ok(seed),
            None => Err(UnknownTypeError::new("Type", type_tag, &self.fn_seeds)),
        }
    }

    /// The registry as it is shown when debugging: each registered type tag,
    /// in the order of registration, with a placeholder in place of its seed.
    pub fn to_debug_string(&self) -> (s: String)
        requires
            self.wf(),
        ensures
            s@ == debug_map_text(
                self.keys(),
                Seq::new(self.keys().len(), |i: int| "\"..\""@),
            ),
    {
        keys_debug_string(&self.fn_seeds)
    }
}

impl<UnknownEntriesT> std::ops::Deref for TypeReg<UnknownEntriesT> {
    type Target = OrderedMap<BoxFnSeed<BoxDt>>;

    fn deref(&self) -> (inner: &Self::Target)
        ensures
            inner.wf() == self.wf(),
            inner.keys() == self.keys(),
            inner.values() == self.seeds(),
            inner.reserved() == self.reserved(),
    {
        &self.fn_seeds
    }
}

impl<UnknownEntriesT> Default for TypeReg<UnknownEntriesT> {
    fn default() -> (reg: Self)
        ensures
            reg.reserved() == 0,
            reg.wf(),
            reg.keys().len() == 0,
    {
        TypeReg { fn_seeds: OrderedMap::new(), marker: PhantomData }
    }
}

} // verus!
