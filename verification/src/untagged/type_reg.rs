use serde_tagged::de::BoxFnSeed;
use vstd::prelude::*;

use crate::ordered_map::{reserved_for, OrderedMap};
use crate::text::{debug_map_body, debug_map_text, lemma_debug_map_body_step, push_debug_entry};
use crate::common::{UnknownEntriesNone, UnknownTypeError};
use crate::untagged::box_dt::BoxDt;
use crate::untagged::data_type::StoredType;
use crate::untagged::from_data_type::FromDataType;
use crate::untagged::type_map_opt_visitor::TypeMapOptVisitor;
use crate::untagged::type_map_visitor::TypeMapVisitor;

verus! {

/// `serde_tagged::de::BoxFnSeed::new`, on a closure that reads a `T` with
/// `erased_serde::deserialize` and hands what it read to `wrap`, which must
/// take every `T`.
#[verifier::external_body]
pub(crate) fn seed_with<T, V, F>(wrap: F) -> BoxFnSeed<V> where
    T: serde::de::DeserializeOwned,
    F: Fn(T) -> V + Sync + 'static,

    requires
        forall|value: T| wrap.requires((value,)),
{
    BoxFnSeed::new(
        move |deserializer: &mut dyn erased_serde::Deserializer<'_>|
            erased_serde::deserialize::<T>(deserializer).map(&wrap),
    )
}

/// The seed that reads an `R` and boxes it.
fn boxed_seed<R, BoxDT>() -> (seed: BoxFnSeed<BoxDT>) where
    R: serde::de::DeserializeOwned + StoredType,
    BoxDT: FromDataType<R> + 'static,

    ensures
        <BoxDT as FromDataType<R>>::seed_reads(seed),
{
    <BoxDT as FromDataType<R>>::fn_seed()
}

/// The seed that reads an optional `R` and boxes it where there is one.
fn boxed_opt_seed<R, BoxDT>() -> (seed: BoxFnSeed<Option<BoxDT>>) where
    R: serde::de::DeserializeOwned + StoredType,
    BoxDT: FromDataType<R> + 'static,

    ensures
        <BoxDT as FromDataType<R>>::opt_seed_reads(seed),
{
    <BoxDT as FromDataType<R>>::fn_opt_seed()
}

/// The seed that reads a `ValueT` and keeps it as it is.
fn value_seed<ValueT>() -> BoxFnSeed<ValueT> where ValueT: serde::de::DeserializeOwned + 'static {
    seed_with::<ValueT, ValueT, _>(|value: ValueT| -> ValueT { value })
}

/// The seed that reads an optional `ValueT` and keeps it as it is.
fn opt_value_seed<ValueT>() -> BoxFnSeed<Option<ValueT>> where
    ValueT: serde::de::DeserializeOwned + 'static,
 {
    seed_with::<Option<ValueT>, Option<ValueT>, _>(
        |value: Option<ValueT>| -> Option<ValueT> { value },
    )
}

/// The keys of `types` as they are shown when debugging: as a map from each
/// key to a placeholder.
pub fn keys_debug_string<V>(types: &OrderedMap<V>) -> (s: String)
    requires
        types.wf(),
    ensures
        s@ == debug_map_text(types.keys(), Seq::new(types.keys().len(), |i: int| "\"..\""@)),
{
    let ghost keys = types.keys();
    let ghost texts = Seq::new(keys.len(), |i: int| "\"..\""@);
    let n = types.len();
    let mut out = String::new();
    out.push_str("{");
    let mut i: usize = 0;
    while i < n
        invariant
            types.wf(),
            keys == types.keys(),
            texts == Seq::new(keys.len(), |i: int| "\"..\""@),
            n == keys.len(),
            i <= n,
            out@ == "{"@ + debug_map_body(keys.take(i as int), texts.take(i as int)),
        decreases n - i,
    {
        push_debug_entry(&mut out, i > 0, types.key_at(i).as_str(), "\"..\"");
        proof {
            lemma_debug_map_body_step(keys, texts, i as int);
            assert(out@ =~= "{"@ + debug_map_body(
                keys.take(i as int + 1),
                texts.take(i as int + 1),
            ));
        }
        i += 1;
    }
    out.push_str("}");
    proof {
        assert(keys.take(n as int) =~= keys);
        assert(texts.take(n as int) =~= texts);
    }
    out
}

/// Map from a given key to logic to deserialize a type.
///
/// Keys are text. A key that is registered again keeps its place and takes
/// the type of the later registration.
#[verifier::reject_recursive_types(BoxDT)]
pub struct TypeReg<BoxDT = BoxDt> {
    fn_seeds: OrderedMap<BoxFnSeed<BoxDT>>,
    fn_opt_seeds: OrderedMap<BoxFnSeed<Option<BoxDT>>>,
}

impl TypeReg<BoxDt> {
    /// Creates an empty `TypeReg`.
    pub fn new() -> (reg: Self)
        ensures
            reg.reserved() == 0,
            reg.wf(),
            reg.keys().len() == 0,
    {
        TypeReg { fn_seeds: OrderedMap::new(), fn_opt_seeds: OrderedMap::new() }
    }

    /// Creates an empty `TypeReg` with the specified capacity: room is made for
    /// `capacity` entries, or for `MAX_RESERVED` where more are asked for.
    pub fn with_capacity(capacity: usize) -> (reg: Self)
        ensures
            reg.reserved() == reserved_for(capacity),
            reg.wf(),
            reg.keys().len() == 0,
    {
        TypeReg {
            fn_seeds: OrderedMap::with_capacity(capacity),
            fn_opt_seeds: OrderedMap::with_capacity(capacity),
        }
    }
}

impl<BoxDT> TypeReg<BoxDT> {
    /// The number of keys that room was made for when the registry was made.
    pub closed spec fn reserved(&self) -> nat {
        self.fn_seeds.reserved()
    }

    /// The registered keys, in the order of their first registration.
    pub closed spec fn keys(&self) -> Seq<Seq<char>> {
        self.fn_seeds.keys()
    }

    /// The seed of each registered key, at the position of the key.
    pub closed spec fn seeds(&self) -> Seq<BoxFnSeed<BoxDT>> {
        self.fn_seeds.values()
    }

    /// The seed for an optional value of each registered key, at the
    /// position of the key.
    pub closed spec fn opt_seeds(&self) -> Seq<BoxFnSeed<Option<BoxDT>>> {
        self.fn_opt_seeds.values()
    }

    /// Every key is registered once, with one seed of each kind.
    pub closed spec fn wf(&self) -> bool {
        &&& self.fn_seeds.wf()
        &&& self.fn_opt_seeds.wf()
        &&& self.fn_seeds.keys() == self.fn_opt_seeds.keys()
    }

    /// Whether a type is registered for `type_key`.
    pub open spec fn is_registered(&self, type_key: Seq<char>) -> bool {
        self.keys().contains(type_key)
    }

    /// A well-formed registry has one seed of each kind for every key, and no
    /// key twice.
    pub proof fn lemma_wf(&self)
        requires
            self.wf(),
        ensures
            self.keys().len() == self.seeds().len(),
            self.keys().len() == self.opt_seeds().len(),
            self.keys().no_duplicates(),
    {
        self.fn_seeds.lemma_wf();
        self.fn_opt_seeds.lemma_wf();
    }

    /// Creates an empty `TypeReg`.
    pub fn new_typed() -> (reg: Self)
        ensures
            reg.reserved() == 0,
            reg.wf(),
            reg.keys().len() == 0,
    {
        TypeReg { fn_seeds: OrderedMap::new(), fn_opt_seeds: OrderedMap::new() }
    }

    /// Creates an empty `TypeReg` with the specified capacity: room is made for
    /// `capacity` entries, or for `MAX_RESERVED` where more are asked for.
    pub fn with_capacity_typed(capacity: usize) -> (reg: Self)
        ensures
            reg.reserved() == reserved_for(capacity),
            reg.wf(),
            reg.keys().len() == 0,
    {
        TypeReg {
            fn_seeds: OrderedMap::with_capacity(capacity),
            fn_opt_seeds: OrderedMap::with_capacity(capacity),
        }
    }

    /// The underlying map from each key to its seed, to be changed in place.
    /// The seeds for optional values stay as they are: the registry is well
    /// formed afterwards where the map is, with the keys that it had.
    pub fn deref_mut(&mut self) -> (inner: &mut OrderedMap<BoxFnSeed<BoxDT>>)
        ensures
            old(self).wf() ==> inner.wf(),
            inner.keys() == old(self).keys(),
            inner.values() == old(self).seeds(),
            inner.reserved() == old(self).reserved(),
            final(self).keys() == final(inner).keys(),
            final(self).seeds() == final(inner).values(),
            final(self).opt_seeds() == old(self).opt_seeds(),
            final(self).reserved() == final(inner).reserved(),
            old(self).wf() && final(inner).wf() && final(inner).keys() == old(self).keys()
                ==> final(self).wf(),
    {
        &mut self.fn_seeds
    }

    /// The number of registered keys.
    pub fn len(&self) -> (n: usize)
        requires
            self.wf(),
        ensures
            n == self.keys().len(),
    {
        self.fn_seeds.len()
    }

    /// How many keys the registry can hold without reallocating: at least as
    /// many as it holds, and as room was made for when the registry was made;
    /// none, where no room was made and the registry holds nothing.
    pub fn capacity(&self) -> (n: usize)
        ensures
            n >= self.keys().len(),
            n >= self.reserved(),
            self.reserved() == 0 && self.keys().len() == 0 ==> n == 0,
    {
        self.fn_seeds.capacity()
    }

    /// Registers a type in this type registry.
    ///
    /// Each type must be registered in this type registry before attempting to
    /// deserialize the type, or map of types. A key that is registered
    /// already keeps its place and is from now on read as an `R`: the seeds
    /// under the key are then those that read an `R` and an optional `R`.
    pub fn register<R>(&mut self, key: String) where
        R: serde::de::DeserializeOwned + StoredType,
        BoxDT: FromDataType<R> + 'static,

        requires
            old(self).wf(),
        ensures
            final(self).reserved() == old(self).reserved(),
            final(self).wf(),
            final(self).is_registered(key@),
            <BoxDT as FromDataType<R>>::seed_reads(
                final(self).seeds()[final(self).keys().index_of(key@)],
            ),
            <BoxDT as FromDataType<R>>::opt_seed_reads(
                final(self).opt_seeds()[final(self).keys().index_of(key@)],
            ),
            old(self).is_registered(key@) ==> final(self).keys() == old(self).keys(),
            !old(self).is_registered(key@) ==> final(self).keys() == old(self).keys().push(key@),
            forall|i: int|
                0 <= i < old(self).keys().len() && old(self).keys()[i] != key@ ==> {
                    &&& final(self).seeds()[i] == old(self).seeds()[i]
                    &&& final(self).opt_seeds()[i] == old(self).opt_seeds()[i]
                },
    {
        proof {
            self.lemma_wf();
        }
        let opt_key = key.clone();
        self.fn_seeds.insert(key, boxed_seed::<R, BoxDT>());
        self.fn_opt_seeds.insert(opt_key, boxed_opt_seed::<R, BoxDT>());
        proof {
            if old(self).is_registered(key@) {
                let i = old(self).keys().index_of(key@);
                assert(old(self).keys()[i] == key@);
            } else {
                assert(self.keys()[old(self).keys().len() as int] == key@);
            }
        }
    }

    /// Begins to deserialize a map of arbitrary values into a `TypeMap`:
    /// answers with the visitor that decides how each entry is read, and that
    /// fails at a key that no type is registered for.
    ///
    /// Each type must be registered in this type registry before attempting to
    /// deserialize the type.
    pub fn deserialize_map(&self) -> (visitor: TypeMapVisitor<'_, BoxDT, UnknownEntriesNone>)
        ensures
            visitor.type_reg() == *self,
    {
        TypeMapVisitor::<BoxDT, UnknownEntriesNone>::new(self)
    }

    /// Begins to deserialize a map of arbitrary optional values into a
    /// `TypeMapOpt`: answers with the visitor that decides how each entry is
    /// read, and that fails at a key that no type is registered for.
    ///
    /// Each type must be registered in this type registry before attempting to
    /// deserialize the type.
    pub fn deserialize_map_opt(&self) -> (visitor: TypeMapOptVisitor<'_, BoxDT, UnknownEntriesNone>)
        ensures
            visitor.type_reg() == *self,
    {
        TypeMapOptVisitor::<BoxDT, UnknownEntriesNone>::new(self)
    }

    /// Begins to deserialize a map of arbitrary values into a `TypeMap`:
    /// answers with the visitor that decides how each entry is read, and that
    /// keeps the value under a key that no type is registered for as a
    /// `ValueT`, among the unknown entries.
    pub fn deserialize_map_with_unknowns<ValueT>(&self) -> (visitor: TypeMapVisitor<
        '_,
        BoxDT,
        BoxFnSeed<ValueT>,
    >) where ValueT: serde::de::DeserializeOwned + 'static
        ensures
            visitor.type_reg() == *self,
    {
        TypeMapVisitor::<BoxDT, BoxFnSeed<ValueT>>::new(self, value_seed::<ValueT>())
    }

    /// Begins to deserialize a map of arbitrary optional values into a
    /// `TypeMapOpt`: answers with the visitor that decides how each entry is
    /// read, and that keeps the value under a key that no type is registered
    /// for as an optional `ValueT`, among the unknown entries.
    pub fn deserialize_map_opt_with_unknowns<ValueT>(&self) -> (visitor: TypeMapOptVisitor<
        '_,
        BoxDT,
        BoxFnSeed<Option<ValueT>>,
    >) where ValueT: serde::de::DeserializeOwned + 'static
        ensures
            visitor.type_reg() == *self,
    {
        TypeMapOptVisitor::<BoxDT, BoxFnSeed<Option<ValueT>>>::new(self, opt_value_seed::<ValueT>())
    }

    /// The registry as it is shown when debugging: each registered key, in
    /// the order of registration, with a placeholder in place of its seed.
    pub fn to_debug_string(&self) -> (s: String)
        requires
            self.wf(),
        ensures
            s@ == debug_map_text(
                self.keys(),
                Seq::new(self.keys().len(), |i: int| "\"..\""@),
            ),
    {
        keys_debug_string(&self.fn_seeds)
    }

    /// The seed registered for `type_key`, or the report that none is.
    pub fn deserialize_seed(&self, type_key: &str) -> (r: Result<&BoxFnSeed<BoxDT>, UnknownTypeError>)
        requires
            self.wf(),
        ensures
            match r {
                Ok(seed) => self.is_registered(type_key@) && *seed == self.seeds()[self.keys().index_of(
                    type_key@,
                )],
                Err(error) => {
                    &&& !self.is_registered(type_key@)
                    &&& error.subject_spec() == "Type key"@
                    &&& error.type_key_spec() == type_key@
                    &&& error.available_spec() == self.keys()
                },
            },
    {
        match self.fn_seeds.get(type_key) {
            Some(seed) => Ok(seed),
            None => Err(self.unknown_type_error(type_key)),
        }
    }

    /// Deserializes an arbitrary value, as far as the registry decides it:
    /// the value comes as a map of one entry, whose key is `type_key`, and is
    /// read with the seed that is answered with. Where no type is registered
    /// for the key, reading fails with the report that none is.
    pub fn deserialize_single(&self, type_key: &str) -> (r: Result<
        &BoxFnSeed<BoxDT>,
        UnknownTypeError,
    >)
        requires
            self.wf(),
        ensures
            match r {
                Ok(seed) => self.is_registered(type_key@) && *seed == self.seeds()[self.keys().index_of(
                    type_key@,
                )],
                Err(error) => {
                    &&& !self.is_registered(type_key@)
                    &&& error.subject_spec() == "Type key"@
                    &&& error.type_key_spec() == type_key@
                    &&& error.available_spec() == self.keys()
                },
            },
    {
        self.seed(type_key)
    }

    /// The seed by which the value tagged with `type_key` is read: the one
    /// registered for the key, or the report that none is.
    pub fn seed(&self, type_key: &str) -> (r: Result<&BoxFnSeed<BoxDT>, UnknownTypeError>)
        requires
            self.wf(),
        ensures
            match r {
                Ok(seed) => self.is_registered(type_key@) && *seed == self.seeds()[self.keys().index_of(
                    type_key@,
                )],
                Err(error) => {
                    &&& !self.is_registered(type_key@)
                    &&& error.subject_spec() == "Type key"@
                    &&& error.type_key_spec() == type_key@
                    &&& error.available_spec() == self.keys()
                },
            },
    {
        self.deserialize_seed(type_key)
    }

    /// The seed for an optional value registered for `type_key`, or the
    /// report that none is.
    pub fn deserialize_opt_seed(&self, type_key: &str) -> (r: Result<&BoxFnSeed<Option<BoxDT>>, UnknownTypeError>)
        requires
            self.wf(),
        ensures
            match r {
                Ok(seed) => self.is_registered(type_key@) && *seed
                    == self.opt_seeds()[self.keys().index_of(type_key@)],
                Err(error) => {
                    &&& !self.is_registered(type_key@)
                    &&& error.subject_spec() == "Type key"@
                    &&& error.type_key_spec() == type_key@
                    &&& error.available_spec() == self.keys()
                },
            },
    {
        match self.fn_opt_seeds.get(type_key) {
            Some(seed) => Ok(seed),
            None => Err(self.unknown_type_error(type_key)),
        }
    }

    /// The report that no type is registered for `type_key`: it names the key
    /// and lists every registered key, in the order of registration.
    pub fn unknown_type_error(&self, type_key: &str) -> (error: UnknownTypeError)
        requires
            self.wf(),
        ensures
            error.subject_spec() == "Type key"@,
            error.type_key_spec() == type_key@,
            error.available_spec() == self.keys(),
    {
        UnknownTypeError::new("Type key", type_key, &self.fn_seeds)
    }

    /// The seed registered for `type_key`, if one is.
    pub fn deserialize_seed_opt(&self, type_key: &str) -> (r: Option<&BoxFnSeed<BoxDT>>)
        requires
            self.wf(),
        ensures
            match r {
                Some(seed) => self.is_registered(type_key@) && *seed
                    == self.seeds()[self.keys().index_of(type_key@)],
                None => !self.is_registered(type_key@),
            },
    {
        self.fn_seeds.get(type_key)
    }

    /// The seed for an optional value registered for `type_key`, if one is.
    pub fn deserialize_opt_seed_opt(&self, type_key: &str) -> (r: Option<
        &BoxFnSeed<Option<BoxDT>>,
    >)
        requires
            self.wf(),
        ensures
            match r {
                Some(seed) => self.is_registered(type_key@) && *seed
                    == self.opt_seeds()[self.keys().index_of(type_key@)],
                None => !self.is_registered(type_key@),
            },
    {
        self.fn_opt_seeds.get(type_key)
    }
}

impl<BoxDT> std::ops::Deref for TypeReg<BoxDT> {
    type Target = OrderedMap<BoxFnSeed<BoxDT>>;

    fn deref(&self) -> (inner: &Self::Target)
        ensures
            self.wf() ==> inner.wf(),
            inner.keys() == self.keys(),
            inner.values() == self.seeds(),
            inner.reserved() == self.reserved(),
    {
        &self.fn_seeds
    }
}

impl<BoxDT> Default for TypeReg<BoxDT> {
    fn default() -> (reg: Self)
        ensures
            reg.reserved() == 0,
            reg.wf(),
            reg.keys().len() == 0,
    {
        TypeReg { fn_seeds: OrderedMap::new(), fn_opt_seeds: OrderedMap::new() }
    }
}

} // verus!
