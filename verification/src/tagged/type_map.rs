use vstd::prelude::*;

use crate::common::{UnknownEntries, UnknownEntriesNone, UnknownEntriesSome};
use crate::ordered_map::{pairs_to_map, reserved_for, OrderedMap};
use crate::text::debug_map_text;
use crate::untagged::box_data_type_downcast::BoxDataTypeDowncast;
use crate::untagged::box_dt::BoxDt;
use crate::untagged::data_type::StoredType;
use crate::untagged::data_type_wrapper::DataTypeWrapper;
use crate::untagged::from_data_type::FromDataType;
use crate::untagged::type_map::{boxes_clone_to, typed_value_texts, with_unknowns_text};

verus! {

/// Map of types that can be serialized / deserialized.
///
/// Keys are text, and entries keep the order in which their keys were first
/// inserted. Each value is boxed with the name of its type, which is its tag.
pub struct TypeMap<UnknownEntriesT = UnknownEntriesNone> where UnknownEntriesT: UnknownEntries {
    map: crate::untagged::TypeMap<BoxDt, UnknownEntriesT>,
}

impl TypeMap<UnknownEntriesNone> {
    /// Creates an empty `TypeMap`.
    pub fn new() -> (m: Self)
        ensures
            m.reserved() == 0,
            m.wf(),
            m.keys().len() == 0,
            m.unknown_keys().len() == 0,
    {
        TypeMap { map: crate::untagged::TypeMap::new_typed() }
    }

    /// Creates an empty `TypeMap` with the specified capacity: room is made for
    /// `capacity` entries, or for `MAX_RESERVED` where more are asked for.
    pub fn with_capacity(capacity: usize) -> (m: Self)
        ensures
            m.reserved() == reserved_for(capacity),
            m.wf(),
            m.keys().len() == 0,
            m.unknown_keys().len() == 0,
    {
        TypeMap { map: crate::untagged::TypeMap::with_capacity_typed(capacity) }
    }

    /// A map with a copy of each entry, in the same order. Each boxed value
    /// is the clone of the one at its position.
    pub fn clone(&self) -> (copy: Self)
        requires
            self.wf(),
        ensures
            copy.wf(),
            copy.keys() == self.keys(),
            boxes_clone_to(self.values(), copy.values()),
            copy.unknown_keys() == self.unknown_keys(),
            copy.unknown_values() == self.unknown_values(),
    {
        TypeMap { map: self.map.clone() }
    }

    /// Returns the underlying map.
    pub fn into_inner(self) -> (inner: OrderedMap<BoxDt>)
        ensures
            inner.reserved() == self.reserved(),
            self.wf() ==> inner.wf(),
            inner.keys() == self.keys(),
            inner.values() == self.values(),
    {
        self.map.into_inner()
    }

    /// The map as it is shown when debugging: each key with the name of the
    /// type of its value; the value itself is not shown.
    pub fn to_debug_string(&self) -> (s: String)
        requires
            self.wf(),
        ensures
            s@ == debug_map_text(self.keys(), typed_value_texts(self.values())),
    {
        self.map.to_debug_string()
    }
}

impl<ValueT> TypeMap<UnknownEntriesSome<ValueT>> {
    /// A map with a copy of each entry, typed and unknown, in the same order.
    /// Each value, boxed or unknown, is the clone of the one at its position.
    pub fn clone(&self) -> (copy: Self) where ValueT: Clone
        requires
            self.wf(),
        ensures
            copy.wf(),
            copy.keys() == self.keys(),
            boxes_clone_to(self.values(), copy.values()),
            copy.unknown_keys() == self.unknown_keys(),
            copy.unknown_values().len() == self.unknown_values().len(),
            forall|i: int|
                0 <= i < self.unknown_values().len() ==> cloned(
                    #[trigger] self.unknown_values()[i],
                    copy.unknown_values()[i],
                ),
    {
        TypeMap { map: self.map.clone() }
    }

    /// Returns the underlying map and unknown entries.
    pub fn into_inner(self) -> (parts: (OrderedMap<BoxDt>, OrderedMap<ValueT>))
        ensures
            parts.0.reserved() == self.reserved(),
            self.wf() ==> parts.0.wf() && parts.1.wf(),
            parts.0.keys() == self.keys(),
            parts.0.values() == self.values(),
            parts.1.keys() == self.unknown_keys(),
            parts.1.values() == self.unknown_values(),
    {
        self.map.into_inner()
    }

    /// The map as it is shown when debugging: the typed entries, each key
    /// with the name of the type of its value, and the unknown entries, each
    /// key with what its value makes of itself.
    pub fn to_debug_string(&self) -> (s: String) where ValueT: std::fmt::Debug
        requires
            self.wf(),
        ensures
            exists|unknown_texts: Seq<Seq<char>>|
                unknown_texts.len() == self.unknown_keys().len() && s@ == with_unknowns_text(
                    "TypeMap"@,
                    debug_map_text(self.keys(), typed_value_texts(self.values())),
                    self.unknown_keys(),
                    unknown_texts,
                ),
    {
        let s = self.map.to_debug_string();
        proof {
            let texts = choose|unknown_texts: Seq<Seq<char>>|
                unknown_texts.len() == self.map.unknown_keys().len() && s@ == with_unknowns_text(
                    "TypeMap"@,
                    debug_map_text(self.map.keys(), typed_value_texts(self.map.values())),
                    self.map.unknown_keys(),
                    unknown_texts,
                );
            assert(texts.len() == self.unknown_keys().len() && s@ == with_unknowns_text(
                "TypeMap"@,
                debug_map_text(self.keys(), typed_value_texts(self.values())),
                self.unknown_keys(),
                texts,
            ));
        }
        s
    }
}

impl<UnknownEntriesT> TypeMap<UnknownEntriesT> where UnknownEntriesT: UnknownEntries {
    /// The number of typed entries that room was made for when the map was
    /// made.
    pub closed spec fn reserved(&self) -> nat {
        self.map.reserved()
    }

    /// The keys of the typed entries, in insertion order.
    pub closed spec fn keys(&self) -> Seq<Seq<char>> {
        self.map.keys()
    }

    /// The boxed values of the typed entries, each at the position of its key.
    pub closed spec fn values(&self) -> Seq<BoxDt> {
        self.map.values()
    }

    /// The keys of the unknown entries, in insertion order.
    pub closed spec fn unknown_keys(&self) -> Seq<Seq<char>> {
        self.map.unknown_keys()
    }

    /// The values of the unknown entries, each at the position of its key.
    pub closed spec fn unknown_values(&self) -> Seq<<UnknownEntriesT as UnknownEntries>::ValueT> {
        self.map.unknown_values()
    }

    /// The typed entries hold each key once, with one value.
    pub closed spec fn wf_inner(&self) -> bool {
        self.map.wf_inner()
    }

    /// Both tables hold each of their keys once, with one value.
    pub closed spec fn wf(&self) -> bool {
        self.map.wf()
    }

    /// The typed entries as a mathematical map from key to boxed value.
    pub open spec fn view(&self) -> Map<Seq<char>, BoxDt> {
        pairs_to_map(self.keys(), self.values())
    }

    /// A well-formed map has as many values as keys, and no key twice.
    pub proof fn lemma_wf(&self)
        requires
            self.wf(),
        ensures
            self.wf_inner(),
            self.keys().len() == self.values().len(),
            self.keys().no_duplicates(),
    {
        self.map.lemma_wf();
    }

    /// Creates an empty `TypeMap`.
    pub fn new_typed() -> (m: Self)
        ensures
            m.reserved() == 0,
            m.wf(),
            m.keys().len() == 0,
            m.unknown_keys().len() == 0,
    {
        TypeMap { map: crate::untagged::TypeMap::new_typed() }
    }

    /// Creates an empty `TypeMap` with the specified capacity: room is made for
    /// `capacity` entries, or for `MAX_RESERVED` where more are asked for.
    pub fn with_capacity_typed(capacity: usize) -> (m: Self)
        ensures
            m.reserved() == reserved_for(capacity),
            m.wf(),
            m.keys().len() == 0,
            m.unknown_keys().len() == 0,
    {
        TypeMap { map: crate::untagged::TypeMap::with_capacity_typed(capacity) }
    }

    /// The number of typed entries.
    pub fn len(&self) -> (n: usize)
        requires
            self.wf(),
        ensures
            n == self.keys().len(),
    {
        self.map.len()
    }

    /// How many typed entries the map can hold without reallocating its keys:
    /// at least as many as it holds, and as room was made for when the map
    /// was made; none, where no room was made and the map holds nothing.
    pub fn capacity(&self) -> (n: usize)
        ensures
            n >= self.keys().len(),
            n >= self.reserved(),
            self.reserved() == 0 && self.keys().len() == 0 ==> n == 0,
    {
        self.map.capacity()
    }

    /// Returns a reference to the value corresponding to the key.
    ///
    /// If there is an entry, but the data type does not match, `None` is
    /// returned.
    pub fn get<R>(&self, q: &str) -> (r: Option<&R>) where R: StoredType
        requires
            self.wf(),
        ensures
            r.is_some() <==> self@.contains_key(q@) && exists|w: R| self@[q@].holds(w),
            self@.contains_key(q@) && (forall|w: R| !self@[q@].holds(w)) ==> r.is_none(),
            match r {
                Some(v) => {
                    &&& self@.contains_key(q@)
                    &&& self@[q@].holds(*v)
                    &&& forall|w: R| self@[q@].holds(w) ==> w == *v
                },
                None => true,
            },
    {
        let r = self.map.get(q);
        proof {
            if let Some(v) = r {
                assert(self@[q@].holds(*v));
            } else if self@.contains_key(q@) {
                assert(forall|w: R| !self.map@[q@].holds(w));
            }
        }
        r
    }

    /// Returns a mutable reference to the value corresponding to the key.
    ///
    /// If there is an entry, but the data type does not match, `None` is
    /// returned, and the map stays as it is.
    pub fn get_mut<R>(&mut self, q: &str) -> (r: Option<&mut R>) where R: StoredType
        requires
            old(self).wf(),
        ensures
            final(self).reserved() == old(self).reserved(),
            final(self).wf(),
            final(self).keys() == old(self).keys(),
            final(self).unknown_keys() == old(self).unknown_keys(),
            final(self).unknown_values() == old(self).unknown_values(),
            r.is_some() <==> old(self)@.contains_key(q@) && exists|w: R| old(self)@[q@].holds(w),
            r matches Some(v) ==> {
                &&& old(self)@[q@].holds(*v)
                &&& forall|w: R| old(self)@[q@].holds(w) ==> w == *v
                &&& final(self)@[q@].holds(*final(v))
                &&& final(self)@[q@].type_name_spec() == old(self)@[q@].type_name_spec()
                &&& BoxDataTypeDowncast::<R>::named(&final(self)@[q@])
                    == BoxDataTypeDowncast::<R>::named(&old(self)@[q@])
                &&& final(self)@ == old(self)@.insert(q@, final(self)@[q@])
            },
            r is None ==> final(self).values() == old(self).values(),
    {
        self.map.get_mut(q)
    }

    /// Inserts a key-value pair into the map.
    ///
    /// If the map did not have this key present, `None` is returned.
    ///
    /// If the map did have this key present, the value is updated, and the old
    /// value is returned. The key keeps its place in the order.
    pub fn insert<R>(&mut self, k: String, r: R) -> (old_value: Option<BoxDt>) where R: StoredType
        requires
            old(self).wf(),
        ensures
            final(self).reserved() == old(self).reserved(),
            final(self).wf(),
            final(self)@.contains_key(k@),
            final(self)@[k@].holds(r),
            BoxDataTypeDowncast::<R>::named(&final(self)@[k@]),
            final(self)@ == old(self)@.insert(k@, final(self)@[k@]),
            forall|other: Seq<char>|
                #![trigger final(self)@[other]]
                #![trigger old(self)@[other]]
                other != k@ && old(self)@.contains_key(other) ==> final(self)@.contains_key(other)
                    && final(self)@[other] == old(self)@[other],
            final(self).unknown_keys() == old(self).unknown_keys(),
            final(self).unknown_values() == old(self).unknown_values(),
            old(self)@.contains_key(k@) ==> {
                &&& old_value == Some(old(self)@[k@])
                &&& final(self).keys() == old(self).keys()
            },
            !old(self)@.contains_key(k@) ==> {
                &&& old_value.is_none()
                &&& final(self).keys() == old(self).keys().push(k@)
            },
    {
        self.map.insert(k, r)
    }

    /// Inserts a key and an already boxed value into the map.
    ///
    /// If the map did not have this key present, `None` is returned.
    ///
    /// If the map did have this key present, the value is updated, and the old
    /// value is returned. The key keeps its place in the order.
    pub fn insert_raw(&mut self, k: String, v: BoxDt) -> (old_value: Option<BoxDt>)
        requires
            old(self).wf(),
        ensures
            final(self).reserved() == old(self).reserved(),
            final(self).wf(),
            final(self)@ == old(self)@.insert(k@, v),
            final(self)@.contains_key(k@),
            final(self)@[k@] == v,
            forall|other: Seq<char>|
                #![trigger final(self)@[other]]
                #![trigger old(self)@[other]]
                other != k@ && old(self)@.contains_key(other) ==> final(self)@.contains_key(other)
                    && final(self)@[other] == old(self)@[other],
            final(self).unknown_keys() == old(self).unknown_keys(),
            final(self).unknown_values() == old(self).unknown_values(),
            old(self)@.contains_key(k@) ==> {
                &&& old_value == Some(old(self)@[k@])
                &&& final(self).keys() == old(self).keys()
                &&& final(self).values() == old(self).values().update(
                    old(self).keys().index_of(k@),
                    v,
                )
            },
            !old(self)@.contains_key(k@) ==> {
                &&& old_value.is_none()
                &&& final(self).keys() == old(self).keys().push(k@)
                &&& final(self).values() == old(self).values().push(v)
            },
    {
        self.map.insert_raw(k, v)
    }
}

impl<UnknownEntriesT> Default for TypeMap<UnknownEntriesT> where UnknownEntriesT: UnknownEntries {
    fn default() -> (m: Self)
        ensures
            m.reserved() == 0,
            m.wf(),
            m.keys().len() == 0,
            m.unknown_keys().len() == 0,
    {
        TypeMap { map: crate::untagged::TypeMap::new_typed() }
    }
}

impl<UnknownEntriesT> std::ops::Deref for TypeMap<UnknownEntriesT> where
    UnknownEntriesT: UnknownEntries,
 {
    type Target = OrderedMap<BoxDt>;

    fn deref(&self) -> (inner: &Self::Target)
        ensures
            inner.reserved() == self.reserved(),
            inner.wf() == self.wf_inner(),
            inner.keys() == self.keys(),
            inner.values() == self.values(),
    {
        std::ops::Deref::deref(&self.map)
    }
}

} // verus!
