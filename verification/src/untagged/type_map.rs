use vstd::prelude::*;

use crate::common::{UnknownEntries, UnknownEntriesNone, UnknownEntriesSome};
use crate::ordered_map::{lemma_take_excludes_next, pairs_to_map, reserved_for, OrderedMap};
use crate::text::{
    debug_map_body, debug_map_text, debug_string, lemma_debug_map_body_step, push_debug_entry,
    typed_value_string, typed_value_text,
};
use crate::untagged::box_data_type_downcast::BoxDataTypeDowncast;
use crate::untagged::box_dt::{lemma_clone_holds, BoxDt};
use crate::untagged::box_dt_display::BoxDtDisplay;
use crate::untagged::data_type::{
    boxes_clone_of, clone_in_box, lemma_other_name_other_box, StoredType,
};
use crate::untagged::data_type_wrapper::DataTypeWrapper;
use crate::type_name_lit::TypeNameLit;
use crate::untagged::from_data_type::FromDataType;

verus! {

/// Map of types that can be serialized / deserialized.
///
/// Keys are text, and entries keep the order in which their keys were first
/// inserted.
pub struct TypeMap<BoxDT = BoxDt, UnknownEntriesT = UnknownEntriesNone> where
    UnknownEntriesT: UnknownEntries,
 {
    /// Underlying map.
    inner: OrderedMap<BoxDT>,
    /// Unknown entries encountered during deserialization.
    unknown_entries: OrderedMap<<UnknownEntriesT as UnknownEntries>::ValueT>,
}

impl TypeMap<BoxDt, UnknownEntriesNone> {
    /// Creates an empty `TypeMap`.
    pub fn new() -> (m: Self)
        ensures
            m.reserved() == 0,
            m.wf(),
            m.keys().len() == 0,
            m.unknown_keys().len() == 0,
    {
        TypeMap { inner: OrderedMap::new(), unknown_entries: OrderedMap::new() }
    }

    /// Creates an empty `TypeMap` with the specified capacity: room is made for
    /// `capacity` entries, or for `MAX_RESERVED` where more are asked for.
    pub fn with_capacity(capacity: usize) -> (m: Self)
        ensures
            m.reserved() == reserved_for(capacity),
            m.wf(),
            m.keys().len() == 0,
            m.unknown_keys().len() == 0,
    {
        TypeMap { inner: OrderedMap::with_capacity(capacity), unknown_entries: OrderedMap::new() }
    }
}

/// Each boxed value as it is shown when debugging.
pub open spec fn typed_value_texts<BoxDT: DataTypeWrapper>(values: Seq<BoxDT>) -> Seq<Seq<char>> {
    Seq::new(values.len(), |i: int| typed_value_text(values[i].type_name_spec()))
}

/// The typed entries as they are shown when debugging: as a map from each key
/// to the name of the type of its value, the value itself not shown.
pub fn entries_debug_string<BoxDT: DataTypeWrapper>(entries: &OrderedMap<BoxDT>) -> (s: String)
    requires
        entries.wf(),
    ensures
        s@ == debug_map_text(entries.keys(), typed_value_texts(entries.values())),
{
    proof {
        entries.lemma_wf();
    }
    let ghost keys = entries.keys();
    let ghost texts = typed_value_texts(entries.values());
    let n = entries.len();
    let mut out = String::new();
    out.push_str("{");
    let mut i: usize = 0;
    while i < n
        invariant
            entries.wf(),
            keys == entries.keys(),
            texts == typed_value_texts(entries.values()),
            keys.len() == texts.len(),
            n == keys.len(),
            i <= n,
            out@ == "{"@ + debug_map_body(keys.take(i as int), texts.take(i as int)),
        decreases n - i,
    {
        let name = entries.value_at(i).type_name_lit();
        let value = typed_value_string(name.0);
        push_debug_entry(&mut out, i > 0, entries.key_at(i).as_str(), value.as_str());
        proof {
            lemma_debug_map_body_step(keys, texts, i as int);
            assert(out@ =~= "{"@ + debug_map_body(
                keys.take(i as int + 1),
                texts.take(i as int + 1),
            ));
        }
        i += 1;
    }
    out.push_str("}");
    proof {
        assert(keys.take(n as int) =~= keys);
        assert(texts.take(n as int) =~= texts);
    }
    out
}

/// Whether each of `copies` is what cloning makes of the box at its position
/// in `sources`.
pub open spec fn boxes_clone_to<BoxDT: DataTypeWrapper>(
    sources: Seq<BoxDT>,
    copies: Seq<BoxDT>,
) -> bool {
    &&& copies.len() == sources.len()
    &&& forall|i: int| 0 <= i < sources.len() ==> (#[trigger] sources[i]).clones_to(copies[i])
}

/// A map with the same keys in the same order, each with the clone of its
/// boxed value.
pub fn clone_boxes<BoxDT: DataTypeWrapper>(entries: &OrderedMap<BoxDT>) -> (copy: OrderedMap<BoxDT>)
    requires
        entries.wf(),
    ensures
        copy.wf(),
        copy.keys() == entries.keys(),
        boxes_clone_to(entries.values(), copy.values()),
{
    proof {
        entries.lemma_wf();
    }
    let n = entries.len();
    let mut copy: OrderedMap<BoxDT> = OrderedMap::with_capacity(n);
    let mut i: usize = 0;
    while i < n
        invariant
            entries.wf(),
            entries.keys().no_duplicates(),
            n == entries.keys().len(),
            n == entries.values().len(),
            i <= n,
            copy.wf(),
            copy.keys() == entries.keys().take(i as int),
            boxes_clone_to(entries.values().take(i as int), copy.values()),
        decreases n - i,
    {
        let key = entries.key_at(i).clone();
        let value = entries.value_at(i).clone();
        proof {
            copy.lemma_wf();
            lemma_take_excludes_next(entries.keys(), i as int);
        }
        let ghost before = copy.values();
        copy.insert(key, value);
        proof {
            assert(entries.keys().take(i as int + 1) =~= entries.keys().take(i as int).push(key@));
            assert(copy.values() == before.push(value));
            assert forall|j: int| 0 <= j < i + 1 implies (#[trigger] entries.values().take(
                i as int + 1,
            )[j]).clones_to(copy.values()[j]) by {
                if j < i {
                    assert(entries.values().take(i as int)[j].clones_to(before[j]));
                }
            }
        }
        i += 1;
    }
    proof {
        assert(entries.keys().take(n as int) =~= entries.keys());
        assert(entries.values().take(n as int) =~= entries.values());
    }
    copy
}

impl<BoxDT> TypeMap<BoxDT, UnknownEntriesNone> {
    /// A map with a copy of each entry, in the same order. Each boxed value
    /// is the clone of the one at its position.
    pub fn clone(&self) -> (copy: Self) where BoxDT: DataTypeWrapper
        requires
            self.wf(),
        ensures
            copy.wf(),
            copy.keys() == self.keys(),
            boxes_clone_to(self.values(), copy.values()),
            copy.unknown_keys() == self.unknown_keys(),
            copy.unknown_values() == self.unknown_values(),
    {
        let inner = clone_boxes(&self.inner);
        let unknown_entries = self.unknown_entries.clone();
        proof {
            assert(unknown_entries.values() =~= self.unknown_entries.values());
        }
        TypeMap { inner, unknown_entries }
    }

    /// The map as it is shown when debugging: each key with the name of the
    /// type of its value; the value itself is not shown.
    pub fn to_debug_string(&self) -> (s: String) where BoxDT: DataTypeWrapper
        requires
            self.wf(),
        ensures
            s@ == debug_map_text(self.keys(), typed_value_texts(self.values())),
    {
        entries_debug_string(&self.inner)
    }

    /// Returns the underlying map.
    pub fn into_inner(self) -> (inner: OrderedMap<BoxDT>)
        ensures
            inner.reserved() == self.reserved(),
            self.wf() ==> inner.wf(),
            inner.keys() == self.keys(),
            inner.values() == self.values(),
    {
        self.inner
    }
}

/// A map with its unknown entries as it is shown when debugging: the typed
/// entries and the unknown entries, each as a map, as the fields of a struct
/// named `name`.
pub open spec fn with_unknowns_text(
    name: Seq<char>,
    inner: Seq<char>,
    unknown_keys: Seq<Seq<char>>,
    unknown_texts: Seq<Seq<char>>,
) -> Seq<char> {
    name + " { inner: "@ + inner + ", unknown_entries: "@ + debug_map_text(
        unknown_keys,
        unknown_texts,
    ) + " }"@
}

impl<BoxDT, ValueT> TypeMap<BoxDT, UnknownEntriesSome<ValueT>> {
    /// A map with a copy of each entry, typed and unknown, in the same order.
    /// Each value, boxed or unknown, is the clone of the one at its position.
    pub fn clone(&self) -> (copy: Self) where BoxDT: DataTypeWrapper, ValueT: Clone
        requires
            self.wf(),
        ensures
            copy.wf(),
            copy.keys() == self.keys(),
            boxes_clone_to(self.values(), copy.values()),
            copy.unknown_keys() == self.unknown_keys(),
            copy.unknown_values().len() == self.unknown_values().len(),
            forall|i: int|
                0 <= i < self.unknown_values().len() ==> cloned(
                    #[trigger] self.unknown_values()[i],
                    copy.unknown_values()[i],
                ),
    {
        TypeMap { inner: clone_boxes(&self.inner), unknown_entries: self.unknown_entries.clone() }
    }

    /// The map as it is shown when debugging: the typed entries, each key
    /// with the name of the type of its value, and the unknown entries, each
    /// key with what its value makes of itself.
    pub fn to_debug_string(&self) -> (s: String) where
        BoxDT: DataTypeWrapper,
        ValueT: std::fmt::Debug,

        requires
            self.wf(),
        ensures
            exists|unknown_texts: Seq<Seq<char>>|
                unknown_texts.len() == self.unknown_keys().len() && s@ == with_unknowns_text(
                    "TypeMap"@,
                    debug_map_text(self.keys(), typed_value_texts(self.values())),
                    self.unknown_keys(),
                    unknown_texts,
                ),
    {
        proof {
            self.lemma_wf();
        }
        let inner = entries_debug_string(&self.inner);
        let ghost keys = self.unknown_keys();
        let ghost mut texts: Seq<Seq<char>> = Seq::empty();
        let n = self.unknown_entries.len();
        let mut out = String::new();
        out.push_str("TypeMap");
        out.push_str(" { inner: ");
        out.push_str(inner.as_str());
        out.push_str(", unknown_entries: ");
        out.push_str("{");
        let ghost head = out@;
        let mut i: usize = 0;
        while i < n
            invariant
                self.wf(),
                keys == self.unknown_keys(),
                n == keys.len(),
                i <= n,
                texts.len() == i,
                out@ == head + debug_map_body(keys.take(i as int), texts),
            decreases n - i,
        {
            let value = debug_string(self.unknown_entries.value_at(i));
            push_debug_entry(
                &mut out,
                i > 0,
                self.unknown_entries.key_at(i).as_str(),
                value.as_str(),
            );
            proof {
                let next = texts.push(value@);
                assert(keys.take(i as int + 1).drop_last() =~= keys.take(i as int));
                assert(next.drop_last() =~= texts);
                texts = next;
            }
            i += 1;
        }
        out.push_str("}");
        out.push_str(" }");
        proof {
            assert(keys.take(n as int) =~= keys);
            assert(out@ =~= with_unknowns_text(
                "TypeMap"@,
                inner@,
                self.unknown_keys(),
                texts,
            ));
        }
        out
    }

    /// Returns the underlying map and unknown entries.
    pub fn into_inner(self) -> (parts: (OrderedMap<BoxDT>, OrderedMap<ValueT>))
        ensures
            parts.0.reserved() == self.reserved(),
            self.wf() ==> parts.0.wf() && parts.1.wf(),
            parts.0.keys() == self.keys(),
            parts.0.values() == self.values(),
            parts.1.keys() == self.unknown_keys(),
            parts.1.values() == self.unknown_values(),
    {
        (self.inner, self.unknown_entries)
    }

    /// Returns the entries that were unable to be deserialized.
    ///
    /// These are the entries from the source data for which no type was
    /// registered against the `TypeReg` used to deserialize that source data.
    pub fn unknown_entries(&self) -> (unknown: &OrderedMap<ValueT>)
        ensures
            unknown.wf() == self.unknown_wf(),
            unknown.keys() == self.unknown_keys(),
            unknown.values() == self.unknown_values(),
    {
        &self.unknown_entries
    }

    /// Returns a reference to the unknown entry corresponding to the key.
    pub fn get_unknown_entry(&self, q: &str) -> (r: Option<&ValueT>)
        requires
            self.wf(),
        ensures
            self.unknown_view().contains_key(q@) ==> r == Some(&self.unknown_view()[q@]),
            !self.unknown_view().contains_key(q@) ==> r.is_none(),
    {
        self.unknown_entries.get(q)
    }

    /// Inserts an unknown entry into the map.
    ///
    /// If the map did not have this key present, `None` is returned.
    ///
    /// If the map did have this key present, the value is updated, and the old
    /// value is returned.
    pub fn insert_unknown_entry(&mut self, k: String, v: ValueT) -> (r: Option<ValueT>)
        requires
            old(self).wf(),
        ensures
            final(self).reserved() == old(self).reserved(),
            final(self).wf(),
            final(self).keys() == old(self).keys(),
            final(self).values() == old(self).values(),
            final(self).unknown_view() == old(self).unknown_view().insert(k@, v),
            old(self).unknown_view().contains_key(k@) ==> {
                &&& r == Some(old(self).unknown_view()[k@])
                &&& final(self).unknown_keys() == old(self).unknown_keys()
            },
            !old(self).unknown_view().contains_key(k@) ==> {
                &&& r.is_none()
                &&& final(self).unknown_keys() == old(self).unknown_keys().push(k@)
            },
    {
        self.unknown_entries.insert(k, v)
    }
}

impl<BoxDT, UnknownEntriesT> TypeMap<BoxDT, UnknownEntriesT> where
    UnknownEntriesT: UnknownEntries,
 {
    /// The number of typed entries that room was made for when the map was
    /// made.
    pub closed spec fn reserved(&self) -> nat {
        self.inner.reserved()
    }

    /// The keys of the typed entries, in insertion order.
    pub closed spec fn keys(&self) -> Seq<Seq<char>> {
        self.inner.keys()
    }

    /// The boxed values of the typed entries, each at the position of its key.
    pub closed spec fn values(&self) -> Seq<BoxDT> {
        self.inner.values()
    }

    /// The keys of the unknown entries, in insertion order.
    pub closed spec fn unknown_keys(&self) -> Seq<Seq<char>> {
        self.unknown_entries.keys()
    }

    /// The values of the unknown entries, each at the position of its key.
    pub closed spec fn unknown_values(&self) -> Seq<<UnknownEntriesT as UnknownEntries>::ValueT> {
        self.unknown_entries.values()
    }

    /// The typed entries hold each key once, with one value.
    pub closed spec fn wf_inner(&self) -> bool {
        self.inner.wf()
    }

    /// The unknown entries hold each key once, with one value.
    pub closed spec fn unknown_wf(&self) -> bool {
        self.unknown_entries.wf()
    }

    /// Both tables hold each of their keys once, with one value.
    pub open spec fn wf(&self) -> bool {
        self.wf_inner() && self.unknown_wf()
    }

    /// The typed entries as a mathematical map from key to boxed value.
    pub open spec fn view(&self) -> Map<Seq<char>, BoxDT> {
        pairs_to_map(self.keys(), self.values())
    }

    /// The unknown entries as a mathematical map from key to value.
    pub open spec fn unknown_view(&self) -> Map<
        Seq<char>,
        <UnknownEntriesT as UnknownEntries>::ValueT,
    > {
        pairs_to_map(self.unknown_keys(), self.unknown_values())
    }

    /// A well-formed map has as many values as keys, and no key twice, in
    /// either table.
    pub proof fn lemma_wf(&self)
        requires
            self.wf(),
        ensures
            self.unknown_wf(),
            self.keys().len() == self.values().len(),
            self.keys().no_duplicates(),
            self.unknown_keys().len() == self.unknown_values().len(),
            self.unknown_keys().no_duplicates(),
    {
        self.inner.lemma_wf();
        self.unknown_entries.lemma_wf();
    }

    /// Creates an empty `TypeMap`.
    pub fn new_typed() -> (m: Self)
        ensures
            m.reserved() == 0,
            m.wf(),
            m.keys().len() == 0,
            m.unknown_keys().len() == 0,
    {
        TypeMap { inner: OrderedMap::new(), unknown_entries: OrderedMap::new() }
    }

    /// Creates an empty `TypeMap` with the specified capacity: room is made for
    /// `capacity` entries, or for `MAX_RESERVED` where more are asked for.
    pub fn with_capacity_typed(capacity: usize) -> (m: Self)
        ensures
            m.reserved() == reserved_for(capacity),
            m.wf(),
            m.keys().len() == 0,
            m.unknown_keys().len() == 0,
    {
        TypeMap { inner: OrderedMap::with_capacity(capacity), unknown_entries: OrderedMap::new() }
    }

    /// The underlying map of typed entries, to be changed in place.
    pub fn deref_mut(&mut self) -> (inner: &mut OrderedMap<BoxDT>)
        ensures
            inner.reserved() == old(self).reserved(),
            final(self).reserved() == final(inner).reserved(),
            inner.wf() == old(self).wf_inner(),
            inner.keys() == old(self).keys(),
            inner.values() == old(self).values(),
            final(self).wf_inner() == final(inner).wf(),
            final(self).keys() == final(inner).keys(),
            final(self).values() == final(inner).values(),
            final(self).unknown_wf() == old(self).unknown_wf(),
            final(self).unknown_keys() == old(self).unknown_keys(),
            final(self).unknown_values() == old(self).unknown_values(),
    {
        &mut self.inner
    }

    /// The number of typed entries.
    pub fn len(&self) -> (n: usize)
        requires
            self.wf(),
        ensures
            n == self.keys().len(),
    {
        self.inner.len()
    }

    /// How many typed entries the map can hold without reallocating its keys:
    /// at least as many as it holds, and as room was made for when the map
    /// was made; none, where no room was made and the map holds nothing.
    pub fn capacity(&self) -> (n: usize)
        ensures
            n >= self.keys().len(),
            n >= self.reserved(),
            self.reserved() == 0 && self.keys().len() == 0 ==> n == 0,
    {
        self.inner.capacity()
    }

    /// Returns a reference to the value corresponding to the key.
    ///
    /// If there is an entry, but the data type does not match, `None` is
    /// returned.
    pub fn get<R>(&self, q: &str) -> (r: Option<&R>) where BoxDT: BoxDataTypeDowncast<R>
        requires
            self.wf(),
        ensures
            r.is_some() <==> self@.contains_key(q@) && exists|w: R| self@[q@].holds(w),
            self@.contains_key(q@) && (forall|w: R| !self@[q@].holds(w)) ==> r.is_none(),
            match r {
                Some(v) => {
                    &&& self@.contains_key(q@)
                    &&& self@[q@].holds(*v)
                    &&& forall|w: R| self@[q@].holds(w) ==> w == *v
                },
                None => true,
            },
    {
        match self.inner.get(q) {
            Some(boxed) => {
                let r = boxed.downcast_ref();
                proof {
                    if let Some(v) = r {
                        assert(self@[q@].holds(*v));
                    }
                }
                r
            },
            None => None,
        }
    }

    /// Returns a mutable reference to the value corresponding to the key.
    ///
    /// If there is an entry, but the data type does not match, `None` is
    /// returned, and the map stays as it is.
    pub fn get_mut<R>(&mut self, q: &str) -> (r: Option<&mut R>) where
        BoxDT: BoxDataTypeDowncast<R>,

        requires
            old(self).wf(),
        ensures
            final(self).reserved() == old(self).reserved(),
            final(self).wf(),
            final(self).keys() == old(self).keys(),
            final(self).unknown_keys() == old(self).unknown_keys(),
            final(self).unknown_values() == old(self).unknown_values(),
            r.is_some() <==> old(self)@.contains_key(q@) && exists|w: R| old(self)@[q@].holds(w),
            r matches Some(v) ==> {
                &&& old(self)@[q@].holds(*v)
                &&& forall|w: R| old(self)@[q@].holds(w) ==> w == *v
                &&& final(self)@[q@].holds(*final(v))
                &&& final(self)@[q@].type_name_spec() == old(self)@[q@].type_name_spec()
                &&& final(self)@[q@].named() == old(self)@[q@].named()
                &&& final(self)@ == old(self)@.insert(q@, final(self)@[q@])
            },
            r is None ==> final(self).values() == old(self).values(),
    {
        proof {
            self.lemma_wf();
            if self@.contains_key(q@) {
                let i = self.keys().index_of(q@);
                assert(self.values().update(i, self.values()[i]) =~= self.values());
            }
        }
        match self.inner.get_mut(q) {
            Some(boxed) => boxed.downcast_mut(),
            None => None,
        }
    }

    /// Returns a reference to the boxed value corresponding to the key.
    pub fn get_raw(&self, q: &str) -> (r: Option<&BoxDT>)
        requires
            self.wf(),
        ensures
            self@.contains_key(q@) ==> r == Some(&self@[q@]),
            !self@.contains_key(q@) ==> r.is_none(),
    {
        self.inner.get(q)
    }

    /// Returns a mutable reference to the boxed value corresponding to the key.
    pub fn get_raw_mut(&mut self, q: &str) -> (r: Option<&mut BoxDT>)
        requires
            old(self).wf(),
        ensures
            final(self).reserved() == old(self).reserved(),
            final(self).wf(),
            final(self).keys() == old(self).keys(),
            final(self).unknown_keys() == old(self).unknown_keys(),
            final(self).unknown_values() == old(self).unknown_values(),
            match r {
                Some(v) => {
                    &&& old(self)@.contains_key(q@)
                    &&& *v == old(self)@[q@]
                    &&& final(self)@ == old(self)@.insert(q@, *final(v))
                },
                None => !old(self)@.contains_key(q@) && final(self).values() == old(
                    self,
                ).values(),
            },
    {
        self.inner.get_mut(q)
    }

    /// Inserts a key-value pair into the map.
    ///
    /// If the map did not have this key present, `None` is returned.
    ///
    /// If the map did have this key present, the value is updated, and the old
    /// value is returned. The key keeps its place in the order.
    pub fn insert<R>(&mut self, k: String, r: R) -> (old_value: Option<BoxDT>) where
        BoxDT: FromDataType<R>,

        requires
            old(self).wf(),
        ensures
            final(self).reserved() == old(self).reserved(),
            final(self).wf(),
            final(self)@.contains_key(k@),
            final(self)@[k@].holds(r),
            final(self)@[k@].named(),
            final(self)@ == old(self)@.insert(k@, final(self)@[k@]),
            forall|other: Seq<char>|
                #![trigger final(self)@[other]]
                #![trigger old(self)@[other]]
                other != k@ && old(self)@.contains_key(other) ==> final(self)@.contains_key(other)
                    && final(self)@[other] == old(self)@[other],
            final(self).unknown_keys() == old(self).unknown_keys(),
            final(self).unknown_values() == old(self).unknown_values(),
            old(self)@.contains_key(k@) ==> {
                &&& old_value == Some(old(self)@[k@])
                &&& final(self).keys() == old(self).keys()
            },
            !old(self)@.contains_key(k@) ==> {
                &&& old_value.is_none()
                &&& final(self).keys() == old(self).keys().push(k@)
            },
    {
        self.inner.insert(k, <BoxDT as FromDataType<R>>::from(r))
    }

    /// Inserts a key and an already boxed value into the map.
    ///
    /// If the map did not have this key present, `None` is returned.
    ///
    /// If the map did have this key present, the value is updated, and the old
    /// value is returned. The key keeps its place in the order.
    pub fn insert_raw(&mut self, k: String, v: BoxDT) -> (old_value: Option<BoxDT>)
        requires
            old(self).wf(),
        ensures
            final(self).reserved() == old(self).reserved(),
            final(self).wf(),
            final(self)@ == old(self)@.insert(k@, v),
            final(self)@.contains_key(k@),
            final(self)@[k@] == v,
            forall|other: Seq<char>|
                #![trigger final(self)@[other]]
                #![trigger old(self)@[other]]
                other != k@ && old(self)@.contains_key(other) ==> final(self)@.contains_key(other)
                    && final(self)@[other] == old(self)@[other],
            final(self).unknown_keys() == old(self).unknown_keys(),
            final(self).unknown_values() == old(self).unknown_values(),
            old(self)@.contains_key(k@) ==> {
                &&& old_value == Some(old(self)@[k@])
                &&& final(self).keys() == old(self).keys()
                &&& final(self).values() == old(self).values().update(
                    old(self).keys().index_of(k@),
                    v,
                )
            },
            !old(self)@.contains_key(k@) ==> {
                &&& old_value.is_none()
                &&& final(self).keys() == old(self).keys().push(k@)
                &&& final(self).values() == old(self).values().push(v)
            },
    {
        self.inner.insert(k, v)
    }
}

/// A value that was inserted under a key is the value that the key gives
/// back at the type of the value: where `got` is what `get` answers for `key`
/// at type `R`, and the box under `key` holds `value`, `got` is `value`.
pub proof fn lemma_get_after_insert<R: StoredType, UnknownEntriesT: UnknownEntries>(
    type_map: TypeMap<BoxDt, UnknownEntriesT>,
    key: Seq<char>,
    value: R,
    got: Option<&R>,
)
    requires
        type_map@.contains_key(key),
        type_map@[key].holds(value),
        got.is_some() <==> type_map@.contains_key(key) && exists|w: R| type_map@[key].holds(w),
        got matches Some(v) ==> type_map@[key].holds(*v) && forall|w: R|
            type_map@[key].holds(w) ==> w == *v,
    ensures
        got == Some(&value),
{
}

/// A displayable value that was inserted under a key is the value that the
/// key gives back at the type of the value.
pub proof fn lemma_get_after_insert_display<
    R: StoredType + std::fmt::Display,
    UnknownEntriesT: UnknownEntries,
>(type_map: TypeMap<BoxDtDisplay, UnknownEntriesT>, key: Seq<char>, value: R, got: Option<&R>)
    requires
        type_map@.contains_key(key),
        type_map@[key].holds(value),
        got.is_some() <==> type_map@.contains_key(key) && exists|w: R| type_map@[key].holds(w),
        got matches Some(v) ==> type_map@[key].holds(*v) && forall|w: R|
            type_map@[key].holds(w) ==> w == *v,
    ensures
        got == Some(&value),
{
}

/// Inserting a value and inserting the box that `new` makes of it leave the
/// same entry: `by_value` being the box that `insert` stored for `value`, and
/// `by_box` a box that `BoxDt::new` made of `value`, the two are one box.
pub proof fn lemma_insert_as_insert_raw<R: StoredType>(by_value: BoxDt, by_box: BoxDt, value: R)
    requires
        by_value.holds(value),
        BoxDataTypeDowncast::<R>::named(&by_value),
        by_box.0 == crate::untagged::data_type::erase(value),
        by_box.1 == TypeNameLit(R::TYPE_NAME),
    ensures
        by_value == by_box,
        typed_value_text(by_value.type_name_spec()) == typed_value_text(by_box.type_name_spec()),
{
    assert(by_value.0 == by_box.0);
    assert(by_value.1 == by_box.1);
}

/// A key whose value is not of type `R` gives no `R`: where `got` is what
/// `get` answers for `key` at type `R`, and the box under `key`, if there is
/// one, holds no value of type `R`, `got` is `None`.
pub proof fn lemma_get_of_another_type<BoxDT: BoxDataTypeDowncast<R>, R, UnknownEntriesT: UnknownEntries>(
    type_map: TypeMap<BoxDT, UnknownEntriesT>,
    key: Seq<char>,
    got: Option<&R>,
)
    requires
        type_map@.contains_key(key) ==> forall|w: R| !type_map@[key].holds(w),
        got.is_some() <==> type_map@.contains_key(key) && exists|w: R| type_map@[key].holds(w),
    ensures
        got.is_none(),
{
}

/// A key whose value is of a type with another name gives no `R`: where the
/// box under `key` holds `value`, of a type whose name is not that of `R`,
/// and `got` is what `get` answers for `key` at type `R`, `got` is `None`.
pub proof fn lemma_get_at_another_type<
    S: StoredType,
    R: StoredType,
    UnknownEntriesT: UnknownEntries,
>(
    type_map: TypeMap<BoxDt, UnknownEntriesT>,
    key: Seq<char>,
    value: S,
    got: Option<&R>,
)
    requires
        type_map@.contains_key(key),
        type_map@[key].holds(value),
        S::type_name_text() != R::type_name_text(),
        got.is_some() <==> type_map@.contains_key(key) && exists|w: R| type_map@[key].holds(w),
    ensures
        got.is_none(),
{
    assert forall|w: R| !type_map@[key].holds(w) by {
        lemma_other_name_other_box(value, w);
    }
}

/// What a copy holds under a key: `copy` being what `clone` made of `source`,
/// whose box under `key` holds `t`, the box of `copy` under `key` holds what
/// `Clone` makes of `t`, under the same name.
pub proof fn lemma_clone_holds_at<R: StoredType, UnknownEntriesT: UnknownEntries>(
    source: TypeMap<BoxDt, UnknownEntriesT>,
    copy: TypeMap<BoxDt, UnknownEntriesT>,
    key: Seq<char>,
    t: R,
)
    requires
        source.wf(),
        copy.keys() == source.keys(),
        boxes_clone_to(source.values(), copy.values()),
        source@.contains_key(key),
        source@[key].holds(t),
    ensures
        copy@.contains_key(key),
        copy@[key].1 == source@[key].1,
        boxes_clone_of(&copy@[key].0, t),
        (forall|c: R| cloned(t, c) ==> c == t) ==> copy@[key].holds(t),
{
    source.lemma_wf();
    let i = source.keys().index_of(key);
    assert(source.values()[i].clones_to(copy.values()[i]));
    assert(copy@[key] == copy.values()[i]);
    lemma_clone_holds(source@[key], copy@[key], t);
    if forall|c: R| cloned(t, c) ==> c == t {
        assert(clone_in_box(&copy@[key].0, t) == t);
        assert(copy@[key].holds(t));
    }
}

/// A copy does not alias what it was copied from. `copy` is what `clone` made
/// of `source`, whose box under `key` holds `t`; `changed` is `copy` after a
/// write under `key`, which now holds `v`; and `got_source` and `got_changed`
/// are what `get` answers for `key` at type `R` on `source` and on `changed`.
/// Where `Clone` gives back `t` for `t`, and the write changed the value, the
/// copy held `t` before the write, `source` still gives `t`, `changed` gives
/// `v`, and every other key of `changed` holds the clone of what `source`
/// holds under it.
pub proof fn lemma_clone_independent<R: StoredType, UnknownEntriesT: UnknownEntries>(
    source: TypeMap<BoxDt, UnknownEntriesT>,
    copy: TypeMap<BoxDt, UnknownEntriesT>,
    changed: TypeMap<BoxDt, UnknownEntriesT>,
    key: Seq<char>,
    t: R,
    v: R,
    got_source: Option<&R>,
    got_changed: Option<&R>,
)
    requires
        source.wf(),
        copy.keys() == source.keys(),
        boxes_clone_to(source.values(), copy.values()),
        source@.contains_key(key),
        source@[key].holds(t),
        forall|c: R| cloned(t, c) ==> c == t,
        changed@ == copy@.insert(key, changed@[key]),
        changed@[key].holds(v),
        v != t,
        got_source.is_some() <==> source@.contains_key(key) && exists|w: R| source@[key].holds(w),
        got_source matches Some(w) ==> forall|u: R| source@[key].holds(u) ==> u == *w,
        got_changed.is_some() <==> changed@.contains_key(key) && exists|w: R|
            changed@[key].holds(w),
        got_changed matches Some(w) ==> forall|u: R| changed@[key].holds(u) ==> u == *w,
    ensures
        copy@[key].holds(t),
        got_source == Some(&t),
        got_changed == Some(&v),
        got_source != got_changed,
        forall|k: Seq<char>|
            k != key && source@.contains_key(k) ==> source@[k].clones_to(#[trigger] changed@[k]),
{
    source.lemma_wf();
    let i = source.keys().index_of(key);
    assert(source.values()[i].clones_to(copy.values()[i]));
    assert(copy@[key] == copy.values()[i]);
    lemma_clone_holds(source@[key], copy@[key], t);
    assert(clone_in_box(&copy@[key].0, t) == t);
    assert(copy@[key].holds(t));
    assert forall|k: Seq<char>| k != key && source@.contains_key(k) implies source@[k].clones_to(
        #[trigger] changed@[k],
    ) by {
        let j = source.keys().index_of(k);
        assert(source.values()[j].clones_to(copy.values()[j]));
        assert(copy@[k] == copy.values()[j]);
    }
}

impl<BoxDT, UnknownEntriesT> Default for TypeMap<BoxDT, UnknownEntriesT> where
    UnknownEntriesT: UnknownEntries,
 {
    fn default() -> (m: Self)
        ensures
            m.reserved() == 0,
            m.wf(),
            m.keys().len() == 0,
            m.unknown_keys().len() == 0,
    {
        TypeMap { inner: OrderedMap::new(), unknown_entries: OrderedMap::new() }
    }
}

impl<BoxDT, UnknownEntriesT> std::ops::Deref for TypeMap<BoxDT, UnknownEntriesT> where
    UnknownEntriesT: UnknownEntries,
 {
    type Target = OrderedMap<BoxDT>;

    fn deref(&self) -> (inner: &Self::Target)
        ensures
            inner.reserved() == self.reserved(),
            inner.wf() == self.wf_inner(),
            inner.keys() == self.keys(),
            inner.values() == self.values(),
    {
        &self.inner
    }
}

} // verus!
