use vstd::prelude::*;

use crate::common::{UnknownEntries, UnknownEntriesNone, UnknownEntriesSome};
use crate::ordered_map::{lemma_take_excludes_next, pairs_to_map, reserved_for, OrderedMap};
use crate::text::{
    debug_map_body, debug_map_text, debug_string, lemma_debug_map_body_step, push_debug_entry,
    typed_value_opt_text, typed_value_string,
};
use crate::untagged::box_data_type_downcast::BoxDataTypeDowncast;
use crate::untagged::box_dt::BoxDt;
use crate::untagged::data_type_wrapper::DataTypeWrapper;
use crate::untagged::from_data_type::FromDataType;
use crate::untagged::type_map::with_unknowns_text;

verus! {

/// Map of types that can be serialized / deserialized, where a key may hold
/// no value.
///
/// Keys are text, and entries keep the order in which their keys were first
/// inserted.
pub struct TypeMapOpt<BoxDT = BoxDt, UnknownEntriesT = UnknownEntriesNone> where
    UnknownEntriesT: UnknownEntries,
 {
    /// Underlying map.
    inner: OrderedMap<Option<BoxDT>>,
    /// Unknown entries encountered during deserialization.
    unknown_entries: OrderedMap<Option<<UnknownEntriesT as UnknownEntries>::ValueT>>,
}

/// The name of the type of each boxed value, where there is one.
pub open spec fn type_names_opt<BoxDT: DataTypeWrapper>(values: Seq<Option<BoxDT>>) -> Seq<
    Option<Seq<char>>,
> {
    Seq::new(
        values.len(),
        |i: int|
            match values[i] {
                Some(boxed) => Some(boxed.type_name_spec()),
                None => None,
            },
    )
}

/// Each optional boxed value as it is shown when debugging.
pub open spec fn typed_value_opt_texts<BoxDT: DataTypeWrapper>(values: Seq<Option<BoxDT>>) -> Seq<
    Seq<char>,
> {
    Seq::new(values.len(), |i: int| typed_value_opt_text(type_names_opt(values)[i]))
}

/// The typed entries as they are shown when debugging: as a map from each key
/// to the name of the type of its value, where it has one; the value itself
/// is not shown.
pub fn entries_opt_debug_string<BoxDT: DataTypeWrapper>(entries: &OrderedMap<Option<BoxDT>>) -> (s:
    String)
    requires
        entries.wf(),
    ensures
        s@ == debug_map_text(entries.keys(), typed_value_opt_texts(entries.values())),
{
    proof {
        entries.lemma_wf();
    }
    let ghost keys = entries.keys();
    let ghost texts = typed_value_opt_texts(entries.values());
    let n = entries.len();
    let mut out = String::new();
    out.push_str("{");
    let mut i: usize = 0;
    while i < n
        invariant
            entries.wf(),
            keys == entries.keys(),
            texts == typed_value_opt_texts(entries.values()),
            keys.len() == texts.len(),
            n == keys.len(),
            i <= n,
            out@ == "{"@ + debug_map_body(keys.take(i as int), texts.take(i as int)),
        decreases n - i,
    {
        let mut value = String::new();
        match entries.value_at(i) {
            Some(boxed) => {
                let name = boxed.type_name_lit();
                let typed = typed_value_string(name.0);
                value.push_str("Some(");
                value.push_str(typed.as_str());
                value.push_str(")");
            },
            None => {
                value.push_str("None");
            },
        }
        proof {
            assert(value@ =~= texts[i as int]);
        }
        push_debug_entry(&mut out, i > 0, entries.key_at(i).as_str(), value.as_str());
        proof {
            lemma_debug_map_body_step(keys, texts, i as int);
            assert(out@ =~= "{"@ + debug_map_body(
                keys.take(i as int + 1),
                texts.take(i as int + 1),
            ));
        }
        i += 1;
    }
    out.push_str("}");
    proof {
        assert(keys.take(n as int) =~= keys);
        assert(texts.take(n as int) =~= texts);
    }
    out
}

/// Whether each of `copies` is what cloning makes of the optional box at its
/// position in `sources`: nothing of nothing, and of a box its clone.
pub open spec fn opt_boxes_clone_to<BoxDT: DataTypeWrapper>(
    sources: Seq<Option<BoxDT>>,
    copies: Seq<Option<BoxDT>>,
) -> bool {
    &&& copies.len() == sources.len()
    &&& forall|i: int|
        0 <= i < sources.len() ==> match (#[trigger] sources[i], copies[i]) {
            (Some(source), Some(copy)) => source.clones_to(copy),
            (None, None) => true,
            _ => false,
        }
}

/// A map with the same keys in the same order, each with the clone of its
/// boxed value, where it has one.
pub fn clone_opt_boxes<BoxDT: DataTypeWrapper>(entries: &OrderedMap<Option<BoxDT>>) -> (copy:
    OrderedMap<Option<BoxDT>>)
    requires
        entries.wf(),
    ensures
        copy.wf(),
        copy.keys() == entries.keys(),
        opt_boxes_clone_to(entries.values(), copy.values()),
{
    proof {
        entries.lemma_wf();
    }
    let n = entries.len();
    let mut copy: OrderedMap<Option<BoxDT>> = OrderedMap::with_capacity(n);
    let mut i: usize = 0;
    while i < n
        invariant
            entries.wf(),
            entries.keys().no_duplicates(),
            n == entries.keys().len(),
            n == entries.values().len(),
            i <= n,
            copy.wf(),
            copy.keys() == entries.keys().take(i as int),
            opt_boxes_clone_to(entries.values().take(i as int), copy.values()),
        decreases n - i,
    {
        let key = entries.key_at(i).clone();
        let value = match entries.value_at(i) {
            Some(boxed) => Some(boxed.clone()),
            None => None,
        };
        proof {
            copy.lemma_wf();
            lemma_take_excludes_next(entries.keys(), i as int);
        }
        let ghost before = copy.values();
        copy.insert(key, value);
        proof {
            assert(entries.keys().take(i as int + 1) =~= entries.keys().take(i as int).push(key@));
            assert(copy.values() == before.push(value));
            assert forall|j: int| 0 <= j < i + 1 implies match (
                #[trigger] entries.values().take(i as int + 1)[j],
                copy.values()[j],
            ) {
                (Some(source), Some(copy)) => source.clones_to(copy),
                (None, None) => true,
                _ => false,
            } by {
                if j < i {
                    assert(entries.values().take(i as int)[j] == entries.values()[j]);
                }
            }
        }
        i += 1;
    }
    proof {
        assert(entries.keys().take(n as int) =~= entries.keys());
        assert(entries.values().take(n as int) =~= entries.values());
    }
    copy
}

/// Whether `copy` is what cloning makes of the optional value `source`: no
/// value of none, and of a value its clone.
pub open spec fn cloned_opt<V: Clone>(source: Option<V>, copy: Option<V>) -> bool {
    match (source, copy) {
        (Some(a), Some(b)) => cloned(a, b),
        (None, None) => true,
        _ => false,
    }
}

/// A map with the same keys in the same order, each with the clone of its
/// value, where it has one.
pub fn clone_opt_values<V: Clone>(entries: &OrderedMap<Option<V>>) -> (copy: OrderedMap<Option<V>>)
    requires
        entries.wf(),
    ensures
        copy.wf(),
        copy.keys() == entries.keys(),
        copy.values().len() == entries.values().len(),
        forall|i: int|
            0 <= i < entries.values().len() ==> cloned_opt(
                #[trigger] entries.values()[i],
                copy.values()[i],
            ),
{
    proof {
        entries.lemma_wf();
    }
    let n = entries.len();
    let mut copy: OrderedMap<Option<V>> = OrderedMap::with_capacity(n);
    let mut i: usize = 0;
    while i < n
        invariant
            entries.wf(),
            entries.keys().no_duplicates(),
            n == entries.keys().len(),
            n == entries.values().len(),
            i <= n,
            copy.wf(),
            copy.keys() == entries.keys().take(i as int),
            copy.values().len() == i,
            forall|j: int|
                0 <= j < i ==> cloned_opt(#[trigger] entries.values()[j], copy.values()[j]),
        decreases n - i,
    {
        let key = entries.key_at(i).clone();
        let value = match entries.value_at(i) {
            Some(v) => Some(v.clone()),
            None => None,
        };
        proof {
            copy.lemma_wf();
            lemma_take_excludes_next(entries.keys(), i as int);
        }
        copy.insert(key, value);
        proof {
            assert(entries.keys().take(i as int + 1) =~= entries.keys().take(i as int).push(key@));
        }
        i += 1;
    }
    proof {
        assert(entries.keys().take(n as int) =~= entries.keys());
    }
    copy
}

impl TypeMapOpt<BoxDt, UnknownEntriesNone> {
    /// Creates an empty `TypeMapOpt`.
    pub fn new() -> (m: Self)
        ensures
            m.reserved() == 0,
            m.wf(),
            m.keys().len() == 0,
            m.unknown_keys().len() == 0,
    {
        TypeMapOpt { inner: OrderedMap::new(), unknown_entries: OrderedMap::new() }
    }

    /// Creates an empty `TypeMapOpt` with the specified capacity: room is made for
    /// `capacity` entries, or for `MAX_RESERVED` where more are asked for.
    pub fn with_capacity(capacity: usize) -> (m: Self)
        ensures
            m.reserved() == reserved_for(capacity),
            m.wf(),
            m.keys().len() == 0,
            m.unknown_keys().len() == 0,
    {
        TypeMapOpt {
            inner: OrderedMap::with_capacity(capacity),
            unknown_entries: OrderedMap::new(),
        }
    }
}

impl<BoxDT> TypeMapOpt<BoxDT, UnknownEntriesNone> {
    /// A map with a copy of each entry, in the same order. Each boxed value
    /// is the clone of the one at its position.
    pub fn clone(&self) -> (copy: Self) where BoxDT: DataTypeWrapper
        requires
            self.wf(),
        ensures
            copy.wf(),
            copy.keys() == self.keys(),
            opt_boxes_clone_to(self.values(), copy.values()),
            copy.unknown_keys() == self.unknown_keys(),
            copy.unknown_values() == self.unknown_values(),
    {
        let inner = clone_opt_boxes(&self.inner);
        let unknown_entries = clone_opt_values(&self.unknown_entries);
        proof {
            assert forall|i: int| 0 <= i < unknown_entries.values().len() implies
                unknown_entries.values()[i] == self.unknown_entries.values()[i] by {
                assert(cloned_opt(self.unknown_entries.values()[i], unknown_entries.values()[i]));
            }
            assert(unknown_entries.values() =~= self.unknown_entries.values());
        }
        TypeMapOpt { inner, unknown_entries }
    }

    /// The map as it is shown when debugging: each key with the name of the
    /// type of its value, where it has one; the value itself is not shown.
    pub fn to_debug_string(&self) -> (s: String) where BoxDT: DataTypeWrapper
        requires
            self.wf(),
        ensures
            s@ == debug_map_text(self.keys(), typed_value_opt_texts(self.values())),
    {
        entries_opt_debug_string(&self.inner)
    }

    /// Returns the underlying map.
    pub fn into_inner(self) -> (inner: OrderedMap<Option<BoxDT>>)
        ensures
            inner.reserved() == self.reserved(),
            self.wf() ==> inner.wf(),
            inner.keys() == self.keys(),
            inner.values() == self.values(),
    {
        self.inner
    }
}

impl<BoxDT, ValueT> TypeMapOpt<BoxDT, UnknownEntriesSome<ValueT>> {
    /// A map with a copy of each entry, typed and unknown, in the same order.
    /// Each value, boxed or unknown, is the clone of the one at its position.
    pub fn clone(&self) -> (copy: Self) where BoxDT: DataTypeWrapper, ValueT: Clone
        requires
            self.wf(),
        ensures
            copy.wf(),
            copy.keys() == self.keys(),
            opt_boxes_clone_to(self.values(), copy.values()),
            copy.unknown_keys() == self.unknown_keys(),
            copy.unknown_values().len() == self.unknown_values().len(),
            forall|i: int|
                0 <= i < self.unknown_values().len() ==> cloned_opt(
                    #[trigger] self.unknown_values()[i],
                    copy.unknown_values()[i],
                ),
    {
        TypeMapOpt {
            inner: clone_opt_boxes(&self.inner),
            unknown_entries: clone_opt_values(&self.unknown_entries),
        }
    }

    /// The map as it is shown when debugging: the typed entries, each key
    /// with the name of the type of its value, and the unknown entries, each
    /// key with what its value makes of itself.
    pub fn to_debug_string(&self) -> (s: String) where
        BoxDT: DataTypeWrapper,
        ValueT: std::fmt::Debug,

        requires
            self.wf(),
        ensures
            exists|unknown_texts: Seq<Seq<char>>|
                unknown_texts.len() == self.unknown_keys().len() && s@ == with_unknowns_text(
                    "TypeMapOpt"@,
                    debug_map_text(self.keys(), typed_value_opt_texts(self.values())),
                    self.unknown_keys(),
                    unknown_texts,
                ),
    {
        proof {
            self.lemma_wf();
        }
        let inner = entries_opt_debug_string(&self.inner);
        let ghost keys = self.unknown_keys();
        let ghost mut texts: Seq<Seq<char>> = Seq::empty();
        let n = self.unknown_entries.len();
        let mut out = String::new();
        out.push_str("TypeMapOpt");
        out.push_str(" { inner: ");
        out.push_str(inner.as_str());
        out.push_str(", unknown_entries: ");
        out.push_str("{");
        let ghost head = out@;
        let mut i: usize = 0;
        while i < n
            invariant
                self.wf(),
                keys == self.unknown_keys(),
                n == keys.len(),
                i <= n,
                texts.len() == i,
                out@ == head + debug_map_body(keys.take(i as int), texts),
            decreases n - i,
        {
            let value = debug_string(self.unknown_entries.value_at(i));
            push_debug_entry(
                &mut out,
                i > 0,
                self.unknown_entries.key_at(i).as_str(),
                value.as_str(),
            );
            proof {
                let next = texts.push(value@);
                assert(keys.take(i as int + 1).drop_last() =~= keys.take(i as int));
                assert(next.drop_last() =~= texts);
                texts = next;
            }
            i += 1;
        }
        out.push_str("}");
        out.push_str(" }");
        proof {
            assert(keys.take(n as int) =~= keys);
            assert(out@ =~= with_unknowns_text(
                "TypeMapOpt"@,
                inner@,
                self.unknown_keys(),
                texts,
            ));
        }
        out
    }

    /// Returns the underlying map and unknown entries.
    pub fn into_inner(self) -> (parts: (OrderedMap<Option<BoxDT>>, OrderedMap<Option<ValueT>>))
        ensures
            parts.0.reserved() == self.reserved(),
            self.wf() ==> parts.0.wf() && parts.1.wf(),
            parts.0.keys() == self.keys(),
            parts.0.values() == self.values(),
            parts.1.keys() == self.unknown_keys(),
            parts.1.values() == self.unknown_values(),
    {
        (self.inner, self.unknown_entries)
    }

    /// Returns the entries that were unable to be deserialized.
    ///
    /// These are the entries from the source data for which no type was
    /// registered against the `TypeReg` used to deserialize that source data.
    pub fn unknown_entries(&self) -> (unknown: &OrderedMap<Option<ValueT>>)
        ensures
            unknown.wf() == self.unknown_wf(),
            unknown.keys() == self.unknown_keys(),
            unknown.values() == self.unknown_values(),
    {
        &self.unknown_entries
    }

    /// Returns a reference to the unknown entry corresponding to the key:
    /// `None` where the key is not there, `Some(None)` where it is there and
    /// holds no value.
    pub fn get_unknown_entry(&self, q: &str) -> (r: Option<Option<&ValueT>>)
        requires
            self.wf(),
        ensures
            !self.unknown_view().contains_key(q@) ==> r.is_none(),
            self.unknown_view().contains_key(q@) ==> r == Some(
                match self.unknown_view()[q@] {
                    Some(v) => Some(&v),
                    None => None,
                },
            ),
    {
        match self.unknown_entries.get(q) {
            Some(slot) => Some(slot.as_ref()),
            None => None,
        }
    }

    /// Inserts an unknown entry into the map.
    ///
    /// If the map did not have this key present, `None` is returned.
    ///
    /// If the map did have this key present, the value is updated, and the old
    /// value is returned.
    pub fn insert_unknown_entry(&mut self, k: String, v: Option<ValueT>) -> (r: Option<
        Option<ValueT>,
    >)
        requires
            old(self).wf(),
        ensures
            final(self).reserved() == old(self).reserved(),
            final(self).wf(),
            final(self).keys() == old(self).keys(),
            final(self).values() == old(self).values(),
            final(self).unknown_view() == old(self).unknown_view().insert(k@, v),
            old(self).unknown_view().contains_key(k@) ==> {
                &&& r == Some(old(self).unknown_view()[k@])
                &&& final(self).unknown_keys() == old(self).unknown_keys()
            },
            !old(self).unknown_view().contains_key(k@) ==> {
                &&& r.is_none()
                &&& final(self).unknown_keys() == old(self).unknown_keys().push(k@)
            },
    {
        self.unknown_entries.insert(k, v)
    }
}

impl<BoxDT, UnknownEntriesT> TypeMapOpt<BoxDT, UnknownEntriesT> where
    UnknownEntriesT: UnknownEntries,
 {
    /// The number of typed entries that room was made for when the map was
    /// made.
    pub closed spec fn reserved(&self) -> nat {
        self.inner.reserved()
    }

    /// The keys of the typed entries, in insertion order.
    pub closed spec fn keys(&self) -> Seq<Seq<char>> {
        self.inner.keys()
    }

    /// The optional boxed values of the typed entries, each at the position
    /// of its key.
    pub closed spec fn values(&self) -> Seq<Option<BoxDT>> {
        self.inner.values()
    }

    /// The keys of the unknown entries, in insertion order.
    pub closed spec fn unknown_keys(&self) -> Seq<Seq<char>> {
        self.unknown_entries.keys()
    }

    /// The optional values of the unknown entries, each at the position of
    /// its key.
    pub closed spec fn unknown_values(&self) -> Seq<
        Option<<UnknownEntriesT as UnknownEntries>::ValueT>,
    > {
        self.unknown_entries.values()
    }

    /// The typed entries hold each key once, with one value.
    pub closed spec fn wf_inner(&self) -> bool {
        self.inner.wf()
    }

    /// The unknown entries hold each key once, with one value.
    pub closed spec fn unknown_wf(&self) -> bool {
        self.unknown_entries.wf()
    }

    /// Both tables hold each of their keys once, with one value.
    pub open spec fn wf(&self) -> bool {
        self.wf_inner() && self.unknown_wf()
    }

    /// The typed entries as a mathematical map from key to optional boxed
    /// value.
    pub open spec fn view(&self) -> Map<Seq<char>, Option<BoxDT>> {
        pairs_to_map(self.keys(), self.values())
    }

    /// The unknown entries as a mathematical map from key to optional value.
    pub open spec fn unknown_view(&self) -> Map<
        Seq<char>,
        Option<<UnknownEntriesT as UnknownEntries>::ValueT>,
    > {
        pairs_to_map(self.unknown_keys(), self.unknown_values())
    }

    /// A well-formed map has as many values as keys, and no key twice, in
    /// either table.
    pub proof fn lemma_wf(&self)
        requires
            self.wf(),
        ensures
            self.keys().len() == self.values().len(),
            self.keys().no_duplicates(),
            self.unknown_keys().len() == self.unknown_values().len(),
            self.unknown_keys().no_duplicates(),
    {
        self.inner.lemma_wf();
        self.unknown_entries.lemma_wf();
    }

    /// Creates an empty `TypeMapOpt`.
    pub fn new_typed() -> (m: Self)
        ensures
            m.reserved() == 0,
            m.wf(),
            m.keys().len() == 0,
            m.unknown_keys().len() == 0,
    {
        TypeMapOpt { inner: OrderedMap::new(), unknown_entries: OrderedMap::new() }
    }

    /// Creates an empty `TypeMapOpt` with the specified capacity: room is made for
    /// `capacity` entries, or for `MAX_RESERVED` where more are asked for.
    pub fn with_capacity_typed(capacity: usize) -> (m: Self)
        ensures
            m.reserved() == reserved_for(capacity),
            m.wf(),
            m.keys().len() == 0,
            m.unknown_keys().len() == 0,
    {
        TypeMapOpt {
            inner: OrderedMap::with_capacity(capacity),
            unknown_entries: OrderedMap::new(),
        }
    }

    /// The underlying map of typed entries, to be changed in place.
    pub fn deref_mut(&mut self) -> (inner: &mut OrderedMap<Option<BoxDT>>)
        ensures
            inner.reserved() == old(self).reserved(),
            final(self).reserved() == final(inner).reserved(),
            inner.wf() == old(self).wf_inner(),
            inner.keys() == old(self).keys(),
            inner.values() == old(self).values(),
            final(self).wf_inner() == final(inner).wf(),
            final(self).keys() == final(inner).keys(),
            final(self).values() == final(inner).values(),
            final(self).unknown_wf() == old(self).unknown_wf(),
            final(self).unknown_keys() == old(self).unknown_keys(),
            final(self).unknown_values() == old(self).unknown_values(),
    {
        &mut self.inner
    }

    /// The number of typed entries.
    pub fn len(&self) -> (n: usize)
        requires
            self.wf(),
        ensures
            n == self.keys().len(),
    {
        self.inner.len()
    }

    /// How many typed entries the map can hold without reallocating its keys:
    /// at least as many as it holds, and as room was made for when the map
    /// was made; none, where no room was made and the map holds nothing.
    pub fn capacity(&self) -> (n: usize)
        ensures
            n >= self.keys().len(),
            n >= self.reserved(),
            self.reserved() == 0 && self.keys().len() == 0 ==> n == 0,
    {
        self.inner.capacity()
    }

    /// Returns a reference to the value corresponding to the key: `None`
    /// where the key is not there; `Some(None)` where it is there and holds no
    /// value, or a value of another type.
    pub fn get<R>(&self, q: &str) -> (r: Option<Option<&R>>) where BoxDT: BoxDataTypeDowncast<R>
        requires
            self.wf(),
        ensures
            r.is_some() <==> self@.contains_key(q@),
            r matches Some(Some(_)) <==> {
                &&& self@.contains_key(q@)
                &&& self@[q@] is Some
                &&& exists|w: R| self@[q@].unwrap().holds(w)
            },
            r matches Some(Some(v)) ==> {
                &&& self@[q@].unwrap().holds(*v)
                &&& forall|w: R| self@[q@].unwrap().holds(w) ==> w == *v
            },
    {
        match self.inner.get(q) {
            Some(slot) => match slot {
                Some(boxed) => {
                    let r = boxed.downcast_ref();
                    proof {
                        if let Some(v) = r {
                            assert(self@[q@].unwrap().holds(*v));
                        }
                    }
                    Some(r)
                },
                None => Some(None),
            },
            None => None,
        }
    }

    /// Returns a mutable reference to the value corresponding to the key:
    /// `None` where the key is not there; `Some(None)` where it is there and
    /// holds no value, or a value of another type. Then the map stays as it
    /// is.
    pub fn get_mut<R>(&mut self, q: &str) -> (r: Option<Option<&mut R>>) where
        BoxDT: BoxDataTypeDowncast<R>,

        requires
            old(self).wf(),
        ensures
            final(self).reserved() == old(self).reserved(),
            final(self).wf(),
            final(self).keys() == old(self).keys(),
            final(self).unknown_keys() == old(self).unknown_keys(),
            final(self).unknown_values() == old(self).unknown_values(),
            r.is_some() <==> old(self)@.contains_key(q@),
            r matches Some(Some(_)) <==> {
                &&& old(self)@.contains_key(q@)
                &&& old(self)@[q@] is Some
                &&& exists|w: R| old(self)@[q@].unwrap().holds(w)
            },
            r matches Some(Some(v)) ==> {
                &&& old(self)@[q@].unwrap().holds(*v)
                &&& forall|w: R| old(self)@[q@].unwrap().holds(w) ==> w == *v
                &&& final(self)@[q@] is Some
                &&& final(self)@[q@].unwrap().holds(*final(v))
                &&& final(self)@[q@].unwrap().type_name_spec() == old(self)@[q@].unwrap().type_name_spec()
                &&& final(self)@[q@].unwrap().named() == old(self)@[q@].unwrap().named()
                &&& final(self)@ == old(self)@.insert(q@, final(self)@[q@])
            },
            !(r matches Some(Some(_))) ==> final(self).values() == old(self).values(),
    {
        proof {
            self.lemma_wf();
            if self@.contains_key(q@) {
                let i = self.keys().index_of(q@);
                assert(self.values().update(i, self.values()[i]) =~= self.values());
            }
        }
        match self.inner.get_mut(q) {
            Some(slot) => match slot {
                Some(boxed) => Some(boxed.downcast_mut()),
                None => Some(None),
            },
            None => None,
        }
    }

    /// Returns a reference to the boxed value corresponding to the key.
    pub fn get_raw(&self, q: &str) -> (r: Option<Option<&BoxDT>>)
        requires
            self.wf(),
        ensures
            !self@.contains_key(q@) ==> r.is_none(),
            self@.contains_key(q@) ==> r == Some(
                match self@[q@] {
                    Some(boxed) => Some(&boxed),
                    None => None,
                },
            ),
    {
        match self.inner.get(q) {
            Some(slot) => Some(slot.as_ref()),
            None => None,
        }
    }

    /// Returns a mutable reference to the slot corresponding to the key: the
    /// boxed value, or its absence, to be changed in place.
    pub fn get_raw_mut(&mut self, q: &str) -> (r: Option<&mut Option<BoxDT>>)
        requires
            old(self).wf(),
        ensures
            final(self).reserved() == old(self).reserved(),
            final(self).wf(),
            final(self).keys() == old(self).keys(),
            final(self).unknown_keys() == old(self).unknown_keys(),
            final(self).unknown_values() == old(self).unknown_values(),
            match r {
                Some(v) => {
                    &&& old(self)@.contains_key(q@)
                    &&& *v == old(self)@[q@]
                    &&& final(self)@ == old(self)@.insert(q@, *final(v))
                },
                None => !old(self)@.contains_key(q@) && final(self).values() == old(
                    self,
                ).values(),
            },
    {
        self.inner.get_mut(q)
    }

    /// Inserts a key-value pair into the map.
    ///
    /// If the map did not have this key present, `None` is returned.
    ///
    /// If the map did have this key present, the value is updated, and the old
    /// value is returned. The key keeps its place in the order.
    pub fn insert<R>(&mut self, k: String, r: Option<R>) -> (old_value: Option<Option<BoxDT>>) where
        BoxDT: FromDataType<R>,

        requires
            old(self).wf(),
        ensures
            final(self).reserved() == old(self).reserved(),
            final(self).wf(),
            final(self)@.contains_key(k@),
            match r {
                Some(value) => {
                    &&& final(self)@[k@] is Some
                    &&& final(self)@[k@].unwrap().holds(value)
                    &&& final(self)@[k@].unwrap().named()
                },
                None => final(self)@[k@] is None,
            },
            final(self)@ == old(self)@.insert(k@, final(self)@[k@]),
            forall|other: Seq<char>|
                #![trigger final(self)@[other]]
                #![trigger old(self)@[other]]
                other != k@ && old(self)@.contains_key(other) ==> final(self)@.contains_key(other)
                    && final(self)@[other] == old(self)@[other],
            final(self).unknown_keys() == old(self).unknown_keys(),
            final(self).unknown_values() == old(self).unknown_values(),
            old(self)@.contains_key(k@) ==> {
                &&& old_value == Some(old(self)@[k@])
                &&& final(self).keys() == old(self).keys()
            },
            !old(self)@.contains_key(k@) ==> {
                &&& old_value.is_none()
                &&& final(self).keys() == old(self).keys().push(k@)
            },
    {
        let boxed = match r {
            Some(value) => Some(<BoxDT as FromDataType<R>>::from(value)),
            None => None,
        };
        self.inner.insert(k, boxed)
    }

    /// Inserts a key and an already boxed value, or no value, into the map.
    ///
    /// If the map did not have this key present, `None` is returned.
    ///
    /// If the map did have this key present, the value is updated, and the old
    /// value is returned. The key keeps its place in the order.
    pub fn insert_raw(&mut self, k: String, v: Option<BoxDT>) -> (old_value: Option<Option<BoxDT>>)
        requires
            old(self).wf(),
        ensures
            final(self).reserved() == old(self).reserved(),
            final(self).wf(),
            final(self)@ == old(self)@.insert(k@, v),
            final(self)@.contains_key(k@),
            final(self)@[k@] == v,
            forall|other: Seq<char>|
                #![trigger final(self)@[other]]
                #![trigger old(self)@[other]]
                other != k@ && old(self)@.contains_key(other) ==> final(self)@.contains_key(other)
                    && final(self)@[other] == old(self)@[other],
            final(self).unknown_keys() == old(self).unknown_keys(),
            final(self).unknown_values() == old(self).unknown_values(),
            old(self)@.contains_key(k@) ==> {
                &&& old_value == Some(old(self)@[k@])
                &&& final(self).keys() == old(self).keys()
                &&& final(self).values() == old(self).values().update(
                    old(self).keys().index_of(k@),
                    v,
                )
            },
            !old(self)@.contains_key(k@) ==> {
                &&& old_value.is_none()
                &&& final(self).keys() == old(self).keys().push(k@)
                &&& final(self).values() == old(self).values().push(v)
            },
    {
        self.inner.insert(k, v)
    }
}

impl<BoxDT, UnknownEntriesT> Default for TypeMapOpt<BoxDT, UnknownEntriesT> where
    UnknownEntriesT: UnknownEntries,
 {
    fn default() -> (m: Self)
        ensures
            m.reserved() == 0,
            m.wf(),
            m.keys().len() == 0,
            m.unknown_keys().len() == 0,
    {
        TypeMapOpt { inner: OrderedMap::new(), unknown_entries: OrderedMap::new() }
    }
}

impl<BoxDT, UnknownEntriesT> std::ops::Deref for TypeMapOpt<BoxDT, UnknownEntriesT> where
    UnknownEntriesT: UnknownEntries,
 {
    type Target = OrderedMap<Option<BoxDT>>;

    fn deref(&self) -> (inner: &Self::Target)
        ensures
            inner.reserved() == self.reserved(),
            inner.wf() == self.wf_inner(),
            inner.keys() == self.keys(),
            inner.values() == self.values(),
    {
        &self.inner
    }
}

} // verus!
