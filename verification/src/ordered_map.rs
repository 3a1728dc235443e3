//! An insertion-ordered map from text keys to values.
//!
//! The keys live in an [`indexmap::IndexMap`], which maps each key to the slot
//! of its value; the values live in a `Vec`, one per slot. Everything that is
//! known of the `IndexMap` comes from the contracts below, which restate its
//! documentation.

use std::hash::RandomState;
use vstd::prelude::*;

verus! {

#[verifier::external_type_specification]
#[verifier::external_body]
#[verifier::reject_recursive_types(K)]
#[verifier::reject_recursive_types(V)]
#[verifier::reject_recursive_types(S)]
pub struct ExIndexMap<K, V, S>(indexmap::IndexMap<K, V, S>);

/// The key-value pairs that an `IndexMap` from text to slot numbers holds, in
/// its iteration order.
pub uninterp spec fn index_entries(m: indexmap::IndexMap<String, usize, RandomState>) -> Seq<
    (Seq<char>, usize),
>;

/// The number of entries that room was made for when the `IndexMap` was
/// made.
pub uninterp spec fn index_reserved(m: indexmap::IndexMap<String, usize, RandomState>) -> nat;

/// The most entries that room is made for ahead of their insertion. A map
/// grows beyond it as entries are inserted.
pub const MAX_RESERVED: usize = 0x10_0000;

/// `indexmap::IndexMap::with_capacity`: the new map holds no entry, and room
/// was made for `n` entries. The capacity is bounded, so that sizing the
/// allocation cannot overflow.
#[verifier::external_body]
fn index_with_capacity(n: usize) -> (m: indexmap::IndexMap<String, usize, RandomState>)
    requires
        n <= MAX_RESERVED,
    ensures
        index_entries(m).len() == 0,
        index_reserved(m) == n,
{
    indexmap::IndexMap::with_capacity(n)
}

/// `indexmap::IndexMap::len`: the number of entries.
#[verifier::external_body]
fn index_len(m: &indexmap::IndexMap<String, usize, RandomState>) -> (n: usize)
    ensures
        n == index_entries(*m).len(),
{
    m.len()
}

/// `indexmap::IndexMap::capacity`: the number of entries that the map can
/// hold without reallocating. The map can hold what it holds, and what room
/// was made for when it was made: it never gives room back as entries are
/// inserted. A map that was made without room and holds nothing has not
/// allocated, and can hold nothing.
#[verifier::external_body]
fn index_capacity(m: &indexmap::IndexMap<String, usize, RandomState>) -> (n: usize)
    ensures
        n >= index_entries(*m).len(),
        n >= index_reserved(*m),
        index_reserved(*m) == 0 && index_entries(*m).len() == 0 ==> n == 0,
{
    m.capacity()
}

/// `indexmap::IndexMap::get`: the value stored for `key` if an entry has that
/// key, else `None`.
#[verifier::external_body]
fn index_get(m: &indexmap::IndexMap<String, usize, RandomState>, key: &str) -> (r: Option<usize>)
    ensures
        match r {
            Some(v) => exists|i: int|
                0 <= i < index_entries(*m).len() && #[trigger] index_entries(*m)[i] == (key@, v),
            None => forall|i: int|
                0 <= i < index_entries(*m).len() ==> (#[trigger] index_entries(*m)[i]).0 != key@,
        },
{
    m.get(key).copied()
}

/// `indexmap::IndexMap::get_index`: the key of the entry at position `i`, for
/// `i` below the length; `None` from the length on.
#[verifier::external_body]
fn index_key_at(m: &indexmap::IndexMap<String, usize, RandomState>, i: usize) -> (r: Option<
    &String,
>)
    ensures
        i < index_entries(*m).len() ==> r.is_some() && r.unwrap()@ == index_entries(*m)[i as int].0,
        i >= index_entries(*m).len() ==> r.is_none(),
{
    m.get_index(i).map(|(k, _)| k)
}

/// `indexmap::IndexMap::insert`: where an entry has the key already, that
/// entry keeps its place, takes the new value and the old value is returned;
/// where none has, the pair is added last in order and `None` is returned.
#[verifier::external_body]
fn index_insert(
    m: &mut indexmap::IndexMap<String, usize, RandomState>,
    key: String,
    value: usize,
) -> (r: Option<usize>)
    ensures
        index_reserved(*final(m)) == index_reserved(*old(m)),
        match r {
            Some(v) => exists|i: int|
                0 <= i < index_entries(*old(m)).len() && #[trigger] index_entries(*old(m))[i] == (
                    key@,
                    v,
                ) && index_entries(*final(m)) == index_entries(*old(m)).update(i, (key@, value)),
            None => (forall|i: int|
                0 <= i < index_entries(*old(m)).len() ==> (#[trigger] index_entries(
                    *old(m),
                )[i]).0 != key@) && index_entries(*final(m)) == index_entries(*old(m)).push(
                (key@, value),
            ),
        },
{
    m.insert(key, value)
}

/// The number of entries that room is made for where `capacity` is asked for.
pub open spec fn reserved_for(capacity: usize) -> nat {
    if capacity <= MAX_RESERVED {
        capacity as nat
    } else {
        MAX_RESERVED as nat
    }
}

/// An insertion-ordered map from text keys to values of type `V`.
pub struct OrderedMap<V> {
    index: indexmap::IndexMap<String, usize, RandomState>,
    slots: Vec<V>,
}

impl<V> OrderedMap<V> {
    /// The keys, in insertion order.
    pub closed spec fn keys(&self) -> Seq<Seq<char>> {
        Seq::new(index_entries(self.index).len(), |i: int| index_entries(self.index)[i].0)
    }

    /// The values, each at the position of its key.
    pub closed spec fn values(&self) -> Seq<V> {
        self.slots@
    }

    /// The number of entries that room was made for when the map was made.
    pub closed spec fn reserved(&self) -> nat {
        index_reserved(self.index)
    }

    /// Every key occurs once, has one value, and is found at its own position.
    pub closed spec fn wf(&self) -> bool {
        &&& index_entries(self.index).len() == self.slots@.len()
        &&& forall|i: int|
            0 <= i < index_entries(self.index).len() ==> (#[trigger] index_entries(
                self.index,
            )[i]).1 == i
        &&& forall|i: int, j: int|
            0 <= i < j < index_entries(self.index).len() ==> (#[trigger] index_entries(
                self.index,
            )[i]).0 != (#[trigger] index_entries(self.index)[j]).0
    }

    /// The map as a mathematical map from key to value.
    pub open spec fn view(&self) -> Map<Seq<char>, V> {
        pairs_to_map(self.keys(), self.values())
    }

    /// A well-formed map has as many values as keys, and no key twice.
    pub proof fn lemma_wf(&self)
        requires
            self.wf(),
        ensures
            self.keys().len() == self.values().len(),
            self.keys().no_duplicates(),
    {
    }

    /// An empty map.
    pub fn new() -> (m: Self)
        ensures
            m.reserved() == 0,
            m.wf(),
            m.keys() == Seq::<Seq<char>>::empty(),
            m.values() == Seq::<V>::empty(),
    {
        let m = OrderedMap { index: index_with_capacity(0), slots: Vec::new() };
        proof {
            assert(m.keys() =~= Seq::<Seq<char>>::empty());
            assert(m.values() =~= Seq::<V>::empty());
        }
        m
    }

    /// An empty map with room for `capacity` entries, or for `MAX_RESERVED`
    /// entries where more are asked for.
    pub fn with_capacity(capacity: usize) -> (m: Self)
        ensures
            m.reserved() == reserved_for(capacity),
            m.wf(),
            m.keys() == Seq::<Seq<char>>::empty(),
            m.values() == Seq::<V>::empty(),
    {
        let reserved = if capacity <= MAX_RESERVED {
            capacity
        } else {
            MAX_RESERVED
        };
        let m = OrderedMap {
            index: index_with_capacity(reserved),
            slots: Vec::with_capacity(reserved),
        };
        proof {
            assert(m.keys() =~= Seq::<Seq<char>>::empty());
            assert(m.values() =~= Seq::<V>::empty());
        }
        m
    }

    /// The number of entries.
    pub fn len(&self) -> (n: usize)
        requires
            self.wf(),
        ensures
            n == self.keys().len(),
    {
        index_len(&self.index)
    }

    /// Whether the map holds no entry.
    pub fn is_empty(&self) -> (r: bool)
        requires
            self.wf(),
        ensures
            r == (self.keys().len() == 0),
    {
        index_len(&self.index) == 0
    }

    /// Whether the map holds `key`.
    pub fn contains_key(&self, key: &str) -> (r: bool)
        requires
            self.wf(),
        ensures
            r == self@.contains_key(key@),
    {
        self.position(key).is_some()
    }

    /// How many entries the key index can hold without reallocating: at
    /// least as many as the map holds, and as room was made for when the map
    /// was made; none, where no room was made and the map holds nothing.
    pub fn capacity(&self) -> (n: usize)
        ensures
            n >= self.keys().len(),
            n >= self.reserved(),
            self.reserved() == 0 && self.keys().len() == 0 ==> n == 0,
    {
        index_capacity(&self.index)
    }

    /// The position of `key`, if the map holds it.
    pub fn position(&self, key: &str) -> (r: Option<usize>)
        requires
            self.wf(),
        ensures
            match r {
                Some(i) => i < self.keys().len() && self.keys()[i as int] == key@,
                None => !self.keys().contains(key@),
            },
    {
        let r = index_get(&self.index, key);
        proof {
            if r.is_none() {
                assert forall|i: int| 0 <= i < self.keys().len() implies self.keys()[i] != key@ by {
                    assert(index_entries(self.index)[i].0 != key@);
                }
            }
        }
        r
    }

    /// The key at position `i`.
    pub fn key_at(&self, i: usize) -> (k: &String)
        requires
            self.wf(),
            i < self.keys().len(),
        ensures
            k@ == self.keys()[i as int],
    {
        index_key_at(&self.index, i).unwrap()
    }

    /// The value at position `i`.
    pub fn value_at(&self, i: usize) -> (v: &V)
        requires
            self.wf(),
            i < self.keys().len(),
        ensures
            *v == self.values()[i as int],
    {
        &self.slots[i]
    }

    /// The value at position `i`, to be changed in place. Keys and the other
    /// values stay as they are.
    pub fn value_at_mut(&mut self, i: usize) -> (v: &mut V)
        requires
            old(self).wf(),
            i < old(self).keys().len(),
        ensures
            final(self).reserved() == old(self).reserved(),
            *v == old(self).values()[i as int],
            final(self).wf(),
            final(self).keys() == old(self).keys(),
            final(self).values() == old(self).values().update(i as int, *final(v)),
    {
        &mut self.slots[i]
    }

    /// The value stored for `key`, if the map holds the key.
    pub fn get(&self, key: &str) -> (r: Option<&V>)
        requires
            self.wf(),
        ensures
            self@.contains_key(key@) ==> r == Some(&self@[key@]),
            !self@.contains_key(key@) ==> r.is_none(),
    {
        match self.position(key) {
            Some(i) => {
                proof {
                    self.lemma_wf();
                    assert(self.keys().index_of(key@) == i as int);
                }
                Some(&self.slots[i])
            },
            None => None,
        }
    }

    /// The value stored for `key`, to be changed in place, if the map holds
    /// the key. Keys and the other values stay as they are.
    pub fn get_mut(&mut self, key: &str) -> (r: Option<&mut V>)
        requires
            old(self).wf(),
        ensures
            final(self).reserved() == old(self).reserved(),
            final(self).wf(),
            final(self).keys() == old(self).keys(),
            match r {
                Some(v) => {
                    &&& old(self)@.contains_key(key@)
                    &&& *v == old(self)@[key@]
                    &&& final(self).values() == old(self).values().update(
                        old(self).keys().index_of(key@),
                        *final(v),
                    )
                    &&& final(self)@ == old(self)@.insert(key@, *final(v))
                },
                None => !old(self)@.contains_key(key@) && final(self).values() == old(
                    self,
                ).values(),
            },
    {
        proof {
            self.lemma_wf();
        }
        match self.position(key) {
            Some(i) => {
                proof {
                    assert(self.keys().index_of(key@) == i as int);
                    assert forall|value: V| #[trigger]
                        pairs_to_map(self.keys(), self.values().update(i as int, value))
                            == self@.insert(key@, value) by {
                        lemma_view_update(self.keys(), self.values(), i as int, value);
                    }
                }
                Some(self.value_at_mut(i))
            },
            None => None,
        }
    }

    /// Stores `value` for `key`. A key that the map holds already keeps its
    /// place and gives back its old value; a new key goes last.
    pub fn insert(&mut self, key: String, value: V) -> (r: Option<V>)
        requires
            old(self).wf(),
        ensures
            final(self).reserved() == old(self).reserved(),
            final(self).wf(),
            final(self)@ == old(self)@.insert(key@, value),
            final(self)@.contains_key(key@),
            final(self)@[key@] == value,
            forall|other: Seq<char>|
                #![trigger final(self)@[other]]
                #![trigger old(self)@[other]]
                other != key@ && old(self)@.contains_key(other) ==> final(self)@.contains_key(other)
                    && final(self)@[other] == old(self)@[other],
            old(self)@.contains_key(key@) ==> {
                &&& r == Some(old(self)@[key@])
                &&& final(self).keys() == old(self).keys()
                &&& final(self).values() == old(self).values().update(
                    old(self).keys().index_of(key@),
                    value,
                )
            },
            !old(self)@.contains_key(key@) ==> {
                &&& r.is_none()
                &&& final(self).keys() == old(self).keys().push(key@)
                &&& final(self).values() == old(self).values().push(value)
            },
    {
        proof {
            self.lemma_wf();
        }
        match self.position(key.as_str()) {
            Some(i) => {
                let mut value = value;
                std::mem::swap(&mut self.slots[i], &mut value);
                proof {
                    assert(old(self).keys().index_of(key@) == i as int);
                    assert(self.keys() == old(self).keys());
                    self.lemma_wf();
                    lemma_view_update(old(self).keys(), old(self).values(), i as int, self.slots@[i as int]);
                    assert(self@ =~= old(self)@.insert(key@, self.slots@[i as int]));
                }
                Some(value)
            },
            None => {
                let n = self.slots.len();
                let ghost before = index_entries(self.index);
                let _ = index_insert(&mut self.index, key, n);
                self.slots.push(value);
                proof {
                    let after = index_entries(self.index);
                    assert(after == before.push((key@, n))) by {
                        assert forall|i: int| 0 <= i < before.len() implies (#[trigger] before[i]).0
                            != key@ by {
                            assert(old(self).keys()[i] == before[i].0);
                        }
                    }
                    assert(self.keys() =~= old(self).keys().push(key@));
                    assert(self.wf()) by {
                        assert forall|i: int, j: int| 0 <= i < j < after.len() implies (
                        #[trigger] after[i]).0 != (#[trigger] after[j]).0 by {
                            if j < before.len() {
                                assert(before[i].0 != before[j].0);
                            } else {
                                assert(old(self).keys()[i] == before[i].0);
                            }
                        }
                    }
                    lemma_view_push(old(self).keys(), old(self).values(), key@, value);
                    assert(self@ =~= old(self)@.insert(key@, value));
                }
                None
            },
        }
    }
}

impl<V: Clone> OrderedMap<V> {
    /// A map with the same keys in the same order, each with the clone of its
    /// value.
    pub fn clone(&self) -> (copy: Self)
        requires
            self.wf(),
        ensures
            copy.wf(),
            copy.keys() == self.keys(),
            copy.values().len() == self.values().len(),
            forall|i: int|
                0 <= i < self.values().len() ==> cloned(
                    #[trigger] self.values()[i],
                    copy.values()[i],
                ),
    {
        proof {
            self.lemma_wf();
        }
        let n = self.len();
        let mut copy: OrderedMap<V> = OrderedMap::with_capacity(n);
        let mut i: usize = 0;
        while i < n
            invariant
                self.wf(),
                self.keys().no_duplicates(),
                n == self.keys().len(),
                n == self.values().len(),
                i <= n,
                copy.wf(),
                copy.keys() == self.keys().take(i as int),
                copy.values().len() == i,
                forall|j: int|
                    0 <= j < i ==> cloned(#[trigger] self.values()[j], copy.values()[j]),
            decreases n - i,
        {
            let key = self.key_at(i).clone();
            let value = self.value_at(i).clone();
            proof {
                copy.lemma_wf();
                lemma_take_excludes_next(self.keys(), i as int);
            }
            copy.insert(key, value);
            proof {
                assert(self.keys().take(i as int + 1) =~= self.keys().take(i as int).push(key@));
            }
            i += 1;
        }
        proof {
            assert(self.keys().take(n as int) =~= self.keys());
        }
        copy
    }
}

/// Among keys without duplicates, the key at position `i` is none of the
/// first `i` keys.
pub proof fn lemma_take_excludes_next(keys: Seq<Seq<char>>, i: int)
    requires
        keys.no_duplicates(),
        0 <= i < keys.len(),
    ensures
        !keys.take(i).contains(keys[i]),
{
    if keys.take(i).contains(keys[i]) {
        let j = keys.take(i).index_of(keys[i]);
        assert(keys[j] == keys[i]);
    }
}

/// The map that distinct `keys` and their `values` stand for.
pub open spec fn pairs_to_map<V>(keys: Seq<Seq<char>>, values: Seq<V>) -> Map<Seq<char>, V> {
    Map::new(|k: Seq<char>| keys.contains(k), |k: Seq<char>| values[keys.index_of(k)])
}

/// Changing the value at position `i` changes the map at the key of that
/// position and nowhere else.
pub proof fn lemma_view_update<V>(keys: Seq<Seq<char>>, values: Seq<V>, i: int, value: V)
    requires
        keys.len() == values.len(),
        keys.no_duplicates(),
        0 <= i < keys.len(),
    ensures
        pairs_to_map(keys, values.update(i, value)) == pairs_to_map(keys, values).insert(
            keys[i],
            value,
        ),
{
    let a = pairs_to_map(keys, values.update(i, value));
    let b = pairs_to_map(keys, values).insert(keys[i], value);
    assert forall|k: Seq<char>| a.contains_key(k) implies a[k] == b[k] by {
        let j = keys.index_of(k);
        assert(keys[j] == k);
        if j == i {
        } else {
            assert(keys[i] != k);
        }
    }
    assert(a =~= b);
}

/// Adding a key that is not there yet, with its value, adds one entry to the
/// map.
pub proof fn lemma_view_push<V>(keys: Seq<Seq<char>>, values: Seq<V>, key: Seq<char>, value: V)
    requires
        keys.len() == values.len(),
        keys.no_duplicates(),
        !keys.contains(key),
    ensures
        keys.push(key).no_duplicates(),
        pairs_to_map(keys.push(key), values.push(value)) == pairs_to_map(keys, values).insert(
            key,
            value,
        ),
{
    let keys2 = keys.push(key);
    let a = pairs_to_map(keys2, values.push(value));
    let b = pairs_to_map(keys, values).insert(key, value);
    assert(keys2.no_duplicates()) by {
        assert forall|i: int, j: int| 0 <= i < keys2.len() && 0 <= j < keys2.len() && i != j implies keys2[i] != keys2[j] by {
            if i == keys.len() {
                assert(keys.contains(keys[j]));
            } else if j == keys.len() {
                assert(keys.contains(keys[i]));
            }
        }
    }
    assert forall|k: Seq<char>| a.contains_key(k) <==> b.contains_key(k) by {
        if keys2.contains(k) {
            let j = keys2.index_of(k);
            assert(keys2[j] == k);
            if j < keys.len() {
                assert(keys[j] == k);
            }
        }
        if keys.contains(k) {
            let j = keys.index_of(k);
            assert(keys2[j] == k);
        }
        if k == key {
            assert(keys2[keys.len() as int] == k);
        }
    }
    assert forall|k: Seq<char>| a.contains_key(k) implies a[k] == b[k] by {
        let j = keys2.index_of(k);
        assert(keys2[j] == k);
        if j < keys.len() {
            assert(keys[j] == k);
            assert(keys.contains(k));
            let j2 = keys.index_of(k);
            assert(keys[j2] == k);
            assert(keys2[j2] == k);
            assert(j2 == j);
        } else {
            assert(k == key);
        }
    }
    assert(a =~= b);
}

/// The map that storing `entries` one after another leaves: each key with
/// the value that was stored under it last.
pub open spec fn stored_in_order<V>(entries: Seq<(Seq<char>, V)>) -> Map<Seq<char>, V>
    decreases entries.len(),
{
    if entries.len() == 0 {
        Map::empty()
    } else {
        stored_in_order(entries.drop_last()).insert(entries.last().0, entries.last().1)
    }
}

/// Entries under distinct `keys`, stored one after another, leave the map
/// that the keys and the values of the entries stand for.
pub proof fn lemma_stored_in_order<V>(keys: Seq<Seq<char>>, entries: Seq<(Seq<char>, V)>)
    requires
        keys.no_duplicates(),
        entries.len() == keys.len(),
        forall|j: int| 0 <= j < entries.len() ==> (#[trigger] entries[j]).0 == keys[j],
    ensures
        forall|k: Seq<char>| #[trigger] stored_in_order(entries).contains_key(k) <==> keys.contains(k),
        forall|i: int|
            0 <= i < entries.len() ==> stored_in_order(entries)[#[trigger] keys[i]] == entries[i].1,
    decreases entries.len(),
{
    if entries.len() > 0 {
        let n = entries.len() - 1;
        let before = entries.drop_last();
        let keys_before = keys.drop_last();
        assert(before.len() == n && keys_before.len() == n);
        assert forall|j: int| 0 <= j < before.len() implies (#[trigger] before[j]).0
            == keys_before[j] by {
            assert(before[j] == entries[j]);
            assert(keys_before[j] == keys[j]);
        }
        lemma_stored_in_order(keys_before, before);
        assert(entries[n].0 == keys[n]);
        let stored = stored_in_order(entries);
        assert(stored == stored_in_order(before).insert(keys[n], entries[n].1));
        assert forall|k: Seq<char>| #[trigger] stored.contains_key(k) <==> keys.contains(k) by {
            if keys.contains(k) {
                let j = keys.index_of(k);
                assert(keys[j] == k);
                if j < n {
                    assert(keys_before[j] == k);
                    assert(keys_before.contains(k));
                    assert(stored_in_order(before).contains_key(k));
                }
            }
            if stored.contains_key(k) && k != keys[n] {
                assert(stored_in_order(before).contains_key(k));
                assert(keys_before.contains(k));
                let j = keys_before.index_of(k);
                assert(keys_before[j] == k);
                assert(keys[j] == k);
            }
            if k == keys[n] {
                assert(keys.contains(k));
            }
        }
        assert forall|i: int| 0 <= i < entries.len() implies stored[#[trigger] keys[i]]
            == entries[i].1 by {
            if i < n {
                assert(keys_before[i] == keys[i]);
                assert(keys[i] != keys[n]);
                assert(before[i] == entries[i]);
                assert(stored_in_order(before)[keys_before[i]] == before[i].1);
            }
        }
    }
}

} // verus!
