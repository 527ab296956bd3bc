//! The JSON value tree, and the text-keyed map that its objects are made of.
//!
//! A [`TextMap`] keeps its entries in ascending key order with no key twice,
//! so two maps with the same entries are the same sequence. In contracts a
//! map is the sequence of its entries, each a key with its value.

use crate::text::{
    comes_before, lemma_text_before_asymmetric, lemma_text_before_total,
    lemma_text_before_transitive, same_text, text_before,
};
use vstd::prelude::*;

verus! {

/// Every key comes before the keys after it.
pub open spec fn keys_ascend<X>(es: Seq<(Seq<char>, X)>) -> bool {
    forall|i: int, j: int|
        #![trigger es[i], es[j]]
        0 <= i < j < es.len() ==> text_before(es[i].0, es[j].0)
}

/// The value of the first entry under `key`, if there is one.
pub open spec fn lookup<X>(es: Seq<(Seq<char>, X)>, key: Seq<char>) -> Option<X>
    decreases es.len(),
{
    if es.len() == 0 {
        None
    } else if es[0].0 == key {
        Some(es[0].1)
    } else {
        lookup(es.drop_first(), key)
    }
}

/// A value that is found among the entries is a part of them.
pub proof fn lemma_found_is_part<X>(es: Seq<(Seq<char>, X)>, key: Seq<char>)
    ensures
        lookup(es, key) matches Some(x) ==> decreases_to!(es => x),
    decreases es.len(),
{
    if es.len() > 0 {
        if es[0].0 == key {
            assert(decreases_to!(es => es[0]));
        } else {
            lemma_found_is_part(es.drop_first(), key);
            if let Some(x) = lookup(es.drop_first(), key) {
                lemma_found_is_entry(es.drop_first(), key);
                let i = choose|i: int| 0 <= i < es.len() - 1 && es.drop_first()[i].1 == x;
                assert(es[i + 1].1 == x);
                assert(decreases_to!(es => es[i + 1]));
            }
        }
    }
}

/// A value that is found among the entries is the value of one of them.
pub proof fn lemma_found_is_entry<X>(es: Seq<(Seq<char>, X)>, key: Seq<char>)
    ensures
        lookup(es, key) matches Some(x) ==> exists|i: int|
            0 <= i < es.len() && es[i].0 == key && #[trigger] es[i].1 == x,
    decreases es.len(),
{
    if es.len() > 0 {
        if es[0].0 == key {
            assert(es[0].1 == lookup(es, key)->0);
        } else {
            lemma_found_is_entry(es.drop_first(), key);
            if let Some(x) = lookup(es.drop_first(), key) {
                let i = choose|i: int|
                    0 <= i < es.len() - 1 && es.drop_first()[i].0 == key
                        && #[trigger] es.drop_first()[i].1 == x;
                assert(es[i + 1].1 == x);
            }
        }
    }
}

/// Nothing is found under a key that no entry has.
pub proof fn lemma_lookup_absent<X>(es: Seq<(Seq<char>, X)>, key: Seq<char>)
    requires
        forall|i: int| 0 <= i < es.len() ==> (#[trigger] es[i]).0 != key,
    ensures
        lookup(es, key) is None,
    decreases es.len(),
{
    if es.len() > 0 {
        assert(es[0].0 != key);
        assert forall|i: int| 0 <= i < es.drop_first().len() implies (#[trigger] es.drop_first()[i]).0
            != key by {
            assert(es[i + 1].0 != key);
        }
        lemma_lookup_absent(es.drop_first(), key);
    }
}

/// In ascending entries every entry is found under its own key.
pub proof fn lemma_lookup_own_entry<X>(es: Seq<(Seq<char>, X)>, j: int)
    requires
        keys_ascend(es),
        0 <= j < es.len(),
    ensures
        lookup(es, es[j].0) == Some(es[j].1),
    decreases es.len(),
{
    if j > 0 {
        assert(text_before(es[0].0, es[j].0));
        lemma_text_before_asymmetric(es[0].0, es[j].0);
        let rest = es.drop_first();
        assert forall|a: int, b: int| 0 <= a < b < rest.len() implies text_before(
            (#[trigger] rest[a]).0,
            (#[trigger] rest[b]).0,
        ) by {
            assert(text_before(es[a + 1].0, es[b + 1].0));
        }
        lemma_lookup_own_entry(rest, j - 1);
    }
}

/// The entries with `value` under `key`: in place of the entry that had the
/// key, or else in front of the first entry whose key comes after it.
pub open spec fn put<X>(es: Seq<(Seq<char>, X)>, key: Seq<char>, value: X) -> Seq<(Seq<char>, X)>
    decreases es.len(),
{
    if es.len() == 0 {
        seq![(key, value)]
    } else if es[0].0 == key {
        es.update(0, (key, value))
    } else if text_before(key, es[0].0) {
        seq![(key, value)] + es
    } else {
        seq![es[0]] + put(es.drop_first(), key, value)
    }
}

/// What was put under a key is found there, and the other keys are as before.
pub broadcast proof fn lemma_lookup_put<X>(
    es: Seq<(Seq<char>, X)>,
    key: Seq<char>,
    value: X,
    other: Seq<char>,
)
    ensures
        #[trigger] lookup(put(es, key, value), other) == if other == key {
            Some(value)
        } else {
            lookup(es, other)
        },
    decreases es.len(),
{
    let after = put(es, key, value);
    if es.len() == 0 {
        assert(after.drop_first() =~= es);
    } else if es[0].0 == key {
        assert(after.drop_first() =~= es.drop_first());
    } else if text_before(key, es[0].0) {
        assert(after.drop_first() =~= es);
    } else {
        lemma_lookup_put(es.drop_first(), key, value, other);
        assert(after.drop_first() =~= put(es.drop_first(), key, value));
    }
}

/// The entries after a field was written: with `slot`'s value under `key`
/// where the slot holds one, and unchanged where it holds none.
#[verifier::opaque]
pub open spec fn put_slot<X>(es: Seq<(Seq<char>, X)>, key: Seq<char>, slot: Option<X>) -> Seq<
    (Seq<char>, X),
> {
    match slot {
        Some(value) => put(es, key, value),
        None => es,
    }
}

/// A slot that holds a value is found under its key; an empty slot, and any
/// other key, leaves what was there.
pub broadcast proof fn lemma_lookup_put_slot<X>(
    es: Seq<(Seq<char>, X)>,
    key: Seq<char>,
    slot: Option<X>,
    other: Seq<char>,
)
    ensures
        #[trigger] lookup(put_slot(es, key, slot), other) == if other == key && slot is Some {
            slot
        } else {
            lookup(es, other)
        },
{
    reveal(put_slot);
    if let Some(value) = slot {
        lemma_lookup_put(es, key, value, other);
    }
}

/// Every key of `put(es, key, value)` is `key` or a key of `es`.
proof fn lemma_put_keys<X>(es: Seq<(Seq<char>, X)>, key: Seq<char>, value: X, i: int)
    requires
        0 <= i < put(es, key, value).len(),
    ensures
        put(es, key, value)[i].0 == key || exists|k: int|
            0 <= k < es.len() && #[trigger] es[k].0 == put(es, key, value)[i].0,
    decreases es.len(),
{
    if es.len() == 0 {
    } else if es[0].0 == key {
        if i > 0 {
            assert(es[i].0 == put(es, key, value)[i].0);
        }
    } else if text_before(key, es[0].0) {
        if i > 0 {
            assert(es[i - 1].0 == put(es, key, value)[i].0);
        }
    } else {
        if i == 0 {
            assert(es[0].0 == put(es, key, value)[i].0);
        } else {
            let rest = es.drop_first();
            lemma_put_keys(rest, key, value, i - 1);
            if put(es, key, value)[i].0 != key {
                let k = choose|k: int|
                    0 <= k < rest.len() && #[trigger] rest[k].0 == put(rest, key, value)[i - 1].0;
                assert(es[k + 1].0 == put(es, key, value)[i].0);
            }
        }
    }
}

/// Putting a value into ascending entries leaves them ascending.
pub proof fn lemma_put_ascends<X>(es: Seq<(Seq<char>, X)>, key: Seq<char>, value: X)
    requires
        keys_ascend(es),
    ensures
        keys_ascend(put(es, key, value)),
    decreases es.len(),
{
    let after = put(es, key, value);
    if es.len() == 0 {
    } else if es[0].0 == key {
        assert forall|i: int, j: int| 0 <= i < j < after.len() implies text_before(
            #[trigger] after[i].0,
            #[trigger] after[j].0,
        ) by {
            assert(text_before(es[i].0, es[j].0));
        }
    } else if text_before(key, es[0].0) {
        assert forall|i: int, j: int| 0 <= i < j < after.len() implies text_before(
            #[trigger] after[i].0,
            #[trigger] after[j].0,
        ) by {
            if i == 0 {
                if j > 1 {
                    assert(text_before(es[0].0, es[j - 1].0));
                    lemma_text_before_transitive(key, es[0].0, es[j - 1].0);
                }
            } else {
                assert(text_before(es[i - 1].0, es[j - 1].0));
            }
        }
    } else {
        let rest = es.drop_first();
        assert(keys_ascend(rest)) by {
            assert forall|i: int, j: int| 0 <= i < j < rest.len() implies text_before(
                #[trigger] rest[i].0,
                #[trigger] rest[j].0,
            ) by {
                assert(text_before(es[i + 1].0, es[j + 1].0));
            }
        }
        lemma_put_ascends(rest, key, value);
        lemma_text_before_total(key, es[0].0);
        let tail = put(rest, key, value);
        assert forall|i: int, j: int| 0 <= i < j < after.len() implies text_before(
            #[trigger] after[i].0,
            #[trigger] after[j].0,
        ) by {
            if i == 0 {
                lemma_put_keys(rest, key, value, j - 1);
                if tail[j - 1].0 != key {
                    let k = choose|k: int|
                        0 <= k < rest.len() && #[trigger] rest[k].0 == tail[j - 1].0;
                    assert(text_before(es[0].0, es[k + 1].0));
                }
            } else {
                assert(text_before(tail[i - 1].0, tail[j - 1].0));
            }
        }
    }
}

/// A key that comes before every key of ascending entries is not among them.
pub proof fn lemma_lookup_below<X>(es: Seq<(Seq<char>, X)>, key: Seq<char>)
    requires
        forall|i: int| 0 <= i < es.len() ==> text_before(key, #[trigger] es[i].0),
    ensures
        lookup(es, key) is None,
    decreases es.len(),
{
    if es.len() > 0 {
        lemma_text_before_asymmetric(key, es[0].0);
        lemma_lookup_below(es.drop_first(), key);
    }
}

/// A key that comes after every key of the entries is put at their end.
pub proof fn lemma_put_last<X>(es: Seq<(Seq<char>, X)>, key: Seq<char>, value: X)
    requires
        forall|i: int| 0 <= i < es.len() ==> text_before(#[trigger] es[i].0, key),
    ensures
        put(es, key, value) == es.push((key, value)),
        lookup(es, key) is None,
    decreases es.len(),
{
    if es.len() > 0 {
        assert(text_before(es[0].0, key));
        lemma_text_before_asymmetric(es[0].0, key);
        assert forall|i: int| 0 <= i < es.drop_first().len() implies text_before(
            #[trigger] es.drop_first()[i].0,
            key,
        ) by {
            assert(text_before(es[i + 1].0, key));
        }
        lemma_put_last(es.drop_first(), key, value);
        assert(seq![es[0]] + es.drop_first().push((key, value)) =~= es.push((key, value)));
    } else {
        assert(seq![(key, value)] =~= es.push((key, value)));
    }
}

/// A map from text to `V` that keeps its entries in ascending key order.
#[derive(Debug, PartialEq)]
pub struct TextMap<V> {
    entries: Vec<(String, V)>,
}

impl<V> View for TextMap<V> {
    type V = Seq<(Seq<char>, V)>;

    closed spec fn view(&self) -> Seq<(Seq<char>, V)> {
        Seq::new(self.entries@.len(), |i: int| (self.entries@[i].0@, self.entries@[i].1))
    }
}

impl<V: DeepView> DeepView for TextMap<V> {
    type V = Seq<(Seq<char>, V::V)>;

    open spec fn deep_view(&self) -> Seq<(Seq<char>, V::V)> {
        deepened(self@)
    }
}

impl<V> TextMap<V> {
    /// The invariant of every map: its keys ascend, so none occurs twice.
    #[verifier::type_invariant]
    pub open spec fn ordered(&self) -> bool {
        keys_ascend(self@)
    }

    /// The map without entries.
    pub fn new() -> (m: Self)
        ensures
            m@ == Seq::<(Seq<char>, V)>::empty(),
    {
        let m = TextMap { entries: Vec::new() };
        assert(m@ =~= Seq::<(Seq<char>, V)>::empty());
        m
    }

    /// The number of entries.
    pub fn len(&self) -> (n: usize)
        ensures
            n == self@.len(),
    {
        self.entries.len()
    }

    /// The key of the entry at position `i` in key order.
    pub fn key_at(&self, i: usize) -> (key: &String)
        requires
            i < self@.len(),
        ensures
            key@ == self@[i as int].0,
    {
        &self.entries[i].0
    }

    /// The value of the entry at position `i` in key order.
    pub fn value_at(&self, i: usize) -> (value: &V)
        requires
            i < self@.len(),
        ensures
            *value == self@[i as int].1,
            decreases_to!(self => value),
    {
        assert(decreases_to!(self.entries => self.entries[i as int]));
        &self.entries[i].1
    }

    /// The value under `key`, if the map has the key. The entries are in
    /// key order, so the search halves them at each step.
    pub fn get(&self, key: &str) -> (r: Option<&V>)
        ensures
            match r {
                Some(v) => lookup(self@, key@) == Some(*v) && decreases_to!(self => v),
                None => lookup(self@, key@) is None,
            },
    {
        proof {
            use_type_invariant(self);
        }
        let mut low: usize = 0;
        let mut high: usize = self.entries.len();
        while low < high
            invariant
                low <= high <= self@.len(),
                self@.len() == self.entries@.len(),
                keys_ascend(self@),
                forall|k: int| 0 <= k < low ==> text_before((#[trigger] self@[k]).0, key@),
                forall|k: int| high <= k < self@.len() ==> text_before(key@, (#[trigger] self@[k]).0),
            decreases high - low,
        {
            let middle = low + (high - low) / 2;
            let found = self.entries[middle].0.as_str();
            if same_text(found, key) {
                proof {
                    lemma_lookup_own_entry(self@, middle as int);
                    assert(decreases_to!(self.entries => self.entries[middle as int]));
                }
                return Some(&self.entries[middle].1);
            }
            if comes_before(found, key) {
                assert forall|k: int| 0 <= k < middle + 1 implies text_before(
                    (#[trigger] self@[k]).0,
                    key@,
                ) by {
                    if k < middle {
                        assert(text_before(self@[k].0, self@[middle as int].0));
                        lemma_text_before_transitive(self@[k].0, self@[middle as int].0, key@);
                    }
                }
                low = middle + 1;
            } else {
                proof {
                    lemma_text_before_total(key@, self@[middle as int].0);
                }
                assert forall|k: int| middle <= k < self@.len() implies text_before(
                    key@,
                    (#[trigger] self@[k]).0,
                ) by {
                    if k > middle {
                        assert(text_before(self@[middle as int].0, self@[k].0));
                        lemma_text_before_transitive(key@, self@[middle as int].0, self@[k].0);
                    }
                }
                high = middle;
            }
        }
        proof {
            assert forall|k: int| 0 <= k < self@.len() implies (#[trigger] self@[k]).0 != key@ by {
                if k < low {
                    lemma_text_before_asymmetric(self@[k].0, key@);
                } else {
                    lemma_text_before_asymmetric(key@, self@[k].0);
                }
            }
            lemma_lookup_absent(self@, key@);
        }
        None
    }

    /// Puts `value` under `key` and returns the value that was there before.
    pub fn insert(&mut self, key: String, value: V) -> (r: Option<V>)
        ensures
            final(self)@ == put(old(self)@, key@, value),
            r == lookup(old(self)@, key@),
    {
        proof {
            use_type_invariant(&*self);
            lemma_put_ascends(self@, key@, value);
        }
        let ghost before = self@;
        let mut entries: Vec<(String, V)> = Vec::new();
        core::mem::swap(&mut self.entries, &mut entries);
        assert(self@ =~= Seq::<(Seq<char>, V)>::empty());
        let ghost shown = |es: Seq<(String, V)>| Seq::new(es.len(), |k: int| (es[k].0@, es[k].1));
        assert(shown(entries@) =~= before);
        let n = entries.len();
        if n == 0 || comes_before(entries[n - 1].0.as_str(), key.as_str()) {
            proof {
                assert forall|k: int| 0 <= k < before.len() implies text_before(
                    #[trigger] before[k].0,
                    key@,
                ) by {
                    assert(before[n - 1] == (entries@[n - 1].0@, entries@[n - 1].1));
                    if k < n - 1 {
                        assert(text_before(before[k].0, before[n - 1].0));
                        lemma_text_before_transitive(before[k].0, before[n - 1].0, key@);
                    }
                }
                lemma_put_last(before, key@, value);
            }
            entries.push((key, value));
            assert(shown(entries@) =~= before.push((key@, value)));
            core::mem::swap(&mut self.entries, &mut entries);
            assert(self@ =~= put(before, key@, value));
            return None;
        }
        let mut i: usize = 0;
        assert(before.skip(0) =~= before && before.take(0) + put(before, key@, value) =~= put(
            before,
            key@,
            value,
        ));
        while i < entries.len() && comes_before(entries[i].0.as_str(), key.as_str())
            invariant
                i <= before.len(),
                before.len() == entries@.len(),
                forall|k: int| 0 <= k < before.len() ==> #[trigger] before[k] == (entries@[k].0@, entries@[k].1),
                put(before, key@, value) == before.take(i as int) + put(
                    before.skip(i as int),
                    key@,
                    value,
                ),
                lookup(before, key@) == lookup(before.skip(i as int), key@),
            decreases entries.len() - i,
        {
            proof {
                assert(before[i as int] == (entries@[i as int].0@, entries@[i as int].1));
                lemma_text_before_asymmetric(before[i as int].0, key@);
                assert(before.skip(i as int).drop_first() =~= before.skip(i + 1));
                assert(before.take(i as int) + (seq![before[i as int]] + put(
                    before.skip(i + 1),
                    key@,
                    value,
                )) =~= before.take(i + 1) + put(before.skip(i + 1), key@, value));
            }
            i += 1;
        }
        let ghost after = put(before, key@, value);
        if i < entries.len() && same_text(entries[i].0.as_str(), key.as_str()) {
            assert(before[i as int] == (entries@[i as int].0@, entries@[i as int].1));
            let previous = entries.remove(i);
            entries.insert(i, (key, value));
            assert(shown(entries@) =~= before.take(i as int) + before.skip(i as int).update(
                0,
                (key@, value),
            ));
            core::mem::swap(&mut self.entries, &mut entries);
            assert(self@ =~= after);
            Some(previous.1)
        } else {
            proof {
                if i < before.len() {
                    assert(before[i as int] == (entries@[i as int].0@, entries@[i as int].1));
                    lemma_text_before_total(key@, before[i as int].0);
                    assert forall|k: int| 0 <= k < before.skip(i as int).len() implies text_before(
                        key@,
                        #[trigger] before.skip(i as int)[k].0,
                    ) by {
                        if k > 0 {
                            assert(text_before(before[i as int].0, before[i + k].0));
                            lemma_text_before_transitive(
                                key@,
                                before[i as int].0,
                                before[i + k].0,
                            );
                        }
                    }
                    lemma_lookup_below(before.skip(i as int), key@);
                }
            }
            entries.insert(i, (key, value));
            assert(shown(entries@) =~= before.take(i as int) + (seq![(key@, value)] + before.skip(
                i as int,
            )));
            core::mem::swap(&mut self.entries, &mut entries);
            assert(self@ =~= after);
            None
        }
    }
}

/// A value of a map is a part of the map.
pub proof fn lemma_value_is_part<V>(m: TextMap<V>, i: int)
    requires
        0 <= i < m@.len(),
    ensures
        decreases_to!(m => m@[i].1),
{
    assert(decreases_to!(m.entries => m.entries[i]));
}

impl<V: Clone> Clone for TextMap<V> {
    fn clone(&self) -> (r: Self)
        ensures
            r@.len() == self@.len(),
            forall|i: int|
                0 <= i < self@.len() ==> (#[trigger] r@[i]).0 == self@[i].0 && cloned(
                    self@[i].1,
                    r@[i].1,
                ),
    {
        proof {
            use_type_invariant(self);
        }
        let mut entries: Vec<(String, V)> = Vec::new();
        for i in 0..self.entries.len()
            invariant
                entries.len() == i,
                forall|k: int|
                    0 <= k < i ==> (#[trigger] entries@[k]).0@ == self.entries@[k].0@ && cloned(
                        self.entries@[k].1,
                        entries@[k].1,
                    ),
        {
            entries.push((self.entries[i].0.clone(), self.entries[i].1.clone()));
        }
        let ghost shown = Seq::new(entries@.len(), |i: int| (entries@[i].0@, entries@[i].1));
        assert forall|i: int, j: int| 0 <= i < j < shown.len() implies text_before(
            (#[trigger] shown[i]).0,
            (#[trigger] shown[j]).0,
        ) by {
            assert(text_before(self@[i].0, self@[j].0));
        }
        TextMap { entries }
    }
}

/// The entries with each value replaced by its view.
pub open spec fn deepened<V: DeepView>(es: Seq<(Seq<char>, V)>) -> Seq<(Seq<char>, V::V)> {
    Seq::new(es.len(), |i: int| (es[i].0, es[i].1.deep_view()))
}

/// Looking a key up commutes with taking the views of the values.
pub proof fn lemma_deepened_lookup<V: DeepView>(es: Seq<(Seq<char>, V)>, key: Seq<char>)
    ensures
        lookup(deepened(es), key) == match lookup(es, key) {
            Some(v) => Some(v.deep_view()),
            None => None,
        },
    decreases es.len(),
{
    if es.len() > 0 {
        assert(deepened(es).drop_first() =~= deepened(es.drop_first()));
        lemma_deepened_lookup(es.drop_first(), key);
    }
}

/// Putting a value commutes with taking the views of the values.
pub proof fn lemma_deepened_put<V: DeepView>(es: Seq<(Seq<char>, V)>, key: Seq<char>, value: V)
    ensures
        deepened(put(es, key, value)) == put(deepened(es), key, value.deep_view()),
    decreases es.len(),
{
    let ds = deepened(es);
    if es.len() == 0 {
        assert(deepened(put(es, key, value)) =~= put(ds, key, value.deep_view()));
    } else if es[0].0 == key {
        assert(deepened(put(es, key, value)) =~= put(ds, key, value.deep_view()));
    } else if text_before(key, es[0].0) {
        assert(deepened(put(es, key, value)) =~= put(ds, key, value.deep_view()));
    } else {
        lemma_deepened_put(es.drop_first(), key, value);
        assert(ds.drop_first() =~= deepened(es.drop_first()));
        assert(deepened(put(es, key, value)) =~= seq![ds[0]] + deepened(
            put(es.drop_first(), key, value),
        ));
    }
}

/// A JSON value. A number is a signed or an unsigned integer, or a double
/// held by its bits.
#[derive(Debug, PartialEq)]
pub enum Json {
    Null,
    Boolean(bool),
    I64(i64),
    U64(u64),
    F64(u64),
    String(String),
    Array(Vec<Json>),
    Object(TextMap<Json>),
}

/// A JSON value in contracts: text as its characters, an array as the
/// sequence of its items, an object as the sequence of its entries.
pub ghost enum JsonValue {
    Null,
    Boolean(bool),
    I64(i64),
    U64(u64),
    F64(u64),
    String(Seq<char>),
    Array(Seq<JsonValue>),
    Object(Seq<(Seq<char>, JsonValue)>),
}

/// The value that a JSON tree stands for.
pub open spec fn json_value(j: Json) -> JsonValue
    decreases j,
{
    match j {
        Json::Null => JsonValue::Null,
        Json::Boolean(b) => JsonValue::Boolean(b),
        Json::I64(n) => JsonValue::I64(n),
        Json::U64(n) => JsonValue::U64(n),
        Json::F64(bits) => JsonValue::F64(bits),
        Json::String(s) => JsonValue::String(s@),
        Json::Array(a) => JsonValue::Array(
            Seq::new(
                a@.len(),
                |i: int|
                    if 0 <= i < a@.len() {
                        json_value(a@[i])
                    } else {
                        JsonValue::Null
                    },
            ),
        ),
        Json::Object(o) => JsonValue::Object(
            Seq::new(
                o@.len(),
                |i: int|
                    if 0 <= i < o@.len() {
                        (o@[i].0, json_value(o@[i].1))
                    } else {
                        (Seq::empty(), JsonValue::Null)
                    },
            ),
        ),
    }
}

impl Clone for Json {
    fn clone(&self) -> (r: Self)
        ensures
            r@ == self@,
        decreases self,
    {
        match self {
            Json::Null => Json::Null,
            Json::Boolean(b) => Json::Boolean(*b),
            Json::I64(n) => Json::I64(*n),
            Json::U64(n) => Json::U64(*n),
            Json::F64(bits) => Json::F64(*bits),
            Json::String(s) => Json::String(s.clone()),
            Json::Array(a) => {
                let mut items: Vec<Json> = Vec::new();
                for i in 0..a.len()
                    invariant
                        decreases_to!(self => a),
                        items.len() == i,
                        forall|k: int| 0 <= k < i ==> json_value(items@[k]) == json_value(a@[k]),
                {
                    assert(decreases_to!(a => a[i as int]));
                    items.push(a[i].clone());
                }
                assert(json_value(Json::Array(items))->Array_0 =~= json_value(
                    Json::Array(*a),
                )->Array_0);
                Json::Array(items)
            },
            Json::Object(o) => {
                proof {
                    use_type_invariant(o);
                }
                let mut entries: Vec<(String, Json)> = Vec::new();
                for i in 0..o.entries.len()
                    invariant
                        decreases_to!(self => o.entries),
                        entries.len() == i,
                        forall|k: int|
                            0 <= k < i ==> (#[trigger] entries@[k]).0@ == o.entries@[k].0@
                                && json_value(entries@[k].1) == json_value(o.entries@[k].1),
                {
                    assert(decreases_to!(o.entries => o.entries[i as int]));
                    entries.push((o.entries[i].0.clone(), o.entries[i].1.clone()));
                }
                let ghost shown = Seq::new(
                    entries@.len(),
                    |i: int| (entries@[i].0@, entries@[i].1),
                );
                assert forall|i: int, j: int| 0 <= i < j < shown.len() implies text_before(
                    (#[trigger] shown[i]).0,
                    (#[trigger] shown[j]).0,
                ) by {
                    assert(text_before(o@[i].0, o@[j].0));
                }
                let copy = TextMap { entries };
                assert(json_value(Json::Object(copy))->Object_0 =~= json_value(
                    Json::Object(*o),
                )->Object_0);
                Json::Object(copy)
            },
        }
    }
}

impl View for Json {
    type V = JsonValue;

    open spec fn view(&self) -> JsonValue {
        json_value(*self)
    }
}

impl DeepView for Json {
    type V = JsonValue;

    open spec fn deep_view(&self) -> JsonValue {
        json_value(*self)
    }
}

/// An array stands for the sequence of what its items stand for.
pub broadcast proof fn lemma_array_value(a: Vec<Json>)
    ensures
        #[trigger] json_value(Json::Array(a)) == JsonValue::Array(a.deep_view()),
{
    assert(json_value(Json::Array(a))->Array_0 =~= a.deep_view());
}

/// An object stands for the sequence of its entries, each value taken for
/// what it stands for.
pub broadcast proof fn lemma_object_value(o: TextMap<Json>)
    ensures
        #[trigger] json_value(Json::Object(o)) == JsonValue::Object(o.deep_view()),
{
    assert(json_value(Json::Object(o))->Object_0 =~= o.deep_view());
}

} // verus!
