//! A map from text keys to values that is kept, and walked, in the order of
//! its keys.
use vstd::prelude::*;

use crate::same::Same;
use crate::text;

verus! {

/// Keys in strictly increasing order.
pub open spec fn sorted_keys<V>(pairs: Seq<(Seq<char>, V)>) -> bool {
    forall|i: int, j: int|
        0 <= i < j < pairs.len() ==> text::precedes(#[trigger] pairs[i].0, #[trigger] pairs[j].0)
}

/// The map that a sequence of pairs with distinct keys stands for.
pub open spec fn map_of_pairs<V>(pairs: Seq<(Seq<char>, V)>) -> Map<Seq<char>, V>
    decreases pairs.len(),
{
    if pairs.len() == 0 {
        Map::empty()
    } else {
        map_of_pairs(pairs.drop_last()).insert(pairs.last().0, pairs.last().1)
    }
}

/// The position of a key among pairs, where it is there.
pub open spec fn has_key<V>(pairs: Seq<(Seq<char>, V)>, key: Seq<char>) -> bool {
    exists|i: int| 0 <= i < pairs.len() && #[trigger] pairs[i].0 == key
}

/// A map of pairs in key order holds each pair, and no other key.
pub proof fn lemma_map_of_pairs<V>(pairs: Seq<(Seq<char>, V)>)
    requires
        sorted_keys(pairs),
    ensures
        forall|i: int|
            0 <= i < pairs.len() ==> map_of_pairs(pairs).contains_key(#[trigger] pairs[i].0)
                && map_of_pairs(pairs)[pairs[i].0] == pairs[i].1,
        forall|k: Seq<char>| #[trigger]
            map_of_pairs(pairs).contains_key(k) ==> has_key(pairs, k),
    decreases pairs.len(),
{
    if pairs.len() > 0 {
        let rest = pairs.drop_last();
        lemma_sorted_but_last(pairs);
        lemma_map_of_pairs(rest);
        assert forall|i: int| 0 <= i < pairs.len() implies map_of_pairs(pairs).contains_key(
            #[trigger] pairs[i].0,
        ) && map_of_pairs(pairs)[pairs[i].0] == pairs[i].1 by {
            if i < rest.len() {
                assert(rest[i] == pairs[i]);
                text::lemma_precedes_irreflexive(pairs[i].0);
                assert(text::precedes(pairs[i].0, pairs[pairs.len() - 1].0));
            }
        }
        assert forall|k: Seq<char>| #[trigger]
            map_of_pairs(pairs).contains_key(k) implies has_key(pairs, k) by {
            if k == pairs.last().0 {
                assert(pairs[pairs.len() - 1].0 == k);
            } else {
                assert(map_of_pairs(rest).contains_key(k));
                let i = choose|i: int| 0 <= i < rest.len() && #[trigger] rest[i].0 == k;
                assert(pairs[i].0 == k);
            }
        }
    }
}

/// Pairs in key order are known by the map that they stand for.
pub proof fn lemma_same_map_same_pairs<V>(a: Seq<(Seq<char>, V)>, b: Seq<(Seq<char>, V)>)
    requires
        sorted_keys(a),
        sorted_keys(b),
        map_of_pairs(a) == map_of_pairs(b),
    ensures
        a == b,
    decreases a.len(),
{
    if a.len() == 0 {
        if b.len() > 0 {
            lemma_position(b, a, 0);
        }
    } else {
        let last = a.len() - 1;
        let end = b.len() - 1;
        let i = lemma_position(a, b, last);
        let j = lemma_position(b, a, end);
        if i < end && j < last {
            assert(text::precedes(b[i].0, b[end].0));
            assert(text::precedes(a[j].0, a[last].0));
            text::lemma_precedes_transitive(a[last].0, b[end].0, a[last].0);
            text::lemma_precedes_irreflexive(a[last].0);
        }
        lemma_sorted_but_last(a);
        lemma_sorted_but_last(b);
        lemma_last_key_is_new(a);
        lemma_last_key_is_new(b);
        assert(map_of_pairs(a.drop_last()) =~= map_of_pairs(a).remove(a.last().0));
        assert(map_of_pairs(b.drop_last()) =~= map_of_pairs(b).remove(b.last().0));
        lemma_same_map_same_pairs(a.drop_last(), b.drop_last());
        assert(a =~= a.drop_last().push(a.last()));
        assert(b =~= b.drop_last().push(b.last()));
    }
}

proof fn lemma_position<V>(a: Seq<(Seq<char>, V)>, b: Seq<(Seq<char>, V)>, i: int) -> (j: int)
    requires
        sorted_keys(a),
        sorted_keys(b),
        map_of_pairs(a) == map_of_pairs(b),
        0 <= i < a.len(),
    ensures
        0 <= j < b.len(),
        b[j] == a[i],
{
    let key = a[i].0;
    let value = a[i].1;
    assert(map_of_pairs(a).contains_key(key) && map_of_pairs(a)[key] == value) by {
        lemma_map_of_pairs(a);
    }
    lemma_map_of_pairs(b);
    let j = choose|j: int| 0 <= j < b.len() && #[trigger] b[j].0 == key;
    assert(map_of_pairs(b)[b[j].0] == b[j].1);
    j
}

proof fn lemma_sorted_but_last<V>(pairs: Seq<(Seq<char>, V)>)
    requires
        sorted_keys(pairs),
        pairs.len() > 0,
    ensures
        sorted_keys(pairs.drop_last()),
{
    let rest = pairs.drop_last();
    assert forall|i: int, j: int| 0 <= i < j < rest.len() implies text::precedes(
        #[trigger] rest[i].0,
        #[trigger] rest[j].0,
    ) by {
        assert(rest[i] == pairs[i] && rest[j] == pairs[j]);
    }
}

proof fn lemma_last_key_is_new<V>(pairs: Seq<(Seq<char>, V)>)
    requires
        sorted_keys(pairs),
        pairs.len() > 0,
    ensures
        !map_of_pairs(pairs.drop_last()).contains_key(pairs.last().0),
{
    let rest = pairs.drop_last();
    lemma_sorted_but_last(pairs);
    lemma_map_of_pairs(rest);
    if map_of_pairs(rest).contains_key(pairs.last().0) {
        let i = choose|i: int| 0 <= i < rest.len() && #[trigger] rest[i].0 == pairs.last().0;
        assert(text::precedes(pairs[i].0, pairs[pairs.len() - 1].0));
        text::lemma_precedes_irreflexive(pairs.last().0);
    }
}

proof fn lemma_pairs_set<V>(
    old_pairs: Seq<(Seq<char>, V)>,
    new_pairs: Seq<(Seq<char>, V)>,
    at: int,
    found: bool,
    key: Seq<char>,
    value: V,
)
    requires
        sorted_keys(old_pairs),
        sorted_keys(new_pairs),
        0 <= at <= old_pairs.len(),
        found ==> at < old_pairs.len() && old_pairs[at].0 == key && new_pairs == old_pairs.update(
            at,
            (key, value),
        ),
        !found ==> new_pairs == old_pairs.insert(at, (key, value)),
    ensures
        map_of_pairs(new_pairs) == map_of_pairs(old_pairs).insert(key, value),
        found == map_of_pairs(old_pairs).contains_key(key),
{
    lemma_map_of_pairs(old_pairs);
    lemma_map_of_pairs(new_pairs);
    let before = map_of_pairs(old_pairs);
    let after = map_of_pairs(new_pairs);
    assert(new_pairs[at] == (key, value));
    if !found && before.contains_key(key) {
        let i = choose|i: int| 0 <= i < old_pairs.len() && #[trigger] old_pairs[i].0 == key;
        let j = if i < at {
            i
        } else {
            i + 1
        };
        assert(new_pairs[j].0 == key && new_pairs[at].0 == key);
        text::lemma_precedes_irreflexive(key);
        assert(text::precedes(new_pairs[at].0, new_pairs[j].0) || text::precedes(
            new_pairs[j].0,
            new_pairs[at].0,
        ));
        assert(false);
    }
    if found {
        assert(before.contains_key(old_pairs[at].0));
    }
    assert forall|i: int| 0 <= i < old_pairs.len() && old_pairs[i].0 != key implies after.contains_key(
        #[trigger] old_pairs[i].0,
    ) && after[old_pairs[i].0] == old_pairs[i].1 by {
        let j = if found || i < at {
            i
        } else {
            i + 1
        };
        assert(new_pairs[j] == old_pairs[i]);
        assert(after.contains_key(new_pairs[j].0));
    }
    assert forall|k: Seq<char>| #[trigger] after.contains_key(k) implies before.insert(
        key,
        value,
    ).contains_key(k) by {
        let j = choose|j: int| 0 <= j < new_pairs.len() && #[trigger] new_pairs[j].0 == k;
        if j != at {
            let i = if found || j < at {
                j
            } else {
                j - 1
            };
            assert(old_pairs[i] == new_pairs[j]);
            assert(before.contains_key(old_pairs[i].0));
        }
    }
    assert forall|k: Seq<char>| #[trigger] before.insert(key, value).contains_key(
        k,
    ) implies after.contains_key(k) && after[k] == before.insert(key, value)[k] by {
        if k == key {
            assert(after.contains_key(new_pairs[at].0));
        } else {
            let i = choose|i: int| 0 <= i < old_pairs.len() && #[trigger] old_pairs[i].0 == k;
            assert(old_pairs[i].0 == k);
        }
    }
    assert(after =~= before.insert(key, value));
}

/// A map from text to values, in key order.
#[derive(Debug, PartialEq, Eq)]
pub struct StringMap<V> {
    entries: Vec<(String, V)>,
}

impl<V: DeepView> StringMap<V> {
    /// The pairs in key order.
    pub closed spec fn pairs(&self) -> Seq<(Seq<char>, V::V)> {
        Seq::new(
            self.entries@.len(),
            |i: int| (self.entries@[i].0@, self.entries@[i].1.deep_view()),
        )
    }
}

impl<V: DeepView> DeepView for StringMap<V> {
    type V = Map<Seq<char>, V::V>;

    open spec fn deep_view(&self) -> Map<Seq<char>, V::V> {
        map_of_pairs(self.pairs())
    }
}

impl<V> StringMap<V> {
    #[verifier::type_invariant]
    spec fn in_order(&self) -> bool {
        keys_in_order(self.entries@)
    }
}

spec fn keys_in_order<V>(entries: Seq<(String, V)>) -> bool {
    forall|i: int, j: int|
        0 <= i < j < entries.len() ==> text::precedes(
            (#[trigger] entries[i]).0@,
            (#[trigger] entries[j]).0@,
        )
}

impl<V: DeepView> StringMap<V> {
    /// The empty map.
    pub fn new() -> (map: Self)
        ensures
            map.pairs() == Seq::<(Seq<char>, V::V)>::empty(),
            map.deep_view() == Map::<Seq<char>, V::V>::empty(),
    {
        let map = StringMap { entries: Vec::new() };
        assert(map.pairs() =~= Seq::<(Seq<char>, V::V)>::empty());
        map
    }

    /// How many keys the map holds. Its keys are distinct and in order.
    pub fn len(&self) -> (n: usize)
        ensures
            n == self.pairs().len(),
            sorted_keys(self.pairs()),
    {
        proof {
            use_type_invariant(self);
            self.lemma_sorted();
        }
        self.entries.len()
    }

    proof fn lemma_sorted(&self)
        requires
            self.in_order(),
        ensures
            sorted_keys(self.pairs()),
    {
        assert forall|i: int, j: int| 0 <= i < j < self.pairs().len() implies text::precedes(
            #[trigger] self.pairs()[i].0,
            #[trigger] self.pairs()[j].0,
        ) by {
            assert(text::precedes(self.entries@[i].0@, self.entries@[j].0@));
        }
    }

    /// Whether the map holds no key.
    pub fn is_empty(&self) -> (r: bool)
        ensures
            r == (self.pairs().len() == 0),
    {
        self.entries.len() == 0
    }

    /// The key at a position.
    pub fn key_at(&self, index: usize) -> (key: &str)
        requires
            index < self.pairs().len(),
        ensures
            key@ == self.pairs()[index as int].0,
    {
        self.entries[index].0.as_str()
    }

    /// The value at a position.
    pub fn value_at(&self, index: usize) -> (value: &V)
        requires
            index < self.pairs().len(),
        ensures
            value.deep_view() == self.pairs()[index as int].1,
    {
        &self.entries[index].1
    }

    /// The value of a key.
    pub fn get(&self, key: &str) -> (value: Option<&V>)
        ensures
            value is Some == self.deep_view().contains_key(key@),
            value matches Some(found) ==> found.deep_view() == self.deep_view()[key@],
    {
        proof {
            use_type_invariant(self);
            self.lemma_sorted();
            lemma_map_of_pairs(self.pairs());
        }
        let mut i: usize = 0;
        while i < self.entries.len()
            invariant
                0 <= i <= self.entries.len(),
                forall|j: int| 0 <= j < i ==> #[trigger] self.pairs()[j].0 != key@,
                forall|j: int|
                    0 <= j < self.pairs().len() ==> self.deep_view().contains_key(
                        #[trigger] self.pairs()[j].0,
                    ) && self.deep_view()[self.pairs()[j].0] == self.pairs()[j].1,
            decreases self.entries.len() - i,
        {
            assert(self.pairs()[i as int].0 == self.entries@[i as int].0@);
            if text::same(self.entries[i].0.as_str(), key) {
                return Some(&self.entries[i].1);
            }
            i = i + 1;
        }
        None
    }

    /// Sets the value of a key.
    pub fn insert(&mut self, key: &str, value: V)
        ensures
            final(self).deep_view() == old(self).deep_view().insert(key@, value.deep_view()),
            old(self).deep_view().contains_key(key@) ==> final(self).pairs().len() == old(
                self,
            ).pairs().len(),
            !old(self).deep_view().contains_key(key@) ==> final(self).pairs().len() == old(
                self,
            ).pairs().len() + 1,
    {
        let ghost before = *self;
        let mut entries: Vec<(String, V)> = Vec::new();
        proof {
            use_type_invariant(&*self);
            self.lemma_sorted();
        }
        std::mem::swap(&mut entries, &mut self.entries);
        let ghost old_entries = entries@;
        let mut at: usize = 0;
        while at < entries.len() && text::before(entries[at].0.as_str(), key)
            invariant
                0 <= at <= entries.len(),
                entries@ == old_entries,
                forall|j: int| 0 <= j < at ==> text::precedes((#[trigger] entries@[j]).0@, key@),
            decreases entries.len() - at,
        {
            at = at + 1;
        }
        let ghost view = value.deep_view();
        if at < entries.len() && text::same(entries[at].0.as_str(), key) {
            let found = entries.remove(at);
            entries.insert(at, (found.0, value));
            proof {
                assert forall|i: int, j: int| 0 <= i < j < entries@.len() implies text::precedes(
                    (#[trigger] entries@[i]).0@,
                    (#[trigger] entries@[j]).0@,
                ) by {
                    assert(entries@[i].0@ == old_entries[i].0@);
                    assert(entries@[j].0@ == old_entries[j].0@);
                }
            }
        } else {
            proof {
                if at < old_entries.len() {
                    text::lemma_precedes_total(old_entries[at as int].0@, key@);
                }
            }
            entries.insert(at, (key.to_owned(), value));
            proof {
                assert forall|i: int, j: int| 0 <= i < j < entries@.len() implies text::precedes(
                    (#[trigger] entries@[i]).0@,
                    (#[trigger] entries@[j]).0@,
                ) by {
                    if i == at {
                        assert(entries@[j] == old_entries[j - 1]);
                        if j - 1 > at {
                            assert(text::precedes(
                                old_entries[at as int].0@,
                                old_entries[j - 1].0@,
                            ));
                            text::lemma_precedes_transitive(
                                key@,
                                old_entries[at as int].0@,
                                old_entries[j - 1].0@,
                            );
                        }
                    } else if j == at {
                        assert(entries@[i] == old_entries[i]);
                    } else if j < at {
                        assert(entries@[i] == old_entries[i]);
                        assert(entries@[j] == old_entries[j]);
                    } else if i < at {
                        assert(entries@[i] == old_entries[i]);
                        assert(entries@[j] == old_entries[j - 1]);
                    } else {
                        assert(entries@[i] == old_entries[i - 1]);
                        assert(entries@[j] == old_entries[j - 1]);
                    }
                }
            }
        }
        let ghost new_entries = entries@;
        self.entries = entries;
        proof {
            let after = *self;
            self.lemma_sorted();
            let found = at < old_entries.len() && old_entries[at as int].0@ == key@;
            if found {
                assert(after.pairs() =~= before.pairs().update(at as int, (key@, view)));
            } else {
                assert(after.pairs() =~= before.pairs().insert(at as int, (key@, view)));
            }
            lemma_pairs_set(before.pairs(), after.pairs(), at as int, found, key@, view);
        }
    }

    /// Whether the map holds a key.
    pub fn contains_key(&self, key: &str) -> (r: bool)
        ensures
            r == self.deep_view().contains_key(key@),
    {
        self.get(key).is_some()
    }
}

impl<V: DeepView> Default for StringMap<V> {
    fn default() -> (map: Self)
        ensures
            map.pairs() == Seq::<(Seq<char>, V::V)>::empty(),
            map.deep_view() == Map::<Seq<char>, V::V>::empty(),
    {
        StringMap::new()
    }
}

impl<V: DeepView + Clone> Clone for StringMap<V> {
    fn clone(&self) -> (map: Self)
        ensures
            (forall|a: V, b: V| #[trigger] cloned(a, b) ==> a.deep_view() == b.deep_view())
                ==> map.pairs() == self.pairs() && map.deep_view() == self.deep_view(),
    {
        proof {
            use_type_invariant(self);
        }
        let mut entries: Vec<(String, V)> = Vec::new();
        let mut i: usize = 0;
        while i < self.entries.len()
            invariant
                0 <= i <= self.entries.len(),
                entries@.len() == i,
                forall|j: int|
                    0 <= j < i ==> (#[trigger] entries@[j]).0 == self.entries@[j].0 && cloned(
                        self.entries@[j].1,
                        entries@[j].1,
                    ),
            decreases self.entries.len() - i,
        {
            let value = self.entries[i].1.clone();
            entries.push((self.entries[i].0.clone(), value));
            i = i + 1;
        }
        assert(keys_in_order(entries@)) by {
            assert forall|i: int, j: int| 0 <= i < j < entries@.len() implies text::precedes(
                (#[trigger] entries@[i]).0@,
                (#[trigger] entries@[j]).0@,
            ) by {
                assert(text::precedes(self.entries@[i].0@, self.entries@[j].0@));
            }
        }
        let map = StringMap { entries };
        proof {
            if forall|a: V, b: V| #[trigger] cloned(a, b) ==> a.deep_view() == b.deep_view() {
                assert forall|j: int| 0 <= j < map.pairs().len() implies map.pairs()[j]
                    == self.pairs()[j] by {
                    assert(cloned(self.entries@[j].1, map.entries@[j].1));
                }
                assert(map.pairs() =~= self.pairs());
            }
        }
        map
    }
}

impl<V: Same> Same for StringMap<V> {
    fn is_same(&self, other: &Self) -> (r: bool) {
        let count: usize = self.len();
        let other_count: usize = other.len();
        proof {
            if self.deep_view() == other.deep_view() {
                lemma_same_map_same_pairs(self.pairs(), other.pairs());
            }
        }
        if count != other_count {
            return false;
        }
        let mut i: usize = 0;
        while i < count
            invariant
                i <= count,
                count == self.pairs().len(),
                count == other.pairs().len(),
                self.deep_view() == other.deep_view() ==> self.pairs() == other.pairs(),
                forall|j: int| 0 <= j < i ==> #[trigger] self.pairs()[j] == other.pairs()[j],
            decreases count - i,
        {
            if !text::same(self.key_at(i), other.key_at(i)) || !self.value_at(i).is_same(
                other.value_at(i),
            ) {
                return false;
            }
            assert(self.pairs()[i as int] == other.pairs()[i as int]);
            i = i + 1;
        }
        assert(self.pairs() =~= other.pairs());
        true
    }
}

/// A copy of a map of texts.
pub fn copy_of(map: &StringMap<String>) -> (r: StringMap<String>)
    ensures
        r.deep_view() == map.deep_view(),
        r.pairs() == map.pairs(),
{
    map.clone()
}

} // verus!
