//! A small map from keys to values, kept as a list of pairs in which no key
//! occurs twice. Keys are compared by their views.

use vstd::prelude::*;

verus! {

/// A key of a [`Table`]: a type whose values can be compared by their views.
pub trait TableKey: View + Sized {
    /// Whether two keys have the same view.
    fn same_key(&self, other: &Self) -> (r: bool)
        ensures
            r == (self@ == other@),
    ;
}

/// A map from keys to values.
#[derive(Debug)]
pub struct Table<K: TableKey, V> {
    pairs: Vec<(K, V)>,
}

/// Whether no key occurs twice in `pairs`.
pub open spec fn distinct_keys<K: TableKey, V>(pairs: Seq<(K, V)>) -> bool {
    forall|i: int, j: int|
        0 <= i < pairs.len() && 0 <= j < pairs.len() && i != j ==> (#[trigger] pairs[i]).0@ != (
        #[trigger] pairs[j]).0@
}

/// Whether `key` is the key of a pair of `pairs`.
pub open spec fn has_key<K: TableKey, V>(pairs: Seq<(K, V)>, key: K::V) -> bool {
    exists|i: int| 0 <= i < pairs.len() && (#[trigger] pairs[i]).0@ == key
}

/// An index at which `pairs` holds `key`.
pub open spec fn key_index<K: TableKey, V>(pairs: Seq<(K, V)>, key: K::V) -> int {
    choose|i: int| 0 <= i < pairs.len() && (#[trigger] pairs[i]).0@ == key
}

/// The map that a list of pairs stands for.
pub open spec fn pairs_map<K: TableKey, V>(pairs: Seq<(K, V)>) -> Map<K::V, V> {
    Map::new(|key: K::V| has_key(pairs, key), |key: K::V| pairs[key_index(pairs, key)].1)
}

impl<K: TableKey, V> Table<K, V> {
    #[verifier::type_invariant]
    spec fn keys_distinct(self) -> bool {
        distinct_keys(self.pairs@)
    }

    /// The map that the table stands for.
    pub closed spec fn map(self) -> Map<K::V, V> {
        pairs_map(self.pairs@)
    }

    /// The number of pairs.
    pub closed spec fn count(self) -> nat {
        self.pairs@.len()
    }

    /// The table with no pair.
    pub fn new() -> (r: Self)
        ensures
            r.map() == Map::<K::V, V>::empty(),
            r.count() == 0,
    {
        let r = Table { pairs: Vec::new() };
        assert(r.map() =~= Map::<K::V, V>::empty());
        r
    }

    /// The number of pairs.
    pub fn len(&self) -> (r: usize)
        ensures
            r == self.count(),
            self.map().dom().finite(),
            self.map().dom().len() == r,
    {
        proof {
            use_type_invariant(self);
            lemma_pairs_dom(self.pairs@);
        }
        self.pairs.len()
    }

    /// The index of the pair with the key `key`, if there is one.
    fn position(&self, key: &K) -> (r: Option<usize>)
        ensures
            match r {
                Some(i) => i < self.pairs@.len() && self.pairs@[i as int].0@ == key@,
                None => !has_key(self.pairs@, key@),
            },
    {
        let mut i: usize = 0;
        while i < self.pairs.len()
            invariant
                i <= self.pairs.len(),
                forall|k: int| 0 <= k < i ==> (#[trigger] self.pairs@[k]).0@ != key@,
            decreases self.pairs.len() - i,
        {
            if self.pairs[i].0.same_key(key) {
                return Some(i);
            }
            i += 1;
        }
        None
    }

    /// The value of `key`, if the table has one.
    pub fn get(&self, key: &K) -> (r: Option<&V>)
        ensures
            match r {
                Some(v) => self.map().contains_key(key@) && self.map()[key@] == *v,
                None => !self.map().contains_key(key@),
            },
    {
        proof {
            use_type_invariant(self);
        }
        match self.position(key) {
            Some(i) => {
                proof {
                    lemma_key_index(self.pairs@, i as int);
                }
                Some(&self.pairs[i].1)
            },
            None => None,
        }
    }

    /// Whether the table has a value for `key`.
    pub fn contains_key(&self, key: &K) -> (r: bool)
        ensures
            r == self.map().contains_key(key@),
    {
        self.position(key).is_some()
    }

    /// Sets the value of `key`, in place of the one it had, if any.
    pub fn insert(&mut self, key: K, value: V)
        ensures
            final(self).map() == old(self).map().insert(key@, value),
    {
        proof {
            use_type_invariant(&*self);
        }
        let ghost before = self.pairs@;
        let found = self.position(&key);
        let mut pairs: Vec<(K, V)> = Vec::new();
        core::mem::swap(&mut self.pairs, &mut pairs);
        match found {
            Some(i) => {
                pairs.remove(i);
                pairs.push((key, value));
                proof {
                    let after = pairs@;
                    assert(after =~= before.remove(i as int).push((key, value)));
                    assert forall|a: int, b: int|
                        0 <= a < after.len() && 0 <= b < after.len() && a != b implies (
                    #[trigger] after[a]).0@ != (#[trigger] after[b]).0@ by {
                        let x = if a < i { a } else { a + 1 };
                        let y = if b < i { b } else { b + 1 };
                        if a == after.len() - 1 {
                            assert(before[y].0@ != before[i as int].0@);
                        } else if b == after.len() - 1 {
                            assert(before[x].0@ != before[i as int].0@);
                        } else {
                            assert(before[x].0@ != before[y].0@);
                        }
                    }
                    assert forall|j: int|
                        0 <= j < before.len() && (#[trigger] before[j]).0@ != key@ implies after.contains(
                        before[j],
                    ) by {
                        let a = if j < i { j } else { j - 1 };
                        assert(after[a] == before[j]);
                    }
                    assert forall|a: int| 0 <= a < after.len() - 1 implies before.contains(
                        #[trigger] after[a],
                    ) by {
                        let j = if a < i { a } else { a + 1 };
                        assert(before[j] == after[a]);
                    }
                    lemma_insert_map(before, after, key, value);
                }
            },
            None => {
                pairs.push((key, value));
                proof {
                    let after = pairs@;
                    assert(after =~= before.push((key, value)));
                    assert forall|a: int, b: int|
                        0 <= a < after.len() && 0 <= b < after.len() && a != b implies (
                    #[trigger] after[a]).0@ != (#[trigger] after[b]).0@ by {
                        if a < before.len() && b < before.len() {
                            assert(before[a].0@ != before[b].0@);
                        } else if a < before.len() {
                            assert(before[a].0@ != key@);
                        } else {
                            assert(before[b].0@ != key@);
                        }
                    }
                    assert forall|j: int|
                        0 <= j < before.len() && (#[trigger] before[j]).0@ != key@ implies after.contains(
                        before[j],
                    ) by {
                        assert(after[j] == before[j]);
                    }
                    assert forall|a: int| 0 <= a < after.len() - 1 implies before.contains(
                        #[trigger] after[a],
                    ) by {
                        assert(before[a] == after[a]);
                    }
                    lemma_insert_map(before, after, key, value);
                }
            },
        }
        self.pairs = pairs;
    }

    /// Takes the value of `key` out of the table, if it has one.
    pub fn remove(&mut self, key: &K) -> (r: Option<V>)
        ensures
            final(self).map() == old(self).map().remove(key@),
            match r {
                Some(v) => old(self).map().contains_key(key@) && old(self).map()[key@] == v,
                None => !old(self).map().contains_key(key@),
            },
    {
        proof {
            use_type_invariant(&*self);
        }
        let ghost before = self.pairs@;
        match self.position(key) {
            Some(i) => {
                let mut pairs: Vec<(K, V)> = Vec::new();
                core::mem::swap(&mut self.pairs, &mut pairs);
                let pair = pairs.remove(i);
                proof {
                    let after = pairs@;
                    assert(after =~= before.remove(i as int));
                    lemma_key_index(before, i as int);
                    assert forall|a: int, b: int|
                        0 <= a < after.len() && 0 <= b < after.len() && a != b implies (
                    #[trigger] after[a]).0@ != (#[trigger] after[b]).0@ by {
                        let x = if a < i { a } else { a + 1 };
                        let y = if b < i { b } else { b + 1 };
                        assert(before[x].0@ != before[y].0@);
                    }
                    lemma_remove_map(before, after, i as int);
                }
                self.pairs = pairs;
                Some(pair.1)
            },
            None => {
                assert(self.map() =~= old(self).map().remove(key@));
                None
            },
        }
    }

    /// The pair at `index`, in the order in which the table holds its pairs.
    pub fn entry(&self, index: usize) -> (r: &(K, V))
        requires
            index < self.count(),
        ensures
            self.map().contains_key(r.0@),
            self.map()[r.0@] == r.1,
    {
        proof {
            use_type_invariant(self);
            lemma_key_index(self.pairs@, index as int);
        }
        &self.pairs[index]
    }
}

/// In a list without a repeated key, the index of a key is the one index at
/// which it stands.
pub proof fn lemma_key_index<K: TableKey, V>(pairs: Seq<(K, V)>, i: int)
    requires
        distinct_keys(pairs),
        0 <= i < pairs.len(),
    ensures
        has_key(pairs, pairs[i].0@),
        key_index(pairs, pairs[i].0@) == i,
        pairs_map(pairs).contains_key(pairs[i].0@),
        pairs_map(pairs)[pairs[i].0@] == pairs[i].1,
{
    let key = pairs[i].0@;
    assert(0 <= i < pairs.len() && pairs[i].0@ == key);
    let k = key_index(pairs, key);
    assert(0 <= k < pairs.len() && pairs[k].0@ == key);
    if k != i {
        assert(pairs[k].0@ != pairs[i].0@);
    }
}

/// A list without a repeated key stands for a map of as many keys as it has
/// pairs.
pub proof fn lemma_pairs_dom<K: TableKey, V>(pairs: Seq<(K, V)>)
    requires
        distinct_keys(pairs),
    ensures
        pairs_map(pairs).dom().finite(),
        pairs_map(pairs).dom().len() == pairs.len(),
    decreases pairs.len(),
{
    if pairs.len() == 0 {
        assert(pairs_map(pairs).dom() =~= Set::<K::V>::empty());
    } else {
        let last = pairs.last();
        let front = pairs.drop_last();
        assert forall|i: int, j: int|
            0 <= i < front.len() && 0 <= j < front.len() && i != j implies (#[trigger] front[i]).0@
            != (#[trigger] front[j]).0@ by {
            assert(pairs[i].0@ != pairs[j].0@);
        }
        lemma_pairs_dom(front);
        assert(!has_key(front, last.0@)) by {
            if has_key(front, last.0@) {
                let k = key_index(front, last.0@);
                assert(pairs[k].0@ != pairs[pairs.len() - 1].0@);
            }
        }
        assert(pairs_map(pairs).dom() =~= pairs_map(front).dom().insert(last.0@)) by {
            assert forall|key: K::V| pairs_map(pairs).dom().contains(key) implies pairs_map(
                front,
            ).dom().insert(last.0@).contains(key) by {
                let k = key_index(pairs, key);
                if k < front.len() {
                    assert(front[k].0@ == key);
                }
            }
            assert forall|key: K::V|
                pairs_map(front).dom().insert(last.0@).contains(key) implies pairs_map(
                pairs,
            ).dom().contains(key) by {
                if key == last.0@ {
                    assert(pairs[pairs.len() - 1].0@ == key);
                } else {
                    let k = key_index(front, key);
                    assert(pairs[k].0@ == key);
                }
            }
        }
    }
}

/// Replacing the pair of a key, or adding a pair for a new key, is an insert
/// into the map.
proof fn lemma_insert_map<K: TableKey, V>(before: Seq<(K, V)>, after: Seq<(K, V)>, key: K, value: V)
    requires
        distinct_keys(before),
        distinct_keys(after),
        after.len() > 0,
        after.last() == (key, value),
        forall|i: int| 0 <= i < after.len() - 1 ==> before.contains(#[trigger] after[i]),
        forall|i: int|
            0 <= i < before.len() && (#[trigger] before[i]).0@ != key@ ==> after.contains(before[i]),
    ensures
        pairs_map(after) =~= pairs_map(before).insert(key@, value),
{
    let goal = pairs_map(before).insert(key@, value);
    lemma_key_index(after, after.len() - 1);
    assert forall|k: K::V| pairs_map(after).contains_key(k) implies goal.contains_key(k)
        && pairs_map(after)[k] == goal[k] by {
        let i = key_index(after, k);
        lemma_key_index(after, i);
        if i < after.len() - 1 {
            assert(before.contains(after[i]));
            let j = choose|j: int| 0 <= j < before.len() && before[j] == after[i];
            lemma_key_index(before, j);
            assert(after[i].0@ != after[after.len() - 1].0@);
        }
    }
    assert forall|k: K::V| goal.contains_key(k) implies pairs_map(after).contains_key(k) by {
        if k != key@ {
            let j = key_index(before, k);
            assert(after.contains(before[j]));
            let i = choose|i: int| 0 <= i < after.len() && after[i] == before[j];
            lemma_key_index(after, i);
        }
    }
}

/// Taking a pair out of the list removes its key from the map.
proof fn lemma_remove_map<K: TableKey, V>(before: Seq<(K, V)>, after: Seq<(K, V)>, i: int)
    requires
        distinct_keys(before),
        distinct_keys(after),
        0 <= i < before.len(),
        after == before.remove(i),
    ensures
        pairs_map(after) =~= pairs_map(before).remove(before[i].0@),
{
    let key = before[i].0@;
    let goal = pairs_map(before).remove(key);
    assert forall|k: K::V| pairs_map(after).contains_key(k) implies goal.contains_key(k)
        && pairs_map(after)[k] == goal[k] by {
        let a = key_index(after, k);
        lemma_key_index(after, a);
        let b = if a < i { a } else { a + 1 };
        assert(before[b] == after[a]);
        lemma_key_index(before, b);
        assert(before[b].0@ != before[i].0@);
    }
    assert forall|k: K::V| goal.contains_key(k) implies pairs_map(after).contains_key(k) by {
        let b = key_index(before, k);
        lemma_key_index(before, b);
        let a = if b < i { b } else { b - 1 };
        assert(after[a] == before[b]);
        lemma_key_index(after, a);
    }
}

} // verus!
