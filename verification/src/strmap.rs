//! A small map from text to text that remembers the order of insertion.

use vstd::prelude::*;
use crate::text::{same, to_chars};

verus! {

/// The pairs of a map, as mathematical values.
pub type Pairs = Seq<(Seq<char>, Seq<char>)>;

/// No key occurs twice among `p`.
pub open spec fn distinct_keys(p: Pairs) -> bool {
    forall|i: int, j: int| 0 <= i < j < p.len() ==> p[i].0 != p[j].0
}

/// The index of the pair with key `k`, if there is one.
pub open spec fn key_index(p: Pairs, k: Seq<char>) -> Option<int>
    decreases p.len(),
{
    if p.len() == 0 {
        None
    } else if p.last().0 == k {
        Some(p.len() - 1)
    } else {
        key_index(p.drop_last(), k)
    }
}

/// The value stored under `k`, if there is one.
pub open spec fn lookup(p: Pairs, k: Seq<char>) -> Option<Seq<char>> {
    match key_index(p, k) {
        Some(i) => Some(p[i].1),
        None => None,
    }
}

/// `p` after storing `v` under `k`: the value is replaced where the key is
/// present, and the pair is added at the end where it is not.
pub open spec fn put(p: Pairs, k: Seq<char>, v: Seq<char>) -> Pairs {
    match key_index(p, k) {
        Some(i) => p.update(i, (k, v)),
        None => p.push((k, v)),
    }
}

/// `key_index` finds a pair with the key, and finds none only where there is
/// none.
pub proof fn lemma_key_index(p: Pairs, k: Seq<char>)
    ensures
        key_index(p, k) matches Some(i) ==> 0 <= i < p.len() && p[i].0 == k && forall|j: int|
            i < j < p.len() ==> (#[trigger] p[j]).0 != k,
        key_index(p, k) is None ==> forall|j: int| 0 <= j < p.len() ==> (#[trigger] p[j]).0 != k,
    decreases p.len(),
{
    if p.len() > 0 && p.last().0 != k {
        let q = p.drop_last();
        lemma_key_index(q, k);
        assert forall|j: int| 0 <= j < q.len() implies q[j] == #[trigger] p[j] by {}
    }
}

/// The last pair with key `k` is the one that `key_index` finds.
pub proof fn lemma_key_index_is(p: Pairs, k: Seq<char>, i: int)
    requires
        0 <= i < p.len(),
        p[i].0 == k,
        forall|j: int| i < j < p.len() ==> (#[trigger] p[j]).0 != k,
    ensures
        key_index(p, k) == Some(i),
    decreases p.len(),
{
    if i < p.len() - 1 {
        let q = p.drop_last();
        assert(p.last() == p[p.len() - 1]);
        assert forall|j: int| i < j < q.len() implies (#[trigger] q[j]).0 != k by {
            assert(q[j] == p[j]);
        }
        lemma_key_index_is(q, k, i);
    }
}

/// Where no pair has key `k`, `key_index` finds none.
pub proof fn lemma_key_index_none(p: Pairs, k: Seq<char>)
    requires
        forall|j: int| 0 <= j < p.len() ==> (#[trigger] p[j]).0 != k,
    ensures
        key_index(p, k) is None,
    decreases p.len(),
{
    if p.len() > 0 {
        let q = p.drop_last();
        assert(p.last() == p[p.len() - 1]);
        assert forall|j: int| 0 <= j < q.len() implies (#[trigger] q[j]).0 != k by {
            assert(q[j] == p[j]);
        }
        lemma_key_index_none(q, k);
    }
}

/// Storing a value keeps the keys distinct, makes the key find the value, and
/// leaves every other key as it was.
pub proof fn lemma_put(p: Pairs, k: Seq<char>, v: Seq<char>)
    requires
        distinct_keys(p),
    ensures
        distinct_keys(put(p, k, v)),
        lookup(put(p, k, v), k) == Some(v),
        forall|other: Seq<char>| other != k ==> lookup(put(p, k, v), other) == lookup(p, other),
{
    let q = put(p, k, v);
    lemma_key_index(p, k);
    match key_index(p, k) {
        Some(i) => {
            assert forall|j: int| 0 <= j < q.len() implies (#[trigger] q[j]).0 == p[j].0 by {}
            lemma_key_index_is(q, k, i);
            assert forall|other: Seq<char>| other != k implies lookup(q, other) == lookup(
                p,
                other,
            ) by {
                lemma_key_index(p, other);
                match key_index(p, other) {
                    Some(m) => {
                        assert(q[m] == p[m]);
                        lemma_key_index_is(q, other, m);
                    },
                    None => {
                        lemma_key_index_none(q, other);
                    },
                }
            }
        },
        None => {
            assert(q.last() == (k, v));
            assert(q.drop_last() == p);
            assert forall|i: int, j: int| 0 <= i < j < q.len() implies q[i].0 != q[j].0 by {
                assert(q[i] == p[i]);
                if j < p.len() {
                    assert(q[j] == p[j]);
                }
            }
            assert forall|other: Seq<char>| other != k implies lookup(q, other) == lookup(
                p,
                other,
            ) by {
                lemma_key_index(p, other);
            }
        },
    }
}

/// A map from text to text. Keys are compared as texts; a key is stored once
/// (`distinct_keys`, which `new` establishes and `insert` keeps); the pairs
/// keep the order in which their keys first came.
pub struct StringMap {
    entries: Vec<(String, String)>,
}

impl View for StringMap {
    type V = Pairs;

    closed spec fn view(&self) -> Pairs {
        Seq::new(self.entries@.len(), |i: int| (self.entries@[i].0@, self.entries@[i].1@))
    }
}

impl StringMap {
    /// The empty map.
    pub fn new() -> (m: StringMap)
        ensures
            m@ == Pairs::empty(),
            distinct_keys(m@),
    {
        let m = StringMap { entries: Vec::new() };
        assert(m@ == Pairs::empty());
        m
    }

    /// The number of pairs.
    pub fn len(&self) -> (n: usize)
        ensures
            n == self@.len(),
    {
        self.entries.len()
    }

    /// Whether the map holds no pair.
    pub fn is_empty(&self) -> (b: bool)
        ensures
            b == (self@.len() == 0),
    {
        self.entries.len() == 0
    }

    fn position(&self, key: &Vec<char>) -> (r: Option<usize>)
        ensures
            match r {
                Some(i) => key_index(self@, key@) == Some(i as int) && i < self.entries@.len(),
                None => key_index(self@, key@) is None,
            },
    {
        let mut i: usize = self.entries.len();
        assert(self@.take(i as int) == self@);
        while i > 0
            invariant
                i <= self.entries@.len(),
                key_index(self@, key@) == key_index(self@.take(i as int), key@),
            decreases i,
        {
            let k = to_chars(self.entries[i - 1].0.as_str());
            assert(self@.take(i as int).last().0 == k@);
            if same(&k, key) {
                return Some(i - 1);
            }
            assert(self@.take(i as int).drop_last() == self@.take(i - 1));
            i -= 1;
        }
        None
    }

    /// Whether a value is stored under `key`.
    pub fn contains_key(&self, key: &str) -> (b: bool)
        ensures
            b == lookup(self@, key@).is_some(),
    {
        let k = to_chars(key);
        self.position(&k).is_some()
    }

    /// The value stored under `key`.
    pub fn get(&self, key: &str) -> (r: Option<&String>)
        ensures
            match r {
                Some(v) => lookup(self@, key@) == Some(v@),
                None => lookup(self@, key@) is None,
            },
    {
        let k = to_chars(key);
        match self.position(&k) {
            Some(i) => Some(&self.entries[i].1),
            None => None,
        }
    }

    /// Stores `value` under `key`, in place of the value that was there, or as
    /// a new last pair.
    pub fn insert(&mut self, key: String, value: String)
        ensures
            final(self)@ == put(old(self)@, key@, value@),
            distinct_keys(old(self)@) ==> distinct_keys(final(self)@),
    {
        proof {
            if distinct_keys(self@) {
                lemma_put(self@, key@, value@);
            }
        }
        let k = to_chars(key.as_str());
        let ghost before = self@;
        match self.position(&k) {
            Some(i) => {
                self.entries.set(i, (key, value));
                assert(self@ == before.update(i as int, (key@, value@)));
            },
            None => {
                self.entries.push((key, value));
                assert(self@ == before.push((key@, value@)));
            },
        }
    }

    /// The key and the value of the pair at `index`.
    pub fn entry(&self, index: usize) -> (r: (&String, &String))
        requires
            index < self@.len(),
        ensures
            (r.0@, r.1@) == self@[index as int],
    {
        (&self.entries[index].0, &self.entries[index].1)
    }

    /// A copy that holds the same pairs.
    pub fn duplicate(&self) -> (m: StringMap)
        ensures
            m@ == self@,
    {
        let mut entries: Vec<(String, String)> = Vec::new();
        let mut i: usize = 0;
        while i < self.entries.len()
            invariant
                i <= self.entries@.len(),
                entries@.len() == i,
                forall|j: int|
                    0 <= j < i ==> (#[trigger] entries@[j]).0@ == self.entries@[j].0@
                        && entries@[j].1@ == self.entries@[j].1@,
            decreases self.entries.len() - i,
        {
            entries.push((self.entries[i].0.clone(), self.entries[i].1.clone()));
            i += 1;
        }
        let m = StringMap { entries };
        assert(m@ == self@);
        m
    }
}

} // verus!
