//! A map with text keys, kept as a list of pairs without a repeated key.
use vstd::prelude::*;

verus! {

/// Whether `k` is a key of one of the pairs.
pub open spec fn has_key<V>(p: Seq<(String, V)>, k: Seq<char>) -> bool {
    exists|i: int| 0 <= i < p.len() && (#[trigger] p[i]).0@ == k
}

/// The index of the pair whose key is `k`.
pub open spec fn key_index<V>(p: Seq<(String, V)>, k: Seq<char>) -> int {
    choose|i: int| 0 <= i < p.len() && (#[trigger] p[i]).0@ == k
}

/// Whether no key occurs twice.
pub open spec fn distinct_keys<V>(p: Seq<(String, V)>) -> bool {
    forall|i: int, j: int| 0 <= i < j < p.len() ==> (#[trigger] p[i]).0@ != (#[trigger] p[j]).0@
}

/// The map that the pairs describe.
pub open spec fn pairs_map<V>(p: Seq<(String, V)>) -> Map<Seq<char>, V> {
    Map::new(|k: Seq<char>| has_key(p, k), |k: Seq<char>| p[key_index(p, k)].1)
}

/// A map with text keys.
pub struct StrMap<V> {
    entries: Vec<(String, V)>,
}

impl<V> View for StrMap<V> {
    type V = Map<Seq<char>, V>;

    open spec fn view(&self) -> Map<Seq<char>, V> {
        pairs_map(self.pairs())
    }
}

proof fn lemma_pair<V>(p: Seq<(String, V)>, i: int)
    requires
        distinct_keys(p),
        0 <= i < p.len(),
    ensures
        has_key(p, p[i].0@),
        key_index(p, p[i].0@) == i,
        pairs_map(p).contains_key(p[i].0@),
        pairs_map(p)[p[i].0@] == p[i].1,
{
    let j = key_index(p, p[i].0@);
    assert(0 <= j < p.len() && p[j].0@ == p[i].0@);
    if j < i {
        assert(p[j].0@ != p[i].0@);
    } else if i < j {
        assert(p[i].0@ != p[j].0@);
    }
}

/// How the pairs and the map of a `StrMap` fit together.
pub open spec fn describes<V>(p: Seq<(String, V)>, m: Map<Seq<char>, V>) -> bool {
    &&& distinct_keys(p)
    &&& forall|i: int|
        0 <= i < p.len() ==> m.contains_key((#[trigger] p[i]).0@) && m[p[i].0@] == p[i].1
    &&& forall|k: Seq<char>| #[trigger] m.contains_key(k) ==> has_key(p, k)
}

impl<V> StrMap<V> {
    #[verifier::type_invariant]
    spec fn well_formed(self) -> bool {
        distinct_keys(self.entries@)
    }

    /// The pairs in the order in which their keys came.
    pub closed spec fn pairs(&self) -> Seq<(String, V)> {
        self.entries@
    }

    /// A map without keys.
    pub fn new() -> (m: StrMap<V>)
        ensures
            m@ == Map::<Seq<char>, V>::empty(),
            m.pairs() == Seq::<(String, V)>::empty(),
    {
        let m = StrMap { entries: Vec::new() };
        assert(m@ =~= Map::<Seq<char>, V>::empty());
        m
    }

    /// The number of keys.
    pub fn len(&self) -> (n: usize)
        ensures
            n == self.pairs().len(),
            describes(self.pairs(), self@),
            n == self@.dom().len(),
            self@.dom().finite(),
    {
        proof {
            use_type_invariant(self);
            assert forall|i: int| 0 <= i < self.pairs().len() implies self@.contains_key(
                (#[trigger] self.pairs()[i]).0@,
            ) && self@[self.pairs()[i].0@] == self.pairs()[i].1 by {
                lemma_pair(self.pairs(), i);
            }
            let p = self.pairs();
            let keys = p.map_values(|e: (String, V)| e.0@);
            assert(keys.no_duplicates()) by {
                assert forall|i: int, j: int|
                    0 <= i < keys.len() && 0 <= j < keys.len() && i != j implies keys[i]
                    != keys[j] by {
                    if i < j {
                        assert(p[i].0@ != p[j].0@);
                    } else {
                        assert(p[j].0@ != p[i].0@);
                    }
                }
            }
            keys.unique_seq_to_set();
            vstd::seq_lib::seq_to_set_is_finite(keys);
            assert forall|k: Seq<char>| keys.to_set().contains(k) <==> has_key(p, k) by {
                if keys.to_set().contains(k) {
                    let i = choose|i: int| 0 <= i < keys.len() && keys[i] == k;
                    assert(p[i].0@ == k);
                }
                if has_key(p, k) {
                    let i = key_index(p, k);
                    assert(keys[i] == k);
                }
            }
            assert(self@.dom() =~= keys.to_set());
        }
        self.entries.len()
    }

    /// The key at index `i`.
    pub fn key_at(&self, i: usize) -> (k: &String)
        requires
            i < self.pairs().len(),
        ensures
            *k == self.pairs()[i as int].0,
    {
        &self.entries[i].0
    }

    /// The value at index `i`.
    pub fn value_at(&self, i: usize) -> (v: &V)
        requires
            i < self.pairs().len(),
        ensures
            *v == self.pairs()[i as int].1,
    {
        &self.entries[i].1
    }

    fn find(&self, key: &str) -> (r: Option<usize>)
        ensures
            match r {
                Some(i) => i < self.pairs().len() && self.pairs()[i as int].0@ == key@ && self@.contains_key(
                    key@,
                ) && self@[key@] == self.pairs()[i as int].1,
                None => !has_key(self.pairs(), key@) && !self@.contains_key(key@),
            },
    {
        proof {
            use_type_invariant(self);
        }
        let mut i: usize = 0;
        while i < self.entries.len()
            invariant
                i <= self.entries.len(),
                distinct_keys(self.entries@),
                forall|j: int| 0 <= j < i ==> (#[trigger] self.entries@[j]).0@ != key@,
            decreases self.entries.len() - i,
        {
            if crate::text::same_text(&self.entries[i].0, key) {
                proof {
                    lemma_pair(self.pairs(), i as int);
                }
                return Some(i);
            }
            i = i + 1;
        }
        None
    }

    /// The value under `key`.
    pub fn get(&self, key: &str) -> (r: Option<&V>)
        ensures
            match r {
                Some(v) => self@.contains_key(key@) && *v == self@[key@],
                None => !self@.contains_key(key@),
            },
    {
        match self.find(key) {
            Some(i) => Some(&self.entries[i].1),
            None => None,
        }
    }

    /// Whether `key` is in the map.
    pub fn contains_key(&self, key: &str) -> (r: bool)
        ensures
            r == self@.contains_key(key@),
    {
        self.find(key).is_some()
    }

    /// Puts `value` under `key`.
    pub fn insert(&mut self, key: String, value: V)
        ensures
            final(self)@ == old(self)@.insert(key@, value),
            old(self)@.contains_key(key@) ==> final(self).pairs().len() == old(self).pairs().len(),
            !old(self)@.contains_key(key@) ==> final(self).pairs() == old(self).pairs().push((key, value)),
    {
        proof {
            use_type_invariant(&*self);
        }
        let found = self.find(&key);
        let mut entries: Vec<(String, V)> = Vec::new();
        std::mem::swap(&mut entries, &mut self.entries);
        let ghost before = entries@;
        let ghost k = key@;
        match found {
            Some(i) => {
                entries.set(i, (key, value));
                assert forall|a: int, b: int| 0 <= a < b < entries@.len() implies (
                #[trigger] entries@[a]).0@ != (#[trigger] entries@[b]).0@ by {
                    assert(before[a].0@ != before[b].0@);
                }
            },
            None => {
                entries.push((key, value));
                assert forall|a: int, b: int| 0 <= a < b < entries@.len() implies (
                #[trigger] entries@[a]).0@ != (#[trigger] entries@[b]).0@ by {
                    if b == before.len() {
                        assert(entries@[a] == before[a]);
                    } else {
                        assert(before[a].0@ != before[b].0@);
                    }
                }
            },
        }
        self.entries = entries;
        proof {
            let now = self.entries@;
            assert forall|x: Seq<char>| has_key(now, x) <==> (has_key(before, x) || x == k) by {
                if has_key(before, x) {
                    let j = key_index(before, x);
                    assert(now[j].0@ == x);
                }
                if x == k {
                    match found {
                        Some(i) => {
                            assert(now[i as int].0@ == x);
                        },
                        None => {
                            assert(now[before.len() as int].0@ == x);
                        },
                    }
                }
                if has_key(now, x) && x != k {
                    let j = key_index(now, x);
                    assert(now[j].0@ == x);
                    assert(before[j].0@ == x);
                }
            }
            assert forall|x: Seq<char>| has_key(now, x) implies #[trigger] pairs_map(now)[x]
                == pairs_map(before).insert(k, value)[x] by {
                let j = key_index(now, x);
                lemma_pair(now, j);
                if x != k {
                    assert(before[j].0@ == x);
                    lemma_pair(before, j);
                }
            }
            assert(self@ =~= old(self)@.insert(k, value));
        }
    }

    /// Takes `key` out of the map.
    pub fn remove(&mut self, key: &str) -> (r: Option<V>)
        ensures
            final(self)@ == old(self)@.remove(key@),
            match r {
                Some(v) => old(self)@.contains_key(key@) && v == old(self)@[key@],
                None => !old(self)@.contains_key(key@),
            },
            final(self).pairs().len() <= old(self).pairs().len(),
    {
        proof {
            use_type_invariant(&*self);
        }
        let found = self.find(key);
        match found {
            None => {
                assert(self@ =~= old(self)@.remove(key@));
                None
            },
            Some(i) => {
                let mut entries: Vec<(String, V)> = Vec::new();
                std::mem::swap(&mut entries, &mut self.entries);
                let ghost before = entries@;
                let (_, value) = entries.remove(i);
                assert forall|a: int, b: int| 0 <= a < b < entries@.len() implies (
                #[trigger] entries@[a]).0@ != (#[trigger] entries@[b]).0@ by {
                    let x = if a < i { a } else { a + 1 };
                    let y = if b < i { b } else { b + 1 };
                    assert(before[x].0@ != before[y].0@);
                }
                self.entries = entries;
                proof {
                    let now = self.entries@;
                    assert forall|x: Seq<char>| has_key(now, x) <==> (has_key(before, x) && x != key@) by {
                        if has_key(now, x) {
                            let j = key_index(now, x);
                            assert(now[j].0@ == x);
                            let o = if j < i { j } else { j + 1 };
                            assert(before[o].0@ == x);
                            if x == key@ {
                                if o < i {
                                    assert(before[o].0@ != before[i as int].0@);
                                } else {
                                    assert(before[i as int].0@ != before[o].0@);
                                }
                            }
                        }
                        if has_key(before, x) && x != key@ {
                            let j = key_index(before, x);
                            assert(before[j].0@ == x);
                            let o = if j < i { j } else { j - 1 };
                            assert(now[o].0@ == x);
                        }
                    }
                    assert forall|x: Seq<char>| has_key(now, x) implies #[trigger] pairs_map(now)[x]
                        == pairs_map(before)[x] by {
                        let j = key_index(now, x);
                        assert(now[j].0@ == x);
                        lemma_pair(now, j);
                        let o = if j < i { j } else { j + 1 };
                        assert(before[o].0@ == x);
                        lemma_pair(before, o);
                    }
                    assert(self@ =~= old(self)@.remove(key@));
                }
                Some(value)
            },
        }
    }
}

} // verus!
