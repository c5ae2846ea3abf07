//! A small string-keyed association table.
//!
//! Every string-keyed mapping in this crate is backed by this type: the
//! rendered attributes of one widget, the widget table of a view, and the
//! slots of the resource registry.  Its abstract value is the `Map` from
//! key views to values; each key is held at most once.

use vstd::prelude::*;

verus! {

/// The map described by a sequence of key/value pairs: pairs are entered
/// in order, so a later pair overwrites an earlier one with the same key.
pub open spec fn pairs_map<V>(s: Seq<(String, V)>) -> Map<Seq<char>, V>
    decreases s.len(),
{
    if s.len() == 0 {
        Map::empty()
    } else {
        pairs_map(s.drop_last()).insert(s.last().0@, s.last().1)
    }
}

/// No two pairs of `s` share a key.
pub open spec fn distinct_keys<V>(s: Seq<(String, V)>) -> bool {
    forall|i: int, j: int| 0 <= i < j < s.len() ==> s[i].0@ != s[j].0@
}

/// A lookup table from string keys to values of type `V`.
pub struct KeyTable<V> {
    pairs: Vec<(String, V)>,
}

impl<V> View for KeyTable<V> {
    type V = Map<Seq<char>, V>;

    closed spec fn view(&self) -> Map<Seq<char>, V> {
        pairs_map(self.pairs@)
    }
}

proof fn lemma_pairs_map_contains<V>(s: Seq<(String, V)>, k: Seq<char>)
    ensures
        pairs_map(s).contains_key(k) <==> (exists|i: int| 0 <= i < s.len() && s[i].0@ == k),
    decreases s.len(),
{
    if s.len() > 0 {
        lemma_pairs_map_contains(s.drop_last(), k);
        if s.last().0@ == k {
            assert(s[s.len() - 1].0@ == k);
        } else if pairs_map(s).contains_key(k) {
            let i = choose|i: int| 0 <= i < s.drop_last().len() && s.drop_last()[i].0@ == k;
            assert(s[i].0@ == k);
        } else if exists|i: int| 0 <= i < s.len() && s[i].0@ == k {
            let i = choose|i: int| 0 <= i < s.len() && s[i].0@ == k;
            assert(s.drop_last()[i].0@ == k);
        }
    }
}

proof fn lemma_pairs_map_value<V>(s: Seq<(String, V)>, i: int)
    requires
        0 <= i < s.len(),
        forall|j: int| i < j < s.len() ==> s[j].0@ != s[i].0@,
    ensures
        pairs_map(s).contains_key(s[i].0@),
        pairs_map(s)[s[i].0@] == s[i].1,
    decreases s.len(),
{
    if i == s.len() - 1 {
    } else {
        assert(s.drop_last()[i] == s[i]);
        lemma_pairs_map_value(s.drop_last(), i);
    }
}

proof fn lemma_pairs_map_remove<V>(s: Seq<(String, V)>, i: int)
    requires
        0 <= i < s.len(),
        distinct_keys(s),
    ensures
        pairs_map(s.remove(i)) == pairs_map(s).remove(s[i].0@),
    decreases s.len(),
{
    let k = s[i].0@;
    if i == s.len() - 1 {
        assert(s.remove(i) =~= s.drop_last());
        lemma_pairs_map_contains(s.drop_last(), k);
        assert(forall|j: int| 0 <= j < s.drop_last().len() ==> s.drop_last()[j].0@ != k);
        assert(pairs_map(s.drop_last()) =~= pairs_map(s.drop_last()).insert(k, s[i].1).remove(k));
    } else {
        let s0 = s.drop_last();
        assert(distinct_keys(s0));
        lemma_pairs_map_remove(s0, i);
        assert(s.remove(i).drop_last() =~= s0.remove(i));
        assert(s.remove(i).last() == s.last());
        assert(s.remove(i).len() > 0);
        assert(pairs_map(s.remove(i)) == pairs_map(s0.remove(i)).insert(s.last().0@, s.last().1));
        assert(s.last().0@ != k);
        assert(pairs_map(s0).remove(k).insert(s.last().0@, s.last().1) =~= pairs_map(
            s0,
        ).insert(s.last().0@, s.last().1).remove(k));
    }
}

/// Removing the one pair that holds key `s[i].0@` and appending a new
/// pair under the same key keeps the keys distinct.
proof fn lemma_remove_push_distinct<V>(s: Seq<(String, V)>, i: int, p: (String, V))
    requires
        0 <= i < s.len(),
        distinct_keys(s),
        p.0@ == s[i].0@,
    ensures
        distinct_keys(s.remove(i).push(p)),
{
    let s2 = s.remove(i).push(p);
    assert forall|a: int, b: int| 0 <= a < b < s2.len() implies s2[a].0@ != s2[b].0@ by {
        let s1 = s.remove(i);
        if b < s2.len() - 1 {
            assert(s2[a] == s1[a] && s2[b] == s1[b]);
            assert(s1[a] == if a < i { s[a] } else { s[a + 1] });
            assert(s1[b] == if b < i { s[b] } else { s[b + 1] });
        } else {
            assert(s2[a] == s1[a]);
            assert(s1[a] == if a < i { s[a] } else { s[a + 1] });
            assert(s2[b].0@ == s[i].0@);
        }
    }
}

impl<V> KeyTable<V> {
    #[verifier::type_invariant]
    spec fn wf(self) -> bool {
        distinct_keys(self.pairs@)
    }

    /// The pairs of the table, in insertion order.
    pub closed spec fn entries(&self) -> Seq<(String, V)> {
        self.pairs@
    }

    /// The abstract map is exactly the map of the entry sequence, and
    /// the entry keys are distinct.  An executable no-op: the facts come
    /// from the table's type invariant, which only an executable value
    /// carries.
    pub fn entry_facts(&self)
        ensures
            self@ == pairs_map(self.entries()),
            distinct_keys(self.entries()),
    {
        proof {
            use_type_invariant(self);
        }
    }

    /// An empty table.
    pub fn new() -> (r: Self)
        ensures
            r@ == Map::<Seq<char>, V>::empty(),
            r.entries() == Seq::<(String, V)>::empty(),
    {
        KeyTable { pairs: Vec::new() }
    }

    fn find(&self, k: &String) -> (r: Option<usize>)
        ensures
            match r {
                Some(i) => i < self.pairs@.len() && self.pairs@[i as int].0@ == k@,
                None => forall|j: int| 0 <= j < self.pairs@.len() ==> self.pairs@[j].0@ != k@,
            },
    {
        let n = self.pairs.len();
        let mut i: usize = 0;
        while i < n
            invariant
                n == self.pairs@.len(),
                i <= n,
                forall|j: int| 0 <= j < i ==> self.pairs@[j].0@ != k@,
            decreases n - i,
        {
            if self.pairs[i].0 == *k {
                return Some(i);
            }
            i = i + 1;
        }
        None
    }

    /// Binds `k` to `v`, overwriting any earlier binding of the same key.
    pub fn insert(&mut self, k: String, v: V)
        ensures
            final(self)@ == old(self)@.insert(k@, v),
    {
        proof {
            use_type_invariant(&*self);
        }
        let idx = self.find(&k);
        let mut pairs: Vec<(String, V)> = Vec::new();
        std::mem::swap(&mut pairs, &mut self.pairs);
        let ghost s0 = pairs@;
        match idx {
            Some(i) => {
                let _prev = pairs.remove(i);
                pairs.push((k, v));
                proof {
                    lemma_pairs_map_remove(s0, i as int);
                    assert(pairs@.drop_last() =~= s0.remove(i as int));
                    assert(pairs_map(pairs@) == pairs_map(s0).remove(k@).insert(k@, v));
                    assert(pairs_map(s0).remove(k@).insert(k@, v) =~= pairs_map(s0).insert(k@, v));
                    lemma_remove_push_distinct(s0, i as int, pairs@.last());
                    assert(pairs@ == s0.remove(i as int).push(pairs@.last()));
                }
            },
            None => {
                pairs.push((k, v));
                proof {
                    assert(pairs@.drop_last() =~= s0);
                    assert(pairs_map(pairs@) == pairs_map(s0).insert(k@, v));
                    assert forall|a: int, b: int| 0 <= a < b < pairs@.len() implies pairs@[a].0@
                        != pairs@[b].0@ by {
                        if b < pairs@.len() - 1 {
                            assert(pairs@[a] == s0[a] && pairs@[b] == s0[b]);
                        } else {
                            assert(pairs@[a] == s0[a]);
                        }
                    }
                }
            },
        }
        self.pairs = pairs;
    }

    /// Replaces the value bound to `k` with `v` and hands the previous
    /// value back; if `k` is not bound, the table is unchanged (and `v`
    /// is dropped).
    pub fn replace(&mut self, k: &String, v: V) -> (r: Option<V>)
        ensures
            match r {
                Some(prev) => old(self)@.contains_key(k@) && prev == old(self)@[k@]
                    && final(self)@ == old(self)@.insert(k@, v),
                None => !old(self)@.contains_key(k@) && final(self)@ == old(self)@,
            },
    {
        proof {
            use_type_invariant(&*self);
        }
        let idx = self.find(&k);
        match idx {
            Some(i) => {
                let mut pairs: Vec<(String, V)> = Vec::new();
                std::mem::swap(&mut pairs, &mut self.pairs);
                let ghost s0 = pairs@;
                proof {
                    lemma_pairs_map_value(s0, i as int);
                    lemma_pairs_map_remove(s0, i as int);
                }
                let (prev_k, prev_v) = pairs.remove(i);
                pairs.push((prev_k, v));
                proof {
                    assert(pairs@.drop_last() =~= s0.remove(i as int));
                    assert(pairs_map(pairs@) == pairs_map(s0).remove(k@).insert(k@, v));
                    assert(pairs_map(s0).remove(k@).insert(k@, v) =~= pairs_map(s0).insert(k@, v));
                    lemma_remove_push_distinct(s0, i as int, pairs@.last());
                    assert(pairs@ == s0.remove(i as int).push(pairs@.last()));
                }
                self.pairs = pairs;
                Some(prev_v)
            },
            None => {
                proof {
                    lemma_pairs_map_contains(self.pairs@, k@);
                }
                None
            },
        }
    }

    /// Looks a key up.
    pub fn get(&self, k: &String) -> (r: Option<&V>)
        ensures
            match r {
                Some(v) => self@.contains_key(k@) && *v == self@[k@],
                None => !self@.contains_key(k@),
            },
    {
        proof {
            use_type_invariant(self);
        }
        match self.find(k) {
            Some(i) => {
                proof {
                    lemma_pairs_map_value(self.pairs@, i as int);
                }
                Some(&self.pairs[i].1)
            },
            None => {
                proof {
                    lemma_pairs_map_contains(self.pairs@, k@);
                }
                None
            },
        }
    }

    /// How many entries the table holds.
    pub fn num_entries(&self) -> (n: usize)
        ensures
            n == self.entries().len(),
    {
        self.pairs.len()
    }

    /// The key of the entry at position `i`.
    pub fn key_at(&self, i: usize) -> (k: &String)
        requires
            i < self.entries().len(),
        ensures
            *k == self.entries()[i as int].0,
    {
        &self.pairs[i].0
    }

    /// The value of the entry at position `i`.
    pub fn value_at(&self, i: usize) -> (v: &V)
        requires
            i < self.entries().len(),
        ensures
            *v == self.entries()[i as int].1,
    {
        &self.pairs[i].1
    }
}

} // verus!
