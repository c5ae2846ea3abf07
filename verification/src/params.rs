//! Rendered widget data.
//!
//! A render is a two-level string-keyed map: widget id to attribute name
//! to attribute value.  `ParamMap` is the flat attribute map of one
//! widget; `WidgetsData` is the full snapshot for a view.  Both are pure
//! values: their abstract views are mathematical maps over character
//! sequences, so two renders are equal exactly when every attribute of
//! every widget agrees.

use crate::table::KeyTable;
use vstd::prelude::*;

verus! {

/// The flat attribute map of one widget: attribute name to string value.
pub struct ParamMap {
    inner: KeyTable<String>,
}

impl View for ParamMap {
    type V = Map<Seq<char>, Seq<char>>;

    closed spec fn view(&self) -> Map<Seq<char>, Seq<char>> {
        Map::new(
            |k: Seq<char>| self.inner@.dom().contains(k),
            |k: Seq<char>| self.inner@[k]@,
        )
    }
}

impl ParamMap {
    /// The attribute pairs, in insertion order.
    pub closed spec fn entries(&self) -> Seq<(String, String)> {
        self.inner.entries()
    }

    /// An empty attribute map.
    pub fn new() -> (r: Self)
        ensures
            r@ == Map::<Seq<char>, Seq<char>>::empty(),
    {
        let r = ParamMap { inner: KeyTable::new() };
        proof {
            assert(r@ =~= Map::<Seq<char>, Seq<char>>::empty());
        }
        r
    }

    /// Binds attribute `k` to value `v`, overwriting an earlier binding.
    pub fn insert(&mut self, k: String, v: String)
        ensures
            final(self)@ == old(self)@.insert(k@, v@),
    {
        self.inner.insert(k, v);
        proof {
            assert(final(self)@ =~= old(self)@.insert(k@, v@));
        }
    }

    /// Looks an attribute up.
    pub fn get(&self, k: &String) -> (r: Option<&String>)
        ensures
            match r {
                Some(v) => self@.contains_key(k@) && v@ == self@[k@],
                None => !self@.contains_key(k@),
            },
    {
        self.inner.get(k)
    }

    /// How many attributes are bound.
    pub fn num_entries(&self) -> (n: usize)
        ensures
            n == self.entries().len(),
    {
        self.inner.num_entries()
    }

    /// The attribute name at position `i`, in insertion order.
    pub fn key_at(&self, i: usize) -> (k: &String)
        requires
            i < self.entries().len(),
        ensures
            *k == self.entries()[i as int].0,
    {
        self.inner.key_at(i)
    }

    /// The attribute value at position `i`, in insertion order.
    pub fn value_at(&self, i: usize) -> (v: &String)
        requires
            i < self.entries().len(),
        ensures
            *v == self.entries()[i as int].1,
    {
        self.inner.value_at(i)
    }
}

/// A full render snapshot: widget id to that widget's attribute map.
pub struct WidgetsData {
    inner: KeyTable<ParamMap>,
}

impl View for WidgetsData {
    type V = Map<Seq<char>, Map<Seq<char>, Seq<char>>>;

    closed spec fn view(&self) -> Map<Seq<char>, Map<Seq<char>, Seq<char>>> {
        Map::new(
            |k: Seq<char>| self.inner@.dom().contains(k),
            |k: Seq<char>| self.inner@[k]@,
        )
    }
}

impl WidgetsData {
    /// The widget/attribute-map pairs, in insertion order.
    pub closed spec fn entries(&self) -> Seq<(String, ParamMap)> {
        self.inner.entries()
    }

    /// An empty snapshot.
    pub fn new() -> (r: Self)
        ensures
            r@ == Map::<Seq<char>, Map<Seq<char>, Seq<char>>>::empty(),
    {
        let r = WidgetsData { inner: KeyTable::new() };
        proof {
            assert(r@ =~= Map::<Seq<char>, Map<Seq<char>, Seq<char>>>::empty());
        }
        r
    }

    /// Records the attribute map of widget `k`, overwriting an earlier one.
    pub fn insert(&mut self, k: String, v: ParamMap)
        ensures
            final(self)@ == old(self)@.insert(k@, v@),
    {
        self.inner.insert(k, v);
        proof {
            assert(final(self)@ =~= old(self)@.insert(k@, v@));
        }
    }

    /// Looks one widget's attribute map up.
    pub fn get(&self, k: &String) -> (r: Option<&ParamMap>)
        ensures
            match r {
                Some(v) => self@.contains_key(k@) && v@ == self@[k@],
                None => !self@.contains_key(k@),
            },
    {
        self.inner.get(k)
    }

    /// How many widgets the snapshot holds.
    pub fn num_entries(&self) -> (n: usize)
        ensures
            n == self.entries().len(),
    {
        self.inner.num_entries()
    }

    /// The widget id at position `i`, in insertion order.
    pub fn key_at(&self, i: usize) -> (k: &String)
        requires
            i < self.entries().len(),
        ensures
            *k == self.entries()[i as int].0,
    {
        self.inner.key_at(i)
    }

    /// The attribute map at position `i`, in insertion order.
    pub fn value_at(&self, i: usize) -> (v: &ParamMap)
        requires
            i < self.entries().len(),
        ensures
            *v == self.entries()[i as int].1,
    {
        self.inner.value_at(i)
    }
}

} // verus!
