//! A map from text keys to values that keeps its entries in insertion
//! order, with no key held twice.
use vstd::prelude::*;
use crate::text::text_eq;

verus! {

/// Values that can be copied with their view kept.
pub trait Duplicate: View + Sized {
    fn duplicate(&self) -> (r: Self)
        ensures
            r@ == self@,
    ;
}

/// No key of `m` occurs twice.
pub open spec fn distinct_keys<T>(m: Seq<(Seq<char>, T)>) -> bool {
    forall|i: int, j: int|
        0 <= i < m.len() && 0 <= j < m.len() && i != j ==> #[trigger] m[i].0 != #[trigger] m[j].0
}

/// `k` is a key of `m`.
pub open spec fn has_key<T>(m: Seq<(Seq<char>, T)>, k: Seq<char>) -> bool {
    exists|i: int| 0 <= i < m.len() && #[trigger] m[i].0 == k
}

/// The position of key `k` in `m`, where it is a key.
pub open spec fn index_of<T>(m: Seq<(Seq<char>, T)>, k: Seq<char>) -> int {
    choose|i: int| 0 <= i < m.len() && #[trigger] m[i].0 == k
}

/// The value under `k`, if `k` is a key.
pub open spec fn lookup<T>(m: Seq<(Seq<char>, T)>, k: Seq<char>) -> Option<T> {
    if has_key(m, k) {
        Some(m[index_of(m, k)].1)
    } else {
        None
    }
}

/// `m` with `v` under `k`: in place where `k` is a key, at the end where not.
pub open spec fn insert_spec<T>(m: Seq<(Seq<char>, T)>, k: Seq<char>, v: T) -> Seq<(Seq<char>, T)> {
    if has_key(m, k) {
        m.update(index_of(m, k), (k, v))
    } else {
        m.push((k, v))
    }
}

/// `m` without the entry under `k`.
pub open spec fn remove_spec<T>(m: Seq<(Seq<char>, T)>, k: Seq<char>) -> Seq<(Seq<char>, T)> {
    if has_key(m, k) {
        m.remove(index_of(m, k))
    } else {
        m
    }
}

/// The keys of `m`, in order.
pub open spec fn keys_of<T>(m: Seq<(Seq<char>, T)>) -> Seq<Seq<char>> {
    m.map_values(|e: (Seq<char>, T)| e.0)
}

/// In a map without repeated keys, the entry at `i` is the one its key finds.
pub proof fn lemma_index_of_unique<T>(m: Seq<(Seq<char>, T)>, i: int)
    requires
        distinct_keys(m),
        0 <= i < m.len(),
    ensures
        has_key(m, m[i].0),
        index_of(m, m[i].0) == i,
        lookup(m, m[i].0) == Some(m[i].1),
{
    assert(has_key(m, m[i].0));
    let j: int = index_of(m, m[i].0);
    assert(m[j].0 == m[i].0);
}

/// A map from text keys to values, in insertion order, with distinct keys.
pub struct StrMap<V: View> {
    entries: Vec<(String, V)>,
}

impl<V: View> View for StrMap<V> {
    type V = Seq<(Seq<char>, V::V)>;

    closed spec fn view(&self) -> Seq<(Seq<char>, V::V)> {
        self.entries@.map_values(|e: (String, V)| (e.0@, e.1@))
    }
}

impl<V: View> StrMap<V> {
    #[verifier::type_invariant]
    closed spec fn keys_distinct(self) -> bool {
        distinct_keys(self@)
    }

    /// Every map keeps its keys distinct.
    pub fn keys_are_distinct(&self)
        ensures
            distinct_keys(self@),
    {
        proof {
            use_type_invariant(self);
        }
    }

    /// The empty map.
    pub fn new() -> (m: Self)
        ensures
            m@ == Seq::<(Seq<char>, V::V)>::empty(),
    {
        let m = StrMap { entries: Vec::new() };
        assert(m@ =~= Seq::<(Seq<char>, V::V)>::empty());
        m
    }

    /// The number of entries.
    pub fn len(&self) -> (n: usize)
        ensures
            n == self@.len(),
    {
        self.entries.len()
    }

    /// The keys, in order.
    pub fn keys(&self) -> (r: Vec<String>)
        ensures
            r.deep_view() == keys_of(self@),
    {
        let mut r: Vec<String> = Vec::new();
        let mut i: usize = 0;
        while i < self.entries.len()
            invariant
                i <= self@.len(),
                self@.len() == self.entries@.len(),
                r@.len() == i,
                forall|j: int| 0 <= j < i ==> #[trigger] r@[j]@ == self@[j].0,
            decreases self.entries.len() - i,
        {
            r.push(self.entries[i].0.clone());
            i = i + 1;
        }
        assert(r.deep_view() =~= keys_of(self@));
        r
    }

    /// The key of entry `i`.
    pub fn key_at(&self, i: usize) -> (k: &String)
        requires
            i < self@.len(),
        ensures
            k@ == self@[i as int].0,
    {
        &self.entries[i].0
    }

    /// The value of entry `i`.
    pub fn value_at(&self, i: usize) -> (v: &V)
        requires
            i < self@.len(),
        ensures
            v@ == self@[i as int].1,
    {
        &self.entries[i].1
    }

    /// The position of key `k`, if it is a key.
    pub fn find(&self, k: &str) -> (r: Option<usize>)
        ensures
            r matches Some(i) ==> i < self@.len() && self@[i as int].0 == k@ && i == index_of(self@, k@),
            r is None <==> !has_key(self@, k@),
    {
        proof {
            use_type_invariant(self);
        }
        let mut i: usize = 0;
        while i < self.entries.len()
            invariant
                i <= self@.len(),
                self@.len() == self.entries@.len(),
                distinct_keys(self@),
                forall|j: int| 0 <= j < i ==> self@[j].0 != k@,
            decreases self.entries.len() - i,
        {
            let found = text_eq(self.entries[i].0.as_str(), k);
            if found {
                proof {
                    lemma_index_of_unique(self@, i as int);
                }
                return Some(i);
            }
            i = i + 1;
        }
        assert(!has_key(self@, k@));
        None
    }

    /// Whether `k` is a key.
    pub fn contains_key(&self, k: &str) -> (b: bool)
        ensures
            b == has_key(self@, k@),
    {
        self.find(k).is_some()
    }

    /// The value under `k`, if `k` is a key.
    pub fn get(&self, k: &str) -> (r: Option<&V>)
        ensures
            r matches Some(v) ==> lookup(self@, k@) == Some(v@),
            r is None <==> lookup(self@, k@) is None,
    {
        match self.find(k) {
            Some(i) => Some(&self.entries[i].1),
            None => None,
        }
    }

    /// Replaces the value of entry `i`.
    pub fn set_value_at(&mut self, i: usize, v: V)
        requires
            i < old(self)@.len(),
        ensures
            final(self)@ == old(self)@.update(i as int, (old(self)@[i as int].0, v@)),
    {
        proof {
            use_type_invariant(&*self);
        }
        let ghost before = self@;
        let k = self.entries[i].0.clone();
        let mut e = (k, v);
        let mut entries = Vec::new();
        std::mem::swap(&mut entries, &mut self.entries);
        entries.set(i, e);
        let ghost after = entries@.map_values(|e: (String, V)| (e.0@, e.1@));
        assert(after =~= before.update(i as int, (before[i as int].0, v@)));
        assert(distinct_keys(after)) by {
            assert forall|a: int, b: int|
                0 <= a < after.len() && 0 <= b < after.len() && a != b implies #[trigger] after[a].0
                != #[trigger] after[b].0 by {
                assert(after[a].0 == before[a].0);
                assert(after[b].0 == before[b].0);
            }
        }
        self.entries = entries;
    }

    /// Puts `v` under `k`: in place where `k` is a key, at the end where not.
    pub fn insert(&mut self, k: String, v: V)
        ensures
            final(self)@ == insert_spec(old(self)@, k@, v@),
    {
        proof {
            use_type_invariant(&*self);
        }
        match self.find(k.as_str()) {
            Some(i) => {
                let ghost before = self@;
                let mut entries = Vec::new();
                std::mem::swap(&mut entries, &mut self.entries);
                let ghost kv = k@;
                entries.set(i, (k, v));
                let ghost after = entries@.map_values(|e: (String, V)| (e.0@, e.1@));
                assert(after =~= before.update(i as int, (kv, v@)));
                assert(distinct_keys(after)) by {
                    assert forall|a: int, b: int|
                        0 <= a < after.len() && 0 <= b < after.len() && a != b implies #[trigger] after[a].0
                        != #[trigger] after[b].0 by {
                        if a != i && b != i {
                            assert(after[a].0 == before[a].0);
                            assert(after[b].0 == before[b].0);
                        } else if a == i {
                            assert(after[b].0 == before[b].0);
                        } else {
                            assert(after[a].0 == before[a].0);
                        }
                    }
                }
                self.entries = entries;
            },
            None => {
                let ghost before = self@;
                let ghost kv = k@;
                let mut entries = Vec::new();
                std::mem::swap(&mut entries, &mut self.entries);
                entries.push((k, v));
                let ghost after = entries@.map_values(|e: (String, V)| (e.0@, e.1@));
                assert(after =~= before.push((kv, v@)));
                assert(distinct_keys(after)) by {
                    assert forall|a: int, b: int|
                        0 <= a < after.len() && 0 <= b < after.len() && a != b implies #[trigger] after[a].0
                        != #[trigger] after[b].0 by {
                        if a < before.len() && b < before.len() {
                            assert(after[a].0 == before[a].0);
                            assert(after[b].0 == before[b].0);
                        } else if a < before.len() {
                            assert(after[a].0 == before[a].0);
                        } else {
                            assert(after[b].0 == before[b].0);
                        }
                    }
                }
                self.entries = entries;
            },
        }
    }

    /// Takes out the entry under `k`, if `k` is a key; the others keep their order.
    pub fn remove(&mut self, k: &str) -> (r: Option<V>)
        ensures
            final(self)@ == remove_spec(old(self)@, k@),
            r matches Some(v) ==> lookup(old(self)@, k@) == Some(v@),
            r is None <==> !has_key(old(self)@, k@),
    {
        proof {
            use_type_invariant(&*self);
        }
        match self.find(k) {
            Some(i) => {
                let ghost before = self@;
                let mut entries = Vec::new();
                std::mem::swap(&mut entries, &mut self.entries);
                let e = entries.remove(i);
                let ghost after = entries@.map_values(|e: (String, V)| (e.0@, e.1@));
                assert(after =~= before.remove(i as int));
                assert(distinct_keys(after)) by {
                    assert forall|a: int, b: int|
                        0 <= a < after.len() && 0 <= b < after.len() && a != b implies #[trigger] after[a].0
                        != #[trigger] after[b].0 by {
                        let a2 = if a < i { a } else { a + 1 };
                        let b2 = if b < i { b } else { b + 1 };
                        assert(after[a].0 == before[a2].0);
                        assert(after[b].0 == before[b2].0);
                    }
                }
                self.entries = entries;
                Some(e.1)
            },
            None => None,
        }
    }
}

impl<V: View + Duplicate> Duplicate for StrMap<V> {
    fn duplicate(&self) -> (r: Self) {
        proof {
            use_type_invariant(self);
        }
        let mut entries: Vec<(String, V)> = Vec::new();
        let mut i: usize = 0;
        while i < self.entries.len()
            invariant
                i <= self.entries@.len(),
                self@.len() == self.entries@.len(),
                entries@.map_values(|e: (String, V)| (e.0@, e.1@)) =~= self@.take(i as int),
            decreases self.entries.len() - i,
        {
            let k = self.entries[i].0.clone();
            let v = self.entries[i].1.duplicate();
            let ghost prev = entries@;
            entries.push((k, v));
            proof {
                assert(self@[i as int] == (self.entries@[i as int].0@, self.entries@[i as int].1@));
                assert(entries@ == prev.push((k, v)));
                assert(entries@.map_values(|e: (String, V)| (e.0@, e.1@)) =~= prev.map_values(
                    |e: (String, V)| (e.0@, e.1@),
                ).push((k@, v@)));
                assert(self@.take(i + 1) =~= self@.take(i as int).push(self@[i as int]));
            }
            i = i + 1;
        }
        assert(self@.take(self@.len() as int) =~= self@);
        StrMap { entries }
    }
}

} // verus!
