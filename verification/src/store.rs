//! Verified key-value stores backing the registries.
//!
//! Each store is an association list with unique keys whose abstract
//! contents are a `Map`. `IdMap` is keyed by a single unsigned integer,
//! `PairMap` by a pair of them; both are wide enough to hold every key
//! the registries use (account ids, document ids, token ids, and
//! composite vote keys).

use vstd::prelude::*;

verus! {

/// Abstract contents of an entry list: later entries shadow earlier ones,
/// though the stores below never keep two entries with the same key.
spec fn entries_map<T>(s: Seq<(u128, T)>) -> Map<u128, T>
    decreases s.len(),
{
    if s.len() == 0 {
        Map::empty()
    } else {
        entries_map(s.drop_last()).insert(s.last().0, s.last().1)
    }
}

spec fn entry_keys_unique<T>(s: Seq<(u128, T)>) -> bool {
    forall|i: int, j: int| 0 <= i < j < s.len() ==> s[i].0 != s[j].0
}

proof fn lemma_entries_map_index<T>(s: Seq<(u128, T)>, i: int)
    requires
        0 <= i < s.len(),
        entry_keys_unique(s),
    ensures
        entries_map(s).contains_key(s[i].0),
        entries_map(s)[s[i].0] == s[i].1,
    decreases s.len(),
{
    if i < s.len() - 1 {
        lemma_entries_map_index(s.drop_last(), i);
    }
}

proof fn lemma_entries_map_absent<T>(s: Seq<(u128, T)>, k: u128)
    requires
        forall|i: int| 0 <= i < s.len() ==> s[i].0 != k,
    ensures
        !entries_map(s).contains_key(k),
    decreases s.len(),
{
    if s.len() > 0 {
        lemma_entries_map_absent(s.drop_last(), k);
    }
}

proof fn lemma_entries_map_update<T>(s: Seq<(u128, T)>, i: int, v: T)
    requires
        0 <= i < s.len(),
        entry_keys_unique(s),
    ensures
        entries_map(s.update(i, (s[i].0, v))) == entries_map(s).insert(s[i].0, v),
    decreases s.len(),
{
    let k = s[i].0;
    let s2 = s.update(i, (k, v));
    if i == s.len() - 1 {
        assert(s2.drop_last() =~= s.drop_last());
        assert(entries_map(s.drop_last()).insert(k, s.last().1).insert(k, v) =~= entries_map(
            s.drop_last(),
        ).insert(k, v));
    } else {
        assert(s2.drop_last() =~= s.drop_last().update(i, (k, v)));
        lemma_entries_map_update(s.drop_last(), i, v);
        assert(entries_map(s.drop_last()).insert(k, v).insert(s.last().0, s.last().1)
            =~= entries_map(s.drop_last()).insert(s.last().0, s.last().1).insert(k, v));
    }
}

proof fn lemma_entries_map_remove<T>(s: Seq<(u128, T)>, i: int)
    requires
        0 <= i < s.len(),
        entry_keys_unique(s),
    ensures
        entries_map(s.remove(i)) == entries_map(s).remove(s[i].0),
    decreases s.len(),
{
    let k = s[i].0;
    if i == s.len() - 1 {
        assert(s.remove(i) =~= s.drop_last());
        lemma_entries_map_absent(s.drop_last(), k);
        assert(entries_map(s.drop_last()) =~= entries_map(s.drop_last()).insert(k, s.last().1).remove(
            k,
        ));
    } else {
        assert(s.remove(i).drop_last() =~= s.drop_last().remove(i));
        lemma_entries_map_remove(s.drop_last(), i);
        assert(entries_map(s.drop_last()).remove(k).insert(s.last().0, s.last().1) =~= entries_map(
            s.drop_last(),
        ).insert(s.last().0, s.last().1).remove(k));
    }
}

/// A map keyed by one unsigned integer.
pub struct IdMap<T> {
    entries: Vec<(u128, T)>,
}

impl<T> View for IdMap<T> {
    type V = Map<u128, T>;

    closed spec fn view(&self) -> Map<u128, T> {
        entries_map(self.entries@)
    }
}

impl<T> IdMap<T> {
    /// No two entries share a key; every store keeps this from `new` on.
    pub closed spec fn inv(&self) -> bool {
        entry_keys_unique(self.entries@)
    }

    pub fn new() -> (m: Self)
        ensures
            m.inv(),
            m@ == Map::<u128, T>::empty(),
    {
        IdMap { entries: Vec::new() }
    }

    pub fn get(&self, k: u128) -> (r: Option<&T>)
        requires
            self.inv(),
        ensures
            match r {
                Some(v) => self@.contains_key(k) && *v == self@[k],
                None => !self@.contains_key(k),
            },
    {
        let n = self.entries.len();
        let mut i: usize = 0;
        while i < n
            invariant
                n == self.entries@.len(),
                i <= n,
                entry_keys_unique(self.entries@),
                forall|j: int| 0 <= j < i ==> self.entries@[j].0 != k,
            decreases n - i,
        {
            if self.entries[i].0 == k {
                proof {
                    lemma_entries_map_index(self.entries@, i as int);
                }
                return Some(&self.entries[i].1);
            }
            i += 1;
        }
        proof {
            lemma_entries_map_absent(self.entries@, k);
        }
        None
    }

    pub fn insert(&mut self, k: u128, v: T)
        requires
            old(self).inv(),
        ensures
            final(self).inv(),
            final(self)@ == old(self)@.insert(k, v),
    {
        let ghost s0 = self.entries@;
        let n = self.entries.len();
        let mut i: usize = 0;
        while i < n
            invariant
                self.entries@ == s0,
                s0 == old(self).entries@,
                n == s0.len(),
                i <= n,
                entry_keys_unique(s0),
                forall|j: int| 0 <= j < i ==> s0[j].0 != k,
            decreases n - i,
        {
            if self.entries[i].0 == k {
                self.entries[i] = (k, v);
                proof {
                    lemma_entries_map_update(s0, i as int, v);
                    assert(entry_keys_unique(self.entries@));
                }
                return ;
            }
            i += 1;
        }
        self.entries.push((k, v));
        proof {
            assert(self.entries@.drop_last() =~= s0);
            lemma_entries_map_absent(s0, k);
        }
    }

    pub fn remove(&mut self, k: u128) -> (r: Option<T>)
        requires
            old(self).inv(),
        ensures
            final(self).inv(),
            final(self)@ == old(self)@.remove(k),
            match r {
                Some(v) => old(self)@.contains_key(k) && v == old(self)@[k],
                None => !old(self)@.contains_key(k) && final(self)@ == old(self)@,
            },
    {
        let ghost s0 = self.entries@;
        let n = self.entries.len();
        let mut i: usize = 0;
        while i < n
            invariant
                self.entries@ == s0,
                s0 == old(self).entries@,
                n == s0.len(),
                i <= n,
                entry_keys_unique(s0),
                forall|j: int| 0 <= j < i ==> s0[j].0 != k,
            decreases n - i,
        {
            if self.entries[i].0 == k {
                let e = self.entries.remove(i);
                proof {
                    lemma_entries_map_index(s0, i as int);
                    lemma_entries_map_remove(s0, i as int);
                    assert(entry_keys_unique(self.entries@));
                }
                return Some(e.1);
            }
            i += 1;
        }
        proof {
            lemma_entries_map_absent(s0, k);
            assert(entries_map(s0).remove(k) =~= entries_map(s0));
        }
        None
    }
}

/// Mapping a function over the values of a map commutes with `insert`.
pub proof fn lemma_map_values_insert<K, A, B>(m: Map<K, A>, f: spec_fn(A) -> B, k: K, a: A)
    ensures
        m.insert(k, a).map_values(f) == m.map_values(f).insert(k, f(a)),
{
    assert(m.insert(k, a).map_values(f) =~= m.map_values(f).insert(k, f(a)));
}

/// Mapping a function over the values of a map commutes with `remove`.
pub proof fn lemma_map_values_remove<K, A, B>(m: Map<K, A>, f: spec_fn(A) -> B, k: K)
    ensures
        m.remove(k).map_values(f) == m.map_values(f).remove(k),
{
    assert(m.remove(k).map_values(f) =~= m.map_values(f).remove(k));
}

/// Re-inserting a removed key is the same as overwriting it in place.
pub proof fn lemma_remove_insert<K, A>(m: Map<K, A>, k: K, a: A)
    ensures
        m.remove(k).insert(k, a) == m.insert(k, a),
{
    assert(m.remove(k).insert(k, a) =~= m.insert(k, a));
}

spec fn pair_entries_map<T>(s: Seq<((u128, u128), T)>) -> Map<(u128, u128), T>
    decreases s.len(),
{
    if s.len() == 0 {
        Map::empty()
    } else {
        pair_entries_map(s.drop_last()).insert(s.last().0, s.last().1)
    }
}

spec fn pair_keys_unique<T>(s: Seq<((u128, u128), T)>) -> bool {
    forall|i: int, j: int| 0 <= i < j < s.len() ==> s[i].0 != s[j].0
}

proof fn lemma_pair_entries_map_index<T>(s: Seq<((u128, u128), T)>, i: int)
    requires
        0 <= i < s.len(),
        pair_keys_unique(s),
    ensures
        pair_entries_map(s).contains_key(s[i].0),
        pair_entries_map(s)[s[i].0] == s[i].1,
    decreases s.len(),
{
    if i < s.len() - 1 {
        lemma_pair_entries_map_index(s.drop_last(), i);
    }
}

proof fn lemma_pair_entries_map_absent<T>(s: Seq<((u128, u128), T)>, k: (u128, u128))
    requires
        forall|i: int| 0 <= i < s.len() ==> s[i].0 != k,
    ensures
        !pair_entries_map(s).contains_key(k),
    decreases s.len(),
{
    if s.len() > 0 {
        lemma_pair_entries_map_absent(s.drop_last(), k);
    }
}

proof fn lemma_pair_entries_map_update<T>(s: Seq<((u128, u128), T)>, i: int, v: T)
    requires
        0 <= i < s.len(),
        pair_keys_unique(s),
    ensures
        pair_entries_map(s.update(i, (s[i].0, v))) == pair_entries_map(s).insert(s[i].0, v),
    decreases s.len(),
{
    let k = s[i].0;
    let s2 = s.update(i, (k, v));
    if i == s.len() - 1 {
        assert(s2.drop_last() =~= s.drop_last());
        assert(pair_entries_map(s.drop_last()).insert(k, s.last().1).insert(k, v)
            =~= pair_entries_map(s.drop_last()).insert(k, v));
    } else {
        assert(s2.drop_last() =~= s.drop_last().update(i, (k, v)));
        lemma_pair_entries_map_update(s.drop_last(), i, v);
        assert(pair_entries_map(s.drop_last()).insert(k, v).insert(s.last().0, s.last().1)
            =~= pair_entries_map(s.drop_last()).insert(s.last().0, s.last().1).insert(k, v));
    }
}

/// A map keyed by a pair of unsigned integers.
pub struct PairMap<T> {
    entries: Vec<((u128, u128), T)>,
}

impl<T> View for PairMap<T> {
    type V = Map<(u128, u128), T>;

    closed spec fn view(&self) -> Map<(u128, u128), T> {
        pair_entries_map(self.entries@)
    }
}

impl<T> PairMap<T> {
    /// No two entries share a key; every store keeps this from `new` on.
    pub closed spec fn inv(&self) -> bool {
        pair_keys_unique(self.entries@)
    }

    pub fn new() -> (m: Self)
        ensures
            m.inv(),
            m@ == Map::<(u128, u128), T>::empty(),
    {
        PairMap { entries: Vec::new() }
    }

    pub fn get(&self, k: (u128, u128)) -> (r: Option<&T>)
        requires
            self.inv(),
        ensures
            match r {
                Some(v) => self@.contains_key(k) && *v == self@[k],
                None => !self@.contains_key(k),
            },
    {
        let n = self.entries.len();
        let mut i: usize = 0;
        while i < n
            invariant
                n == self.entries@.len(),
                i <= n,
                pair_keys_unique(self.entries@),
                forall|j: int| 0 <= j < i ==> self.entries@[j].0 != k,
            decreases n - i,
        {
            if self.entries[i].0.0 == k.0 && self.entries[i].0.1 == k.1 {
                proof {
                    lemma_pair_entries_map_index(self.entries@, i as int);
                }
                return Some(&self.entries[i].1);
            }
            i += 1;
        }
        proof {
            lemma_pair_entries_map_absent(self.entries@, k);
        }
        None
    }

    pub fn insert(&mut self, k: (u128, u128), v: T)
        requires
            old(self).inv(),
        ensures
            final(self).inv(),
            final(self)@ == old(self)@.insert(k, v),
    {
        let ghost s0 = self.entries@;
        let n = self.entries.len();
        let mut i: usize = 0;
        while i < n
            invariant
                self.entries@ == s0,
                s0 == old(self).entries@,
                n == s0.len(),
                i <= n,
                pair_keys_unique(s0),
                forall|j: int| 0 <= j < i ==> s0[j].0 != k,
            decreases n - i,
        {
            if self.entries[i].0.0 == k.0 && self.entries[i].0.1 == k.1 {
                self.entries[i] = (k, v);
                proof {
                    lemma_pair_entries_map_update(s0, i as int, v);
                    assert(pair_keys_unique(self.entries@));
                }
                return ;
            }
            i += 1;
        }
        self.entries.push((k, v));
        proof {
            assert(self.entries@.drop_last() =~= s0);
            lemma_pair_entries_map_absent(s0, k);
        }
    }
}

} // verus!
