//! A list of values keyed by address, in insertion order, with each address at most once.
use vstd::prelude::*;

use crate::pubkey::Pubkey;

verus! {

/// No address occurs twice.
pub open spec fn distinct_keys<T>(s: Seq<(Seq<u8>, T)>) -> bool {
    forall|i: int, j: int| 0 <= i < s.len() && 0 <= j < s.len() && i != j ==> s[i].0 != s[j].0
}

/// Whether `k` occurs.
pub open spec fn has_key<T>(s: Seq<(Seq<u8>, T)>, k: Seq<u8>) -> bool {
    exists|i: int| 0 <= i < s.len() && s[i].0 == k
}

/// Position of `k`, or -1 when it does not occur.
pub open spec fn key_index<T>(s: Seq<(Seq<u8>, T)>, k: Seq<u8>) -> int {
    if has_key(s, k) {
        choose|i: int| 0 <= i < s.len() && s[i].0 == k
    } else {
        -1
    }
}

/// The value stored under `k`.
pub open spec fn lookup<T>(s: Seq<(Seq<u8>, T)>, k: Seq<u8>) -> Option<T> {
    if has_key(s, k) {
        Some(s[key_index(s, k)].1)
    } else {
        None
    }
}

/// Stores `v` under `k`: in place when `k` occurs, at the end otherwise.
pub open spec fn upsert<T>(s: Seq<(Seq<u8>, T)>, k: Seq<u8>, v: T) -> Seq<(Seq<u8>, T)> {
    if has_key(s, k) {
        s.update(key_index(s, k), (k, v))
    } else {
        s.push((k, v))
    }
}

/// Removes `k` and its value, keeping the order of the rest.
pub open spec fn remove_key<T>(s: Seq<(Seq<u8>, T)>, k: Seq<u8>) -> Seq<(Seq<u8>, T)> {
    if has_key(s, k) {
        s.remove(key_index(s, k))
    } else {
        s
    }
}

/// With distinct keys, `i` is where `s[i].0` is found.
pub proof fn lemma_key_index_of<T>(s: Seq<(Seq<u8>, T)>, i: int)
    requires
        distinct_keys(s),
        0 <= i < s.len(),
    ensures
        has_key(s, s[i].0),
        key_index(s, s[i].0) == i,
{
    assert(has_key(s, s[i].0));
}

/// A value stored under a key is what a lookup of that key gives back, and the other keys
/// keep their values.
pub proof fn lemma_lookup_upsert<T>(s: Seq<(Seq<u8>, T)>, k: Seq<u8>, v: T, other: Seq<u8>)
    requires
        distinct_keys(s),
    ensures
        distinct_keys(upsert(s, k, v)),
        lookup(upsert(s, k, v), k) == Some(v),
        other != k ==> lookup(upsert(s, k, v), other) == lookup(s, other),
{
    let t = upsert(s, k, v);
    if has_key(s, k) {
        let i = key_index(s, k);
        assert(t[i].0 == k);
        lemma_key_index_of(t, i);
        if has_key(s, other) && other != k {
            let j = key_index(s, other);
            assert(t[j] == s[j]);
            lemma_key_index_of(t, j);
        }
        if has_key(t, other) && other != k {
            let j = key_index(t, other);
            assert(s[j].0 == other);
        }
    } else {
        let n = s.len() as int;
        assert(t[n].0 == k);
        lemma_key_index_of(t, n);
        if has_key(s, other) {
            let j = key_index(s, other);
            assert(t[j] == s[j]);
            lemma_key_index_of(t, j);
        }
        if has_key(t, other) && other != k {
            let j = key_index(t, other);
            assert(j < n);
            assert(s[j].0 == other);
        }
    }
}

/// After removing a key it is gone, and the other keys keep their values.
pub proof fn lemma_lookup_remove<T>(s: Seq<(Seq<u8>, T)>, k: Seq<u8>, other: Seq<u8>)
    requires
        distinct_keys(s),
    ensures
        distinct_keys(remove_key(s, k)),
        lookup(remove_key(s, k), k) is None,
        other != k ==> lookup(remove_key(s, k), other) == lookup(s, other),
{
    let t = remove_key(s, k);
    if has_key(s, k) {
        let i = key_index(s, k);
        assert forall|a: int, b: int| 0 <= a < t.len() && 0 <= b < t.len() && a != b implies t[a].0 != t[b].0 by {
            let a2 = if a < i { a } else { a + 1 };
            let b2 = if b < i { b } else { b + 1 };
            assert(t[a] == s[a2]);
            assert(t[b] == s[b2]);
        }
        if has_key(t, k) {
            let j = key_index(t, k);
            let j2 = if j < i { j } else { j + 1 };
            assert(t[j] == s[j2]);
        }
        if other != k && has_key(s, other) {
            let j = key_index(s, other);
            let j2 = if j < i { j } else { j - 1 };
            assert(t[j2] == s[j]);
            lemma_key_index_of(t, j2);
        }
        if other != k && has_key(t, other) {
            let j = key_index(t, other);
            let j2 = if j < i { j } else { j + 1 };
            assert(t[j] == s[j2]);
        }
    }
}

/// Values keyed by address, in insertion order, each address at most once.
pub struct KeyedList<V: View> {
    entries: Vec<(Pubkey, V)>,
}

pub open spec fn entries_model<V: View>(entries: Seq<(Pubkey, V)>) -> Seq<(Seq<u8>, V::V)> {
    entries.map_values(|e: (Pubkey, V)| (e.0@, e.1@))
}

impl<V: View> KeyedList<V> {
    pub closed spec fn model(self) -> Seq<(Seq<u8>, V::V)> {
        entries_model(self.entries@)
    }

    #[verifier::type_invariant]
    closed spec fn keys_distinct(self) -> bool {
        distinct_keys(self.model())
    }
}

impl<V: View> View for KeyedList<V> {
    type V = Seq<(Seq<u8>, V::V)>;

    open spec fn view(&self) -> Seq<(Seq<u8>, V::V)> {
        self.model()
    }
}

impl<V: View> KeyedList<V> {
    /// An empty list.
    pub fn new() -> (res: KeyedList<V>)
        ensures
            res@ == Seq::<(Seq<u8>, V::V)>::empty(),
    {
        let res = KeyedList { entries: Vec::new() };
        assert(res@ =~= Seq::<(Seq<u8>, V::V)>::empty());
        res
    }

    pub fn len(&self) -> (res: usize)
        ensures
            res == self@.len(),
            distinct_keys(self@),
    {
        proof {
            use_type_invariant(self);
        }
        self.entries.len()
    }

    pub fn is_empty(&self) -> (res: bool)
        ensures
            res == (self@.len() == 0),
    {
        self.entries.len() == 0
    }

    /// The `i`-th entry.
    pub fn entry(&self, i: usize) -> (res: &(Pubkey, V))
        requires
            i < self@.len(),
        ensures
            (res.0@, res.1@) == self@[i as int],
    {
        &self.entries[i]
    }

    /// Position of `k`, when it occurs.
    pub fn index_of(&self, k: &Pubkey) -> (res: Option<usize>)
        ensures
            match res {
                Some(i) => has_key(self@, k@) && i == key_index(self@, k@),
                None => !has_key(self@, k@),
            },
            distinct_keys(self@),
    {
        proof {
            use_type_invariant(self);
        }
        let mut i: usize = 0;
        while i < self.entries.len()
            invariant
                0 <= i <= self.entries@.len(),
                self@ == entries_model(self.entries@),
                self@.len() == self.entries@.len(),
                forall|j: int| 0 <= j < i ==> self@[j].0 != k@,
            decreases self.entries@.len() - i,
        {
            if self.entries[i].0.same(k) {
                proof {
                    use_type_invariant(self);
                    lemma_key_index_of(self@, i as int);
                }
                return Some(i);
            }
            i = i + 1;
        }
        None
    }

    /// Whether `k` occurs.
    pub fn contains_key(&self, k: &Pubkey) -> (res: bool)
        ensures
            res == has_key(self@, k@),
    {
        self.index_of(k).is_some()
    }

    /// The value stored under `k`.
    pub fn get(&self, k: &Pubkey) -> (res: Option<&V>)
        ensures
            match res {
                Some(v) => lookup(self@, k@) == Some(v@),
                None => lookup(self@, k@) is None,
            },
    {
        match self.index_of(k) {
            Some(i) => Some(&self.entries[i].1),
            None => None,
        }
    }

    /// Stores `v` under `k`, replacing the value it had.
    pub fn insert(&mut self, k: Pubkey, v: V)
        ensures
            final(self)@ == upsert(old(self)@, k@, v@),
            distinct_keys(old(self)@),
    {
        proof {
            use_type_invariant(&*self);
        }
        let ghost before = self@;
        match self.index_of(&k) {
            Some(i) => {
                proof {
                    lemma_lookup_upsert(before, k@, v@, k@);
                }
                let mut entries: Vec<(Pubkey, V)> = Vec::new();
                std::mem::swap(&mut entries, &mut self.entries);
                entries.set(i, (k, v));
                assert(entries_model(entries@) =~= upsert(before, k@, v@));
                self.entries = entries;
            },
            None => {
                proof {
                    lemma_lookup_upsert(before, k@, v@, k@);
                }
                let mut entries: Vec<(Pubkey, V)> = Vec::new();
                std::mem::swap(&mut entries, &mut self.entries);
                entries.push((k, v));
                assert(entries_model(entries@) =~= upsert(before, k@, v@));
                self.entries = entries;
            },
        }
    }

    /// Removes `k` and gives back its value.
    pub fn remove(&mut self, k: &Pubkey) -> (res: Option<V>)
        ensures
            final(self)@ == remove_key(old(self)@, k@),
            distinct_keys(old(self)@),
            match res {
                Some(v) => lookup(old(self)@, k@) == Some(v@),
                None => lookup(old(self)@, k@) is None,
            },
    {
        proof {
            use_type_invariant(&*self);
        }
        let ghost before = self@;
        match self.index_of(k) {
            Some(i) => {
                proof {
                    lemma_lookup_remove(before, k@, k@);
                }
                let mut entries: Vec<(Pubkey, V)> = Vec::new();
                std::mem::swap(&mut entries, &mut self.entries);
                let (_, v) = entries.remove(i);
                assert(entries_model(entries@) =~= remove_key(before, k@));
                self.entries = entries;
                Some(v)
            },
            None => None,
        }
    }

    /// Replaces the value of the `i`-th entry, keeping its key.
    pub fn set_value(&mut self, i: usize, v: V)
        requires
            i < old(self)@.len(),
        ensures
            final(self)@ == old(self)@.update(i as int, (old(self)@[i as int].0, v@)),
    {
        proof {
            use_type_invariant(&*self);
        }
        let ghost before = self@;
        let k = self.entries[i].0;
        let mut entries: Vec<(Pubkey, V)> = Vec::new();
        std::mem::swap(&mut entries, &mut self.entries);
        entries.set(i, (k, v));
        assert(entries_model(entries@) =~= before.update(i as int, (before[i as int].0, v@)));
        assert forall|a: int, b: int| 0 <= a < before.len() && 0 <= b < before.len() && a != b
            implies entries_model(entries@)[a].0 != entries_model(entries@)[b].0 by {
            assert(entries_model(entries@)[a].0 == before[a].0);
            assert(entries_model(entries@)[b].0 == before[b].0);
        }
        self.entries = entries;
    }
}

} // verus!
