//! A small verified association map used as the storage model of every pallet.
//!
//! Entries live in a `Vec` with pairwise distinct keys; the abstract view is a
//! `Map`. Keys are compared through [`KeyEq`], whose implementations below are
//! proved to decide spec equality.
use vstd::prelude::*;

verus! {

broadcast use vstd::array::group_array_axioms;

/// Executable key comparison that agrees with spec equality.
pub trait KeyEq: Sized {
    fn key_eq(&self, other: &Self) -> (r: bool)
        ensures
            r == (*self == *other),
    ;
}

impl KeyEq for u64 {
    fn key_eq(&self, other: &Self) -> (r: bool) {
        *self == *other
    }
}

impl KeyEq for [u8; 32] {
    fn key_eq(&self, other: &Self) -> (r: bool) {
        let mut i: usize = 0;
        while i < 32
            invariant
                0 <= i <= 32,
                forall|j: int| 0 <= j < i ==> self@[j] == other@[j],
            decreases 32 - i,
        {
            if self[i] != other[i] {
                return false;
            }
            i = i + 1;
        }
        assert(*self =~= *other) by {
            assert forall|j: int| 0 <= j < 32 implies self[j] == other[j] by {
                assert(self@[j] == other@[j]);
            }
        }
        true
    }
}

impl<A: KeyEq, B: KeyEq> KeyEq for (A, B) {
    fn key_eq(&self, other: &Self) -> (r: bool) {
        self.0.key_eq(&other.0) && self.1.key_eq(&other.1)
    }
}

impl<A: KeyEq, B: KeyEq, C: KeyEq> KeyEq for (A, B, C) {
    fn key_eq(&self, other: &Self) -> (r: bool) {
        self.0.key_eq(&other.0) && self.1.key_eq(&other.1) && self.2.key_eq(&other.2)
    }
}

impl KeyEq for Option<u64> {
    fn key_eq(&self, other: &Self) -> (r: bool) {
        match (self, other) {
            (Some(a), Some(b)) => *a == *b,
            (None, None) => true,
            _ => false,
        }
    }
}

/// The value under `k`, or `d` where there is none.
pub open spec fn get_or<K, V>(m: Map<K, V>, k: K, d: V) -> V {
    if m.contains_key(k) {
        m[k]
    } else {
        d
    }
}

/// The elements of the vector under `k`, or none where there is no vector.
pub open spec fn seq_or_empty<K, T>(m: Map<K, Vec<T>>, k: K) -> Seq<T> {
    if m.contains_key(k) {
        m[k]@
    } else {
        Seq::empty()
    }
}

/// Index of the first occurrence of `x` in `s`, or `s.len()` if there is none.
pub open spec fn first_index<T>(s: Seq<T>, x: T) -> int
    decreases s.len(),
{
    if s.len() == 0 {
        0
    } else if s[0] == x {
        0
    } else {
        1 + first_index(s.drop_first(), x)
    }
}

pub proof fn lemma_first_index<T>(s: Seq<T>, x: T)
    ensures
        0 <= first_index(s, x) <= s.len(),
        first_index(s, x) < s.len() <==> s.contains(x),
        first_index(s, x) < s.len() ==> s[first_index(s, x)] == x,
        forall|j: int| 0 <= j < first_index(s, x) ==> s[j] != x,
    decreases s.len(),
{
    if s.len() > 0 && s[0] != x {
        lemma_first_index(s.drop_first(), x);
        if s.contains(x) {
            let i = choose|i: int| 0 <= i < s.len() && s[i] == x;
            assert(s.drop_first()[i - 1] == x);
        }
        if s.drop_first().contains(x) {
            let i = choose|i: int| 0 <= i < s.drop_first().len() && s.drop_first()[i] == x;
            assert(s[i + 1] == x);
        }
        assert forall|j: int| 0 <= j < first_index(s, x) implies s[j] != x by {
            if j > 0 {
                assert(s[j] == s.drop_first()[j - 1]);
            }
        }
    } else if s.len() > 0 {
        assert(s.contains(x)) by {
            assert(s[0] == x);
        }
    }
}

/// Position of the first occurrence of `x` in `v`.
pub fn vec_position<T: KeyEq>(v: &Vec<T>, x: &T) -> (r: Option<usize>)
    ensures
        match r {
            Some(i) => i == first_index(v@, *x) && i < v@.len() && v@[i as int] == *x && v@.contains(*x),
            None => !v@.contains(*x) && first_index(v@, *x) == v@.len(),
        },
{
    proof {
        lemma_first_index(v@, *x);
    }
    let mut i: usize = 0;
    while i < v.len()
        invariant
            0 <= i <= v@.len(),
            forall|j: int| 0 <= j < i ==> v@[j] != *x,
            0 <= first_index(v@, *x) <= v@.len(),
            first_index(v@, *x) < v@.len() <==> v@.contains(*x),
            first_index(v@, *x) < v@.len() ==> v@[first_index(v@, *x)] == *x,
            forall|j: int| 0 <= j < first_index(v@, *x) ==> v@[j] != *x,
        decreases v@.len() - i,
    {
        if v[i].key_eq(x) {
            return Some(i);
        }
        i = i + 1;
    }
    None
}

/// Map from keys to values, kept as a vector of entries with distinct keys.
pub struct KvMap<K, V> {
    entries: Vec<(K, V)>,
}

/// Whether some entry of `s` has key `k`.
pub open spec fn seq_has_key<K, V>(s: Seq<(K, V)>, k: K) -> bool {
    exists|i: int| 0 <= i < s.len() && #[trigger] s[i].0 == k
}

impl<K, V> KvMap<K, V> {
    #[verifier::type_invariant]
    closed spec fn keys_distinct(self) -> bool {
        forall|i: int, j: int|
            0 <= i < self.entries@.len() && 0 <= j < self.entries@.len() && i != j
                ==> #[trigger] self.entries@[i].0 != #[trigger] self.entries@[j].0
    }

    /// The entries in storage order.
    pub closed spec fn entries(self) -> Seq<(K, V)> {
        self.entries@
    }

    /// The abstract map.
    pub closed spec fn view(self) -> Map<K, V> {
        Map::new(
            |k: K| seq_has_key(self.entries@, k),
            |k: K|
                self.entries@[choose|i: int|
                    0 <= i < self.entries@.len() && #[trigger] self.entries@[i].0 == k].1,
        )
    }

    proof fn lemma_view_at(self, i: int)
        requires
            self.keys_distinct(),
            0 <= i < self.entries@.len(),
        ensures
            self.view().contains_key(self.entries@[i].0),
            self.view()[self.entries@[i].0] == self.entries@[i].1,
    {
        let k = self.entries@[i].0;
        assert(seq_has_key(self.entries@, k));
        let j = choose|j: int| 0 <= j < self.entries@.len() && #[trigger] self.entries@[j].0 == k;
        assert(self.entries@[j].0 == k);
        assert(i == j);
    }

}

impl<K: KeyEq, V> KvMap<K, V> {
    pub fn new() -> (m: Self)
        ensures
            m.view() == Map::<K, V>::empty(),
            m.entries() == Seq::<(K, V)>::empty(),
    {
        let m = KvMap { entries: Vec::new() };
        assert(m.view() =~= Map::<K, V>::empty());
        m
    }

    pub fn len(&self) -> (n: usize)
        ensures
            n == self.entries().len(),
            n == self.view().dom().len(),
    {
        proof {
            use_type_invariant(self);
            self.lemma_dom_len();
        }
        self.entries.len()
    }

    proof fn lemma_dom_len(self)
        requires
            self.keys_distinct(),
        ensures
            self.view().dom().finite(),
            self.view().dom().len() == self.entries@.len(),
    {
        assert(self.view().dom() =~= Set::new(|k: K| seq_has_key(self.entries@, k)));
        lemma_seq_keys_finite(self.entries@);
        lemma_seq_keys_len(self.entries@);
    }

}

impl<K: KeyEq, V> KvMap<K, V> {
    fn index_of(&self, k: &K) -> (r: Option<usize>)
        ensures
            match r {
                Some(i) => i < self.entries@.len() && self.entries@[i as int].0 == *k,
                None => !seq_has_key(self.entries@, *k),
            },
    {
        let mut i: usize = 0;
        while i < self.entries.len()
            invariant
                0 <= i <= self.entries@.len(),
                forall|j: int| 0 <= j < i ==> #[trigger] self.entries@[j].0 != *k,
            decreases self.entries@.len() - i,
        {
            if self.entries[i].0.key_eq(k) {
                return Some(i);
            }
            i = i + 1;
        }
        None
    }

    pub fn contains_key(&self, k: &K) -> (r: bool)
        ensures
            r == self.view().contains_key(*k),
    {
        self.index_of(k).is_some()
    }

    pub fn get(&self, k: &K) -> (r: Option<&V>)
        ensures
            match r {
                Some(v) => self.view().contains_key(*k) && *v == self.view()[*k],
                None => !self.view().contains_key(*k),
            },
    {
        proof {
            use_type_invariant(self);
        }
        match self.index_of(k) {
            Some(i) => {
                proof {
                    self.lemma_view_at(i as int);
                }
                Some(&self.entries[i].1)
            },
            None => None,
        }
    }

    /// The value under `k`, or `d` where there is none.
    pub fn get_or(&self, k: &K, d: V) -> (r: V)
        where
            V: Copy,
        ensures
            r == get_or(self.view(), *k, d),
    {
        match self.get(k) {
            Some(v) => *v,
            None => d,
        }
    }

    /// Key and value of the entry at position `i` in storage order.
    pub fn entry_at(&self, i: usize) -> (r: (&K, &V))
        requires
            i < self.entries().len(),
        ensures
            *r.0 == self.entries()[i as int].0,
            *r.1 == self.entries()[i as int].1,
            self.view().contains_key(*r.0),
            self.view()[*r.0] == *r.1,
    {
        proof {
            use_type_invariant(self);
            self.lemma_view_at(i as int);
        }
        let e = &self.entries[i];
        (&e.0, &e.1)
    }

    pub fn insert(&mut self, k: K, v: V)
        ensures
            final(self).view() == old(self).view().insert(k, v),
    {
        proof {
            use_type_invariant(&*self);
        }
        let idx = self.index_of(&k);
        let mut e: Vec<(K, V)> = Vec::new();
        std::mem::swap(&mut e, &mut self.entries);
        let ghost old_e = e@;
        match idx {
            Some(i) => {
                e.set(i, (k, v));
                assert forall|a: int, b: int|
                    0 <= a < e@.len() && 0 <= b < e@.len() && a != b implies #[trigger] e@[a].0
                    != #[trigger] e@[b].0 by {
                    assert(old_e[a].0 != old_e[b].0);
                }
            },
            None => {
                e.push((k, v));
                assert forall|a: int, b: int|
                    0 <= a < e@.len() && 0 <= b < e@.len() && a != b implies #[trigger] e@[a].0
                    != #[trigger] e@[b].0 by {
                    if a < old_e.len() && b < old_e.len() {
                        assert(old_e[a].0 != old_e[b].0);
                    } else if a == old_e.len() {
                        assert(old_e[b].0 == e@[b].0);
                    } else {
                        assert(old_e[a].0 == e@[a].0);
                    }
                }
            },
        }
        self.entries = e;
        proof {
            let new_self = *self;
            assert forall|key: K| #[trigger] new_self.view().contains_key(key) == old(self).view().insert(k, v).contains_key(key)
                && (new_self.view().contains_key(key) ==> new_self.view()[key] == old(self).view().insert(k, v)[key]) by {
                if key == k {
                    let j = if idx is Some { idx->0 as int } else { old_e.len() as int };
                    assert(new_self.entries@[j].0 == k);
                    new_self.lemma_view_at(j);
                } else {
                    if seq_has_key(old_e, key) {
                        let j = choose|j: int| 0 <= j < old_e.len() && #[trigger] old_e[j].0 == key;
                        assert(new_self.entries@[j] == old_e[j]);
                        new_self.lemma_view_at(j);
                        old(self).lemma_view_at(j);
                    }
                    if seq_has_key(new_self.entries@, key) {
                        let j = choose|j: int| 0 <= j < new_self.entries@.len() && #[trigger] new_self.entries@[j].0 == key;
                        assert(old_e[j].0 == key);
                    }
                }
            }
            assert(new_self.view() =~= old(self).view().insert(k, v));
        }
    }

    pub fn remove(&mut self, k: &K) -> (r: Option<V>)
        ensures
            final(self).view() == old(self).view().remove(*k),
            match r {
                Some(v) => old(self).view().contains_key(*k) && v == old(self).view()[*k],
                None => !old(self).view().contains_key(*k),
            },
    {
        proof {
            use_type_invariant(&*self);
        }
        let idx = self.index_of(k);
        match idx {
            None => {
                assert(self.view() =~= old(self).view().remove(*k));
                None
            },
            Some(i) => {
                proof {
                    self.lemma_view_at(i as int);
                }
                let mut e: Vec<(K, V)> = Vec::new();
                std::mem::swap(&mut e, &mut self.entries);
                let ghost old_e = e@;
                let (_, v) = e.swap_remove(i);
                assert forall|a: int, b: int|
                    0 <= a < e@.len() && 0 <= b < e@.len() && a != b implies #[trigger] e@[a].0
                    != #[trigger] e@[b].0 by {
                    let oa = if a == i { old_e.len() - 1 } else { a };
                    let ob = if b == i { old_e.len() - 1 } else { b };
                    assert(e@[a] == old_e[oa]);
                    assert(e@[b] == old_e[ob]);
                    assert(old_e[oa].0 != old_e[ob].0);
                }
                self.entries = e;
                proof {
                    let new_self = *self;
                    assert forall|key: K| #[trigger] new_self.view().contains_key(key) == old(self).view().remove(*k).contains_key(key)
                        && (new_self.view().contains_key(key) ==> new_self.view()[key] == old(self).view()[key]) by {
                        if seq_has_key(new_self.entries@, key) {
                            let j = choose|j: int| 0 <= j < new_self.entries@.len() && #[trigger] new_self.entries@[j].0 == key;
                            let oj = if j == i { old_e.len() - 1 } else { j };
                            assert(new_self.entries@[j] == old_e[oj]);
                            new_self.lemma_view_at(j);
                            old(self).lemma_view_at(oj);
                            assert(oj != i);
                        }
                        if key != *k && seq_has_key(old_e, key) {
                            let j = choose|j: int| 0 <= j < old_e.len() && #[trigger] old_e[j].0 == key;
                            assert(j != i);
                            let nj = if j == old_e.len() - 1 { i as int } else { j };
                            assert(new_self.entries@[nj] == old_e[j]);
                        }
                    }
                    assert(new_self.view() =~= old(self).view().remove(*k));
                }
                Some(v)
            },
        }
    }
}

impl<K: KeyEq + Copy, V> KvMap<K, V> {
    /// The keys, in storage order.
    pub fn keys(&self) -> (r: Vec<K>)
        ensures
            r@.len() == self.entries().len(),
            forall|i: int| 0 <= i < r@.len() ==> r@[i] == self.entries()[i].0,
            forall|k: K| self.view().contains_key(k) <==> r@.contains(k),
    {
        proof {
            use_type_invariant(self);
        }
        let mut r: Vec<K> = Vec::new();
        let mut i: usize = 0;
        while i < self.entries.len()
            invariant
                0 <= i <= self.entries@.len(),
                r@.len() == i,
                forall|j: int| 0 <= j < i ==> r@[j] == self.entries@[j].0,
            decreases self.entries@.len() - i,
        {
            r.push(self.entries[i].0);
            i = i + 1;
        }
        proof {
            assert forall|k: K| self.view().contains_key(k) <==> r@.contains(k) by {
                if self.view().contains_key(k) {
                    let j = choose|j: int| 0 <= j < self.entries@.len() && #[trigger] self.entries@[j].0 == k;
                    assert(r@[j] == k);
                }
                if r@.contains(k) {
                    let j = choose|j: int| 0 <= j < r@.len() && r@[j] == k;
                    self.lemma_view_at(j);
                }
            }
        }
        r
    }
}

impl<A: KeyEq + Copy, B: KeyEq + Copy, V> KvMap<(A, B), V> {
    /// Removes every entry whose key starts with `p`.
    pub fn clear_prefix(&mut self, p: A)
        ensures
            final(self).view() == old(self).view().remove_keys(Set::new(|k: (A, B)| k.0 == p)),
    {
        let ks = self.keys();
        let ghost m0 = self.view();
        let mut i: usize = 0;
        while i < ks.len()
            invariant
                0 <= i <= ks@.len(),
                m0 == old(self).view(),
                forall|k: (A, B)| m0.contains_key(k) <==> ks@.contains(k),
                forall|k: (A, B)| #[trigger] self.view().contains_key(k) <==> (m0.contains_key(k)
                    && !(k.0 == p && exists|j: int| 0 <= j < i && ks@[j] == k)),
                forall|k: (A, B)| #[trigger] self.view().contains_key(k) ==> self.view()[k] == m0[k],
            decreases ks@.len() - i,
        {
            let k = ks[i];
            if k.0.key_eq(&p) {
                self.remove(&k);
            }
            proof {
                assert forall|x: (A, B)| #[trigger] self.view().contains_key(x) <==> (m0.contains_key(x)
                    && !(x.0 == p && exists|j: int| 0 <= j < i + 1 && ks@[j] == x)) by {
                    if x.0 == p && x == k {
                        assert(ks@[i as int] == x);
                    }
                    if x.0 == p && (exists|j: int| 0 <= j < i + 1 && ks@[j] == x) && !(exists|j: int| 0 <= j < i && ks@[j] == x) {
                        let j = choose|j: int| 0 <= j < i + 1 && ks@[j] == x;
                        assert(j == i);
                    }
                    if exists|j: int| 0 <= j < i && ks@[j] == x {
                        let j = choose|j: int| 0 <= j < i && ks@[j] == x;
                        assert(0 <= j < i + 1 && ks@[j] == x);
                    }
                }
            }
            i = i + 1;
        }
        proof {
            let target = m0.remove_keys(Set::new(|k: (A, B)| k.0 == p));
            assert forall|k: (A, B)| #[trigger] self.view().contains_key(k) <==> target.contains_key(k) by {
                if m0.contains_key(k) && k.0 == p {
                    assert(ks@.contains(k));
                    let j = choose|j: int| 0 <= j < ks@.len() && ks@[j] == k;
                    assert(0 <= j < i && ks@[j] == k);
                }
            }
            assert(self.view() =~= target);
        }
    }
}

impl<K: KeyEq + Copy, V: Clone> Clone for KvMap<K, V> {
    /// A copy with the same keys in the same order and cloned values.
    fn clone(&self) -> (c: Self)
        ensures
            c.entries().len() == self.entries().len(),
            forall|i: int| 0 <= i < c.entries().len() ==> #[trigger] c.entries()[i].0 == self.entries()[i].0,
    {
        proof {
            use_type_invariant(self);
        }
        let mut e: Vec<(K, V)> = Vec::new();
        let mut i: usize = 0;
        while i < self.entries.len()
            invariant
                0 <= i <= self.entries@.len(),
                e@.len() == i,
                forall|j: int| 0 <= j < i ==> #[trigger] e@[j].0 == self.entries@[j].0,
                forall|a: int, b: int|
                    0 <= a < self.entries@.len() && 0 <= b < self.entries@.len() && a != b
                        ==> #[trigger] self.entries@[a].0 != #[trigger] self.entries@[b].0,
            decreases self.entries@.len() - i,
        {
            let k = self.entries[i].0;
            let v = self.entries[i].1.clone();
            e.push((k, v));
            i = i + 1;
        }
        assert forall|a: int, b: int|
            0 <= a < e@.len() && 0 <= b < e@.len() && a != b implies #[trigger] e@[a].0 != #[trigger] e@[b].0 by {
            assert(e@[a].0 == self.entries@[a].0);
            assert(e@[b].0 == self.entries@[b].0);
        }
        KvMap { entries: e }
    }
}

proof fn lemma_seq_keys_finite<K, V>(s: Seq<(K, V)>)
    ensures
        Set::new(|k: K| seq_has_key(s, k)).finite(),
    decreases s.len(),
{
    if s.len() == 0 {
        assert(Set::new(|k: K| seq_has_key(s, k)) =~= Set::<K>::empty());
    } else {
        let t = s.drop_last();
        lemma_seq_keys_finite(t);
        assert(Set::new(|k: K| seq_has_key(s, k)) =~= Set::new(|k: K| seq_has_key(t, k)).insert(
            s.last().0,
        )) by {
            assert forall|k: K| #[trigger] seq_has_key(s, k) implies Set::new(|k: K| seq_has_key(t, k)).insert(s.last().0).contains(k) by {
                let i = choose|i: int| 0 <= i < s.len() && #[trigger] s[i].0 == k;
                if i < s.len() - 1 {
                    assert(t[i].0 == k);
                }
            }
            assert forall|k: K| Set::new(|k: K| seq_has_key(t, k)).insert(s.last().0).contains(k) implies #[trigger] seq_has_key(s, k) by {
                if k == s.last().0 {
                    assert(s[s.len() - 1].0 == k);
                } else {
                    let i = choose|i: int| 0 <= i < t.len() && #[trigger] t[i].0 == k;
                    assert(s[i].0 == k);
                }
            }
        }
    }
}

proof fn lemma_seq_keys_len<K, V>(s: Seq<(K, V)>)
    requires
        forall|i: int, j: int|
            0 <= i < s.len() && 0 <= j < s.len() && i != j ==> #[trigger] s[i].0 != #[trigger] s[j].0,
    ensures
        Set::new(|k: K| seq_has_key(s, k)).len() == s.len(),
    decreases s.len(),
{
    lemma_seq_keys_finite(s);
    if s.len() == 0 {
        assert(Set::new(|k: K| seq_has_key(s, k)) =~= Set::<K>::empty());
    } else {
        let t = s.drop_last();
        lemma_seq_keys_len(t);
        lemma_seq_keys_finite(t);
        let dt = Set::new(|k: K| seq_has_key(t, k));
        assert(Set::new(|k: K| seq_has_key(s, k)) =~= dt.insert(s.last().0)) by {
            assert forall|k: K| #[trigger] seq_has_key(s, k) implies dt.insert(s.last().0).contains(k) by {
                let i = choose|i: int| 0 <= i < s.len() && #[trigger] s[i].0 == k;
                if i < s.len() - 1 {
                    assert(t[i].0 == k);
                }
            }
            assert forall|k: K| dt.insert(s.last().0).contains(k) implies #[trigger] seq_has_key(s, k) by {
                if k == s.last().0 {
                    assert(s[s.len() - 1].0 == k);
                } else {
                    let i = choose|i: int| 0 <= i < t.len() && #[trigger] t[i].0 == k;
                    assert(s[i].0 == k);
                }
            }
        }
        assert(!dt.contains(s.last().0)) by {
            if dt.contains(s.last().0) {
                let i = choose|i: int| 0 <= i < t.len() && #[trigger] t[i].0 == s.last().0;
                assert(s[i].0 == s[s.len() - 1].0);
            }
        }
    }
}

} // verus!
