//! Storage collections of the contract: insertion-ordered sets, keyed maps,
//! keyed families of sets and keyed amounts.  Each has a mathematical view.
use vstd::prelude::*;

verus! {

/// Keys of the storage collections: plain values compared by value.
pub trait Key: Sized {
    fn same(&self, other: &Self) -> (b: bool)
        ensures
            b == (*self == *other),
    ;
}

impl Key for u64 {
    fn same(&self, other: &Self) -> (b: bool) {
        *self == *other
    }
}

impl<A: Key, B: Key> Key for (A, B) {
    fn same(&self, other: &Self) -> (b: bool) {
        self.0.same(&other.0) && self.1.same(&other.1)
    }
}

impl<A: Key, B: Key, C: Key> Key for (A, B, C) {
    fn same(&self, other: &Self) -> (b: bool) {
        self.0.same(&other.0) && self.1.same(&other.1) && self.2.same(&other.2)
    }
}

impl<A: Key, B: Key, C: Key, D: Key> Key for (A, B, C, D) {
    fn same(&self, other: &Self) -> (b: bool) {
        self.0.same(&other.0) && self.1.same(&other.1) && self.2.same(&other.2) && self.3.same(
            &other.3,
        )
    }
}

/// The sequence without the (single) occurrence of `x`; unchanged when absent.
pub open spec fn seq_without<K>(s: Seq<K>, x: K) -> Seq<K> {
    if s.contains(x) {
        s.remove(s.index_of(x))
    } else {
        s
    }
}

/// The sequence after a swap-remove of `x`: the last element takes its place.
pub open spec fn seq_swap_without<K>(s: Seq<K>, x: K) -> Seq<K> {
    if s.contains(x) {
        s.update(s.index_of(x), s.last()).drop_last()
    } else {
        s
    }
}

/// The sequence with `x` appended when it is not already there.
pub open spec fn seq_with<K>(s: Seq<K>, x: K) -> Seq<K> {
    if s.contains(x) {
        s
    } else {
        s.push(x)
    }
}

proof fn lemma_index_of_unique<K>(s: Seq<K>, i: int)
    requires
        s.no_duplicates(),
        0 <= i < s.len(),
    ensures
        s.contains(s[i]),
        s.index_of(s[i]) == i,
{
    assert(s[i] == s[i]);
    let j = s.index_of(s[i]);
    assert(0 <= j < s.len() && s[j] == s[i]);
}

pub proof fn lemma_seq_without_no_dup<K>(s: Seq<K>, x: K)
    requires
        s.no_duplicates(),
    ensures
        seq_without(s, x).no_duplicates(),
        !seq_without(s, x).contains(x),
        forall|y: K| y != x ==> (seq_without(s, x).contains(y) <==> s.contains(y)),
{
    if s.contains(x) {
        let i = s.index_of(x);
        let r = s.remove(i);
        assert forall|a: int, b: int| 0 <= a < r.len() && 0 <= b < r.len() && a != b implies r[a]
            != r[b] by {
            let a2 = if a < i { a } else { a + 1 };
            let b2 = if b < i { b } else { b + 1 };
            assert(r[a] == s[a2]);
            assert(r[b] == s[b2]);
        }
        assert forall|y: K| y != x implies (r.contains(y) <==> s.contains(y)) by {
            if s.contains(y) {
                let k = choose|k: int| 0 <= k < s.len() && s[k] == y;
                let k2 = if k < i { k } else { k - 1 };
                assert(r[k2] == y);
            }
            if r.contains(y) {
                let k = choose|k: int| 0 <= k < r.len() && r[k] == y;
                let k2 = if k < i { k } else { k + 1 };
                assert(s[k2] == y);
            }
        }
        if r.contains(x) {
            let k = choose|k: int| 0 <= k < r.len() && r[k] == x;
            let k2 = if k < i { k } else { k + 1 };
            assert(s[k2] == x);
        }
    }
}

pub proof fn lemma_seq_swap_without_no_dup<K>(s: Seq<K>, x: K)
    requires
        s.no_duplicates(),
    ensures
        seq_swap_without(s, x).no_duplicates(),
        !seq_swap_without(s, x).contains(x),
        forall|y: K| y != x ==> (seq_swap_without(s, x).contains(y) <==> s.contains(y)),
{
    if s.contains(x) {
        let i = s.index_of(x);
        let n = s.len();
        let r = s.update(i, s.last()).drop_last();
        assert forall|a: int, b: int| 0 <= a < r.len() && 0 <= b < r.len() && a != b implies r[a]
            != r[b] by {
            let a2 = if a == i { n - 1 } else { a };
            let b2 = if b == i { n - 1 } else { b };
            assert(r[a] == s[a2]);
            assert(r[b] == s[b2]);
        }
        assert forall|y: K| y != x implies (r.contains(y) <==> s.contains(y)) by {
            if s.contains(y) {
                let k = choose|k: int| 0 <= k < s.len() && s[k] == y;
                let k2 = if k == n - 1 { i } else { k };
                assert(r[k2] == y);
            }
            if r.contains(y) {
                let k = choose|k: int| 0 <= k < r.len() && r[k] == y;
                let k2 = if k == i { n - 1 } else { k };
                assert(s[k2] == y);
            }
        }
        if r.contains(x) {
            let k = choose|k: int| 0 <= k < r.len() && r[k] == x;
            let k2 = if k == i { n - 1 } else { k };
            assert(s[k2] == x);
        }
    }
}

pub proof fn lemma_seq_with_no_dup<K>(s: Seq<K>, x: K)
    requires
        s.no_duplicates(),
    ensures
        seq_with(s, x).no_duplicates(),
        seq_with(s, x).contains(x),
        forall|y: K| y != x ==> (seq_with(s, x).contains(y) <==> s.contains(y)),
{
    if !s.contains(x) {
        let r = s.push(x);
        assert(r[s.len() as int] == x);
        assert forall|y: K| y != x implies (r.contains(y) <==> s.contains(y)) by {
            if s.contains(y) {
                let k = choose|k: int| 0 <= k < s.len() && s[k] == y;
                assert(r[k] == y);
            }
            if r.contains(y) {
                let k = choose|k: int| 0 <= k < r.len() && r[k] == y;
                assert(s[k] == y);
            }
        }
    }
}

/// What remains after removing `x` was already there.
pub proof fn lemma_seq_without_within<K>(s: Seq<K>, x: K, y: K)
    ensures
        seq_without(s, x).contains(y) ==> s.contains(y),
{
    if s.contains(x) && seq_without(s, x).contains(y) {
        let i = s.index_of(x);
        let r = s.remove(i);
        let k = choose|k: int| 0 <= k < r.len() && r[k] == y;
        let k2 = if k < i { k } else { k + 1 };
        assert(s[k2] == y);
    }
}

/// After adding `x`, an element is `x` or was already there.
pub proof fn lemma_seq_with_within<K>(s: Seq<K>, x: K, y: K)
    ensures
        seq_with(s, x).contains(y) ==> y == x || s.contains(y),
{
    if !s.contains(x) && seq_with(s, x).contains(y) && y != x {
        let r = s.push(x);
        let k = choose|k: int| 0 <= k < r.len() && r[k] == y;
        assert(k < s.len());
        assert(s[k] == y);
    }
}

/// Appending an absent element and removing it again gives the sequence back.
pub proof fn lemma_with_then_without<K>(s: Seq<K>, x: K)
    requires
        !s.contains(x),
    ensures
        seq_without(seq_with(s, x), x) == s,
{
    let t = s.push(x);
    assert(t[s.len() as int] == x);
    assert(t.contains(x));
    let i = t.index_of(x);
    if i < s.len() {
        assert(s[i] == x);
    }
    assert(t.remove(i) =~= s);
}

/// An insertion-ordered set without duplicates (a storage set mapper).
#[derive(Clone)]
pub struct OrderedSet<K> {
    items: Vec<K>,
}

impl<K> View for OrderedSet<K> {
    type V = Seq<K>;

    closed spec fn view(&self) -> Seq<K> {
        self.items@
    }
}

impl<K: Key + Copy> OrderedSet<K> {
    pub closed spec fn wf(&self) -> bool {
        self.items@.no_duplicates()
    }

    pub fn new() -> (r: Self)
        ensures
            r.wf(),
            r@ == Seq::<K>::empty(),
    {
        OrderedSet { items: Vec::new() }
    }

    pub fn len(&self) -> (r: usize)
        ensures
            r == self@.len(),
    {
        self.items.len()
    }

    pub fn get(&self, i: usize) -> (r: K)
        requires
            i < self@.len(),
        ensures
            r == self@[i as int],
    {
        self.items[i]
    }

    fn position(&self, x: &K) -> (r: Option<usize>)
        requires
            self.wf(),
        ensures
            match r {
                Some(i) => i < self@.len() && self@[i as int] == *x && self@.index_of(*x) == i,
                None => !self@.contains(*x),
            },
    {
        let mut i: usize = 0;
        while i < self.items.len()
            invariant
                i <= self.items@.len(),
                self.items@.no_duplicates(),
                forall|j: int| 0 <= j < i ==> self.items@[j] != *x,
            decreases self.items@.len() - i,
        {
            if self.items[i].same(x) {
                proof {
                    lemma_index_of_unique(self.items@, i as int);
                }
                return Some(i);
            }
            i += 1;
        }
        None
    }

    pub fn contains(&self, x: &K) -> (r: bool)
        requires
            self.wf(),
        ensures
            r == self@.contains(*x),
    {
        match self.position(x) {
            Some(_) => true,
            None => false,
        }
    }

    /// Inserts `x` at the end; returns whether it was absent.
    pub fn insert(&mut self, x: K) -> (r: bool)
        requires
            old(self).wf(),
        ensures
            final(self).wf(),
            final(self)@ == seq_with(old(self)@, x),
            r == !old(self)@.contains(x),
    {
        proof {
            lemma_seq_with_no_dup(self.items@, x);
        }
        match self.position(&x) {
            Some(_) => false,
            None => {
                self.items.push(x);
                true
            },
        }
    }

    /// Removes `x`, keeping the order of the others; returns whether it was there.
    pub fn remove(&mut self, x: &K) -> (r: bool)
        requires
            old(self).wf(),
        ensures
            final(self).wf(),
            final(self)@ == seq_without(old(self)@, *x),
            r == old(self)@.contains(*x),
    {
        proof {
            lemma_seq_without_no_dup(self.items@, *x);
        }
        match self.position(x) {
            Some(i) => {
                self.items.remove(i);
                true
            },
            None => false,
        }
    }

    /// Removes `x`, moving the last element into its place; returns whether it was there.
    pub fn swap_remove(&mut self, x: &K) -> (r: bool)
        requires
            old(self).wf(),
        ensures
            final(self).wf(),
            final(self)@ == seq_swap_without(old(self)@, *x),
            r == old(self)@.contains(*x),
    {
        proof {
            lemma_seq_swap_without_no_dup(self.items@, *x);
        }
        match self.position(x) {
            Some(i) => {
                self.items.swap_remove(i);
                true
            },
            None => false,
        }
    }

    pub fn clear(&mut self)
        ensures
            final(self).wf(),
            final(self)@ == Seq::<K>::empty(),
    {
        self.items.clear();
    }

    /// The elements, in order.
    pub fn to_vec(&self) -> (r: Vec<K>)
        ensures
            r@ == self@,
    {
        let mut r: Vec<K> = Vec::new();
        let mut i: usize = 0;
        while i < self.items.len()
            invariant
                i <= self.items@.len(),
                r@ == self.items@.subrange(0, i as int),
            decreases self.items@.len() - i,
        {
            r.push(self.items[i]);
            i += 1;
            assert(r@ =~= self.items@.subrange(0, i as int));
        }
        assert(r@ =~= self.items@);
        r
    }
}

impl<K: Key + Copy> OrderedSet<K> {
    /// A well-formed set holds no element twice.
    pub proof fn lemma_no_duplicates(&self)
        requires
            self.wf(),
        ensures
            self@.no_duplicates(),
    {
    }

    /// A copy holding the same elements in the same order.
    pub fn duplicate(&self) -> (r: Self)
        ensures
            r@ == self@,
            r.wf() == self.wf(),
    {
        OrderedSet { items: self.to_vec() }
    }
}

/// A map stored as a list of entries with distinct keys.
#[derive(Clone)]
pub struct KeyMap<K, V> {
    entries: Vec<(K, V)>,
}

impl<K, V> KeyMap<K, V> {
    pub closed spec fn keys(&self) -> Seq<K> {
        self.entries@.map_values(|e: (K, V)| e.0)
    }
}

impl<K, V> View for KeyMap<K, V> {
    type V = Map<K, V>;

    closed spec fn view(&self) -> Map<K, V> {
        Map::new(
            |k: K| exists|i: int| 0 <= i < self.entries@.len() && self.entries@[i].0 == k,
            |k: K|
                self.entries@[choose|i: int| 0 <= i < self.entries@.len() && self.entries@[i].0 == k].1,
        )
    }
}

impl<K: Key, V> KeyMap<K, V> {
    pub closed spec fn wf(&self) -> bool {
        forall|i: int, j: int|
            0 <= i < self.entries@.len() && 0 <= j < self.entries@.len() && i != j
                ==> self.entries@[i].0 != self.entries@[j].0
    }

    proof fn lemma_view_at(&self, i: int)
        requires
            self.wf(),
            0 <= i < self.entries@.len(),
        ensures
            self@.contains_key(self.entries@[i].0),
            self@[self.entries@[i].0] == self.entries@[i].1,
    {
        let k = self.entries@[i].0;
        assert(self.entries@[i].0 == k);
        let j = choose|j: int| 0 <= j < self.entries@.len() && self.entries@[j].0 == k;
        assert(j == i);
    }

    pub fn new() -> (r: Self)
        ensures
            r.wf(),
            r@ == Map::<K, V>::empty(),
    {
        let r = KeyMap { entries: Vec::new() };
        assert(r@ =~= Map::<K, V>::empty());
        r
    }

    fn position(&self, k: &K) -> (r: Option<usize>)
        requires
            self.wf(),
        ensures
            match r {
                Some(i) => i < self.entries@.len() && self.entries@[i as int].0 == *k,
                None => !self@.contains_key(*k),
            },
    {
        let mut i: usize = 0;
        while i < self.entries.len()
            invariant
                i <= self.entries@.len(),
                forall|j: int| 0 <= j < i ==> self.entries@[j].0 != *k,
            decreases self.entries@.len() - i,
        {
            if self.entries[i].0.same(k) {
                return Some(i);
            }
            i += 1;
        }
        None
    }

    pub fn contains_key(&self, k: &K) -> (r: bool)
        requires
            self.wf(),
        ensures
            r == self@.contains_key(*k),
    {
        match self.position(k) {
            Some(i) => {
                proof {
                    self.lemma_view_at(i as int);
                }
                true
            },
            None => false,
        }
    }

    pub fn get(&self, k: &K) -> (r: Option<&V>)
        requires
            self.wf(),
        ensures
            match r {
                Some(v) => self@.contains_key(*k) && self@[*k] == *v,
                None => !self@.contains_key(*k),
            },
    {
        match self.position(k) {
            Some(i) => {
                proof {
                    self.lemma_view_at(i as int);
                }
                Some(&self.entries[i].1)
            },
            None => None,
        }
    }

    /// Sets the value of `k`.
    pub fn insert(&mut self, k: K, v: V)
        requires
            old(self).wf(),
        ensures
            final(self).wf(),
            final(self)@ == old(self)@.insert(k, v),
    {
        let ghost old_m = self@;
        let ghost old_e = self.entries@;
        match self.position(&k) {
            Some(i) => {
                self.entries.set(i, (k, v));
                proof {
                    assert forall|kk: K| #[trigger] self@.contains_key(kk) == old_m.insert(
                        k,
                        v,
                    ).contains_key(kk) by {
                        if kk == k {
                            assert(self.entries@[i as int].0 == kk);
                        }
                        if old_m.insert(k, v).contains_key(kk) && kk != k {
                            let j = choose|j: int|
                                0 <= j < old_e.len() && old_e[j].0 == kk;
                            assert(self.entries@[j] == old_e[j]);
                            assert(self.entries@[j].0 == kk);
                        }
                        if self@.contains_key(kk) && kk != k {
                            let j = choose|j: int|
                                0 <= j < self.entries@.len() && self.entries@[j].0 == kk;
                            assert(j != i);
                            assert(self.entries@[j] == old_e[j]);
                            assert(old_e[j].0 == kk);
                        }
                    }
                    assert forall|kk: K| #[trigger] self@.contains_key(kk) implies self@[kk]
                        == old_m.insert(k, v)[kk] by {
                        let j = choose|j: int|
                            0 <= j < self.entries@.len() && self.entries@[j].0 == kk;
                        self.lemma_view_at(j);
                        if j != i {
                            assert(old_e[j] == self.entries@[j]);
                            assert(old_e[j].0 == kk);
                            assert(old_m.contains_key(kk)) by {
                                assert(old_e[j].0 == kk);
                            }
                            let j2 = choose|j2: int| 0 <= j2 < old_e.len() && old_e[j2].0 == kk;
                            assert(j2 == j);
                        }
                    }
                    assert(self@ =~= old_m.insert(k, v));
                }
            },
            None => {
                self.entries.push((k, v));
                proof {
                    let n = old_e.len() as int;
                    assert(self.entries@[n].0 == k);
                    assert forall|kk: K| #[trigger] self@.contains_key(kk) == old_m.insert(
                        k,
                        v,
                    ).contains_key(kk) by {
                        if kk == k {
                            assert(self.entries@[n].0 == kk);
                        }
                        if old_m.insert(k, v).contains_key(kk) && kk != k {
                            let j = choose|j: int|
                                0 <= j < old_e.len() && old_e[j].0 == kk;
                            assert(self.entries@[j] == old_e[j]);
                            assert(self.entries@[j].0 == kk);
                        }
                        if self@.contains_key(kk) && kk != k {
                            let j = choose|j: int|
                                0 <= j < self.entries@.len() && self.entries@[j].0 == kk;
                            assert(j != n);
                            assert(self.entries@[j] == old_e[j]);
                            assert(old_e[j].0 == kk);
                        }
                    }
                    assert forall|kk: K| #[trigger] self@.contains_key(kk) implies self@[kk]
                        == old_m.insert(k, v)[kk] by {
                        let j = choose|j: int|
                            0 <= j < self.entries@.len() && self.entries@[j].0 == kk;
                        self.lemma_view_at(j);
                        if j != n {
                            assert(old_e[j].0 == kk);
                            let j2 = choose|j2: int| 0 <= j2 < old_e.len() && old_e[j2].0 == kk;
                            assert(j2 == j);
                        }
                    }
                    assert(self@ =~= old_m.insert(k, v));
                }
            },
        }
    }

    /// Removes `k` and returns its value, if any.
    pub fn remove(&mut self, k: &K) -> (r: Option<V>)
        requires
            old(self).wf(),
        ensures
            final(self).wf(),
            final(self)@ == old(self)@.remove(*k),
            match r {
                Some(v) => old(self)@.contains_key(*k) && old(self)@[*k] == v,
                None => !old(self)@.contains_key(*k),
            },
    {
        let ghost old_m = self@;
        let ghost old_e = self.entries@;
        match self.position(k) {
            Some(i) => {
                proof {
                    self.lemma_view_at(i as int);
                }
                let (_, v) = self.entries.swap_remove(i);
                proof {
                    let n = old_e.len() as int;
                    let e = self.entries@;
                    assert forall|a: int| 0 <= a < e.len() implies #[trigger] e[a] == (if a == i {
                        old_e[n - 1]
                    } else {
                        old_e[a]
                    }) by {}
                    assert forall|kk: K| #[trigger] self@.contains_key(kk) == old_m.remove(
                        *k,
                    ).contains_key(kk) by {
                        if old_m.remove(*k).contains_key(kk) {
                            let j = choose|j: int|
                                0 <= j < old_e.len() && old_e[j].0 == kk;
                            assert(j != i);
                            let j2 = if j == n - 1 { i as int } else { j };
                            assert(e[j2].0 == kk);
                        }
                        if self@.contains_key(kk) {
                            let j = choose|j: int| 0 <= j < e.len() && e[j].0 == kk;
                            let j2 = if j == i { n - 1 } else { j };
                            assert(old_e[j2].0 == kk);
                            assert(j2 != i);
                        }
                    }
                    assert forall|kk: K| #[trigger] self@.contains_key(kk) implies self@[kk]
                        == old_m.remove(*k)[kk] by {
                        let j = choose|j: int| 0 <= j < e.len() && e[j].0 == kk;
                        self.lemma_view_at(j);
                        let j2 = if j == i { n - 1 } else { j };
                        assert(old_e[j2] == e[j]);
                        let j3 = choose|j3: int| 0 <= j3 < old_e.len() && old_e[j3].0 == kk;
                        assert(old_e[j3].0 == old_e[j2].0);
                        assert(j3 == j2);
                    }
                    assert(self@ =~= old_m.remove(*k));
                }
                Some(v)
            },
            None => {
                assert(self@ =~= old_m.remove(*k));
                None
            },
        }
    }
}


impl<K: Key + Copy, V: Copy> KeyMap<K, V> {
    /// A copy holding the same entries in the same order.
    pub fn duplicate(&self) -> (r: Self)
        ensures
            r@ == self@,
            r.wf() == self.wf(),
    {
        let mut entries: Vec<(K, V)> = Vec::new();
        let mut i: usize = 0;
        while i < self.entries.len()
            invariant
                i <= self.entries@.len(),
                entries@ == self.entries@.subrange(0, i as int),
            decreases self.entries@.len() - i,
        {
            entries.push(self.entries[i]);
            i += 1;
            assert(entries@ =~= self.entries@.subrange(0, i as int));
        }
        assert(entries@ =~= self.entries@);
        KeyMap { entries }
    }
}

impl<K: Key + Copy, E: Key + Copy> KeyMap<K, OrderedSet<E>> {
    /// A copy holding, under the same keys in the same order, copies of the sets.
    fn duplicate_sets(&self) -> (r: Self)
        requires
            self.wf(),
        ensures
            r.wf(),
            r@.dom() == self@.dom(),
            forall|k: K| #[trigger] r@.contains_key(k) ==> r@[k]@ == self@[k]@ && r@[k].wf() == self@[k].wf(),
    {
        let mut entries: Vec<(K, OrderedSet<E>)> = Vec::new();
        let mut i: usize = 0;
        while i < self.entries.len()
            invariant
                i <= self.entries@.len(),
                entries@.len() == i,
                forall|j: int| 0 <= j < i ==> (#[trigger] entries@[j]).0 == self.entries@[j].0,
                forall|j: int|
                    0 <= j < i ==> (#[trigger] entries@[j]).1@ == self.entries@[j].1@ && entries@[j].1.wf()
                        == self.entries@[j].1.wf(),
            decreases self.entries@.len() - i,
        {
            let e = &self.entries[i];
            entries.push((e.0, e.1.duplicate()));
            i += 1;
        }
        let r = KeyMap { entries };
        assert(r.wf());
        assert forall|k: K| r@.contains_key(k) <==> self@.contains_key(k) by {
            if r@.contains_key(k) {
                let j = choose|j: int| 0 <= j < r.entries@.len() && r.entries@[j].0 == k;
                assert(self.entries@[j].0 == k);
            }
            if self@.contains_key(k) {
                let j = choose|j: int| 0 <= j < self.entries@.len() && self.entries@[j].0 == k;
                assert(r.entries@[j].0 == k);
            }
        }
        assert(r@.dom() =~= self@.dom());
        assert forall|k: K| #[trigger] r@.contains_key(k) implies r@[k]@ == self@[k]@ && r@[k].wf() == self@[k].wf() by {
            let j = choose|j: int| 0 <= j < r.entries@.len() && r.entries@[j].0 == k;
            r.lemma_view_at(j);
            self.lemma_view_at(j);
        }
        r
    }
}


/// The set stored under `k` in a family of sets (empty when absent).
pub open spec fn set_at<K, E>(m: Map<K, Seq<E>>, k: K) -> Seq<E> {
    if m.contains_key(k) {
        m[k]
    } else {
        Seq::empty()
    }
}

/// The family with the set under `k` replaced; an empty set clears the key.
pub open spec fn with_set<K, E>(m: Map<K, Seq<E>>, k: K, s: Seq<E>) -> Map<K, Seq<E>> {
    if s.len() == 0 {
        m.remove(k)
    } else {
        m.insert(k, s)
    }
}

/// The amount stored under `k` (zero when absent).
pub open spec fn amount_at<K>(m: Map<K, u128>, k: K) -> u128 {
    if m.contains_key(k) {
        m[k]
    } else {
        0
    }
}

/// The amounts with the one under `k` replaced; zero clears the key.
pub open spec fn with_amount<K>(m: Map<K, u128>, k: K, a: u128) -> Map<K, u128> {
    if a == 0 {
        m.remove(k)
    } else {
        m.insert(k, a)
    }
}

/// A family of insertion-ordered sets indexed by a key (a keyed set mapper).
#[derive(Clone)]
pub struct SetFamily<K, E> {
    sets: KeyMap<K, OrderedSet<E>>,
}

impl<K, E> View for SetFamily<K, E> {
    type V = Map<K, Seq<E>>;

    closed spec fn view(&self) -> Map<K, Seq<E>> {
        self.sets@.map_values(|s: OrderedSet<E>| s@)
    }
}

impl<K: Key + Copy, E: Key + Copy> SetFamily<K, E> {
    pub closed spec fn wf(&self) -> bool {
        &&& self.sets.wf()
        &&& forall|k: K| #[trigger]
            self.sets@.contains_key(k) ==> self.sets@[k].wf() && self.sets@[k]@.len() > 0
    }

    pub fn new() -> (r: Self)
        ensures
            r.wf(),
            r@ == Map::<K, Seq<E>>::empty(),
    {
        let r = SetFamily { sets: KeyMap::new() };
        assert(r@ =~= Map::<K, Seq<E>>::empty());
        r
    }

    fn take(&mut self, k: &K) -> (r: OrderedSet<E>)
        requires
            old(self).wf(),
        ensures
            final(self).wf(),
            final(self)@ == old(self)@.remove(*k),
            r.wf(),
            r@ == set_at(old(self)@, *k),
    {
        let ghost old_v = self@;
        match self.sets.remove(k) {
            Some(s) => {
                assert(self@ =~= old_v.remove(*k));
                s
            },
            None => {
                assert(self@ =~= old_v.remove(*k));
                OrderedSet::new()
            },
        }
    }

    fn put(&mut self, k: K, s: OrderedSet<E>)
        requires
            old(self).wf(),
            !old(self)@.contains_key(k),
            s.wf(),
        ensures
            final(self).wf(),
            final(self)@ == with_set(old(self)@, k, s@),
    {
        let ghost old_v = self@;
        if s.len() > 0 {
            let ghost sv = s@;
            self.sets.insert(k, s);
            assert(self@ =~= old_v.insert(k, sv));
        } else {
            assert(old_v.remove(k) =~= old_v);
        }
    }

    pub fn len(&self, k: &K) -> (r: usize)
        requires
            self.wf(),
        ensures
            r == set_at(self@, *k).len(),
    {
        match self.sets.get(k) {
            Some(s) => s.len(),
            None => 0,
        }
    }

    pub fn contains(&self, k: &K, e: &E) -> (r: bool)
        requires
            self.wf(),
        ensures
            r == set_at(self@, *k).contains(*e),
    {
        match self.sets.get(k) {
            Some(s) => s.contains(e),
            None => false,
        }
    }

    pub fn to_vec(&self, k: &K) -> (r: Vec<E>)
        requires
            self.wf(),
        ensures
            r@ == set_at(self@, *k),
    {
        match self.sets.get(k) {
            Some(s) => s.to_vec(),
            None => Vec::new(),
        }
    }

    pub fn insert(&mut self, k: K, e: E) -> (r: bool)
        requires
            old(self).wf(),
        ensures
            final(self).wf(),
            final(self)@ == with_set(old(self)@, k, seq_with(set_at(old(self)@, k), e)),
            r == !set_at(old(self)@, k).contains(e),
    {
        let ghost old_v = self@;
        let mut s = self.take(&k);
        let r = s.insert(e);
        self.put(k, s);
        assert(old_v.remove(k).insert(k, seq_with(set_at(old_v, k), e)) =~= old_v.insert(
            k,
            seq_with(set_at(old_v, k), e),
        ));
        assert(old_v.remove(k).remove(k) =~= old_v.remove(k));
        r
    }

    pub fn remove(&mut self, k: &K, e: &E) -> (r: bool)
        requires
            old(self).wf(),
        ensures
            final(self).wf(),
            final(self)@ == with_set(old(self)@, *k, seq_without(set_at(old(self)@, *k), *e)),
            r == set_at(old(self)@, *k).contains(*e),
    {
        let ghost old_v = self@;
        let mut s = self.take(k);
        let r = s.remove(e);
        self.put(*k, s);
        assert(old_v.remove(*k).insert(*k, seq_without(set_at(old_v, *k), *e)) =~= old_v.insert(
            *k,
            seq_without(set_at(old_v, *k), *e),
        ));
        assert(old_v.remove(*k).remove(*k) =~= old_v.remove(*k));
        r
    }

    pub fn swap_remove(&mut self, k: &K, e: &E) -> (r: bool)
        requires
            old(self).wf(),
        ensures
            final(self).wf(),
            final(self)@ == with_set(
                old(self)@,
                *k,
                seq_swap_without(set_at(old(self)@, *k), *e),
            ),
            r == set_at(old(self)@, *k).contains(*e),
    {
        let ghost old_v = self@;
        let mut s = self.take(k);
        let r = s.swap_remove(e);
        self.put(*k, s);
        assert(old_v.remove(*k).insert(*k, seq_swap_without(set_at(old_v, *k), *e))
            =~= old_v.insert(*k, seq_swap_without(set_at(old_v, *k), *e)));
        assert(old_v.remove(*k).remove(*k) =~= old_v.remove(*k));
        r
    }

    pub fn clear(&mut self, k: &K)
        requires
            old(self).wf(),
        ensures
            final(self).wf(),
            final(self)@ == old(self)@.remove(*k),
    {
        let _ = self.take(k);
    }
}

impl<K: Key + Copy, E: Key + Copy> SetFamily<K, E> {
    /// In a well-formed family, no set holds an element twice, and no set
    /// on record is empty.
    pub proof fn lemma_no_duplicates(&self)
        requires
            self.wf(),
        ensures
            forall|k: K| #[trigger] set_at(self@, k).no_duplicates(),
            forall|k: K| #[trigger] self@.contains_key(k) ==> self@[k].len() > 0,
    {
        assert forall|k: K| #[trigger] set_at(self@, k).no_duplicates() by {
            if self@.contains_key(k) {
                assert(self.sets@.contains_key(k));
                self.sets@[k].lemma_no_duplicates();
            }
        }
    }

    /// A copy holding the same sets under the same keys.
    pub fn duplicate(&self) -> (r: Self)
        requires
            self.wf(),
        ensures
            r@ == self@,
            r.wf(),
    {
        let r = SetFamily { sets: self.sets.duplicate_sets() };
        assert(r@ =~= self@);
        r
    }
}

impl<K: Key + Copy> AmountMap<K> {
    /// A well-formed map of amounts holds no zero amount.
    pub proof fn lemma_positive(&self)
        requires
            self.wf(),
        ensures
            forall|k: K| #[trigger] self@.contains_key(k) ==> self@[k] > 0,
    {
    }

    /// A copy holding the same amounts.
    pub fn duplicate(&self) -> (r: Self)
        ensures
            r@ == self@,
            r.wf() == self.wf(),
    {
        AmountMap { amounts: self.amounts.duplicate() }
    }
}

/// Amounts indexed by a key; a zero amount is not stored.
#[derive(Clone)]
pub struct AmountMap<K> {
    amounts: KeyMap<K, u128>,
}

impl<K> View for AmountMap<K> {
    type V = Map<K, u128>;

    closed spec fn view(&self) -> Map<K, u128> {
        self.amounts@
    }
}

impl<K: Key + Copy> AmountMap<K> {
    pub closed spec fn wf(&self) -> bool {
        &&& self.amounts.wf()
        &&& forall|k: K| #[trigger] self.amounts@.contains_key(k) ==> self.amounts@[k] > 0
    }

    pub fn new() -> (r: Self)
        ensures
            r.wf(),
            r@ == Map::<K, u128>::empty(),
    {
        AmountMap { amounts: KeyMap::new() }
    }

    pub fn get(&self, k: &K) -> (r: u128)
        requires
            self.wf(),
        ensures
            r == amount_at(self@, *k),
    {
        match self.amounts.get(k) {
            Some(a) => *a,
            None => 0,
        }
    }

    pub fn set(&mut self, k: K, a: u128)
        requires
            old(self).wf(),
        ensures
            final(self).wf(),
            final(self)@ == with_amount(old(self)@, k, a),
    {
        if a == 0 {
            let _ = self.amounts.remove(&k);
        } else {
            self.amounts.insert(k, a);
        }
    }
}

} // verus!
