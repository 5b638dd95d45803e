//! Ordered maps and sets kept as strictly sorted vectors.
//!
//! Keys are ordered by a strict total order stated on their views, so the
//! entries are always visited in ascending key order and two maps with the
//! same contents have the same representation.
use vstd::prelude::*;
use crate::text::{chars_lt, compare_chars, lemma_chars_lt_irreflexive, lemma_chars_lt_total,
    lemma_chars_lt_transitive, KeyOrder};

verus! {

/// A key type with a strict total order on its views.
pub trait OrderedKey: Sized {
    type KeyView;

    spec fn key_view(&self) -> Self::KeyView;

    spec fn view_lt(a: Self::KeyView, b: Self::KeyView) -> bool;

    proof fn lemma_view_lt_irreflexive(a: Self::KeyView)
        ensures
            !Self::view_lt(a, a),
    ;

    proof fn lemma_view_lt_transitive(a: Self::KeyView, b: Self::KeyView, c: Self::KeyView)
        requires
            Self::view_lt(a, b),
            Self::view_lt(b, c),
        ensures
            Self::view_lt(a, c),
    ;

    proof fn lemma_view_lt_total(a: Self::KeyView, b: Self::KeyView)
        ensures
            a == b || Self::view_lt(a, b) || Self::view_lt(b, a),
    ;

    fn compare_key(&self, other: &Self) -> (r: KeyOrder)
        ensures
            r == KeyOrder::Less <==> Self::view_lt(self.key_view(), other.key_view()),
            r == KeyOrder::Equal <==> self.key_view() == other.key_view(),
            r == KeyOrder::Greater <==> Self::view_lt(other.key_view(), self.key_view()),
    ;

    fn copy_key(&self) -> (r: Self)
        ensures
            r.key_view() == self.key_view(),
    ;
}

impl OrderedKey for String {
    type KeyView = Seq<char>;

    open spec fn key_view(&self) -> Seq<char> {
        self@
    }

    open spec fn view_lt(a: Seq<char>, b: Seq<char>) -> bool {
        chars_lt(a, b)
    }

    proof fn lemma_view_lt_irreflexive(a: Seq<char>) {
        lemma_chars_lt_irreflexive(a);
    }

    proof fn lemma_view_lt_transitive(a: Seq<char>, b: Seq<char>, c: Seq<char>) {
        lemma_chars_lt_transitive(a, b, c);
    }

    proof fn lemma_view_lt_total(a: Seq<char>, b: Seq<char>) {
        lemma_chars_lt_total(a, b);
    }

    fn compare_key(&self, other: &Self) -> (r: KeyOrder) {
        compare_chars(self.as_str(), other.as_str())
    }

    fn copy_key(&self) -> (r: Self) {
        self.clone()
    }
}

/// Keys in strictly ascending order.
pub open spec fn strictly_sorted<K: OrderedKey>(s: Seq<K::KeyView>) -> bool {
    forall|i: int, j: int| 0 <= i < j < s.len() ==> #[trigger] K::view_lt(s[i], s[j])
}

/// In a strictly sorted sequence a key occurs at most once.
pub proof fn lemma_sorted_unique<K: OrderedKey>(s: Seq<K::KeyView>, i: int, j: int)
    requires
        strictly_sorted::<K>(s),
        0 <= i < s.len(),
        0 <= j < s.len(),
        s[i] == s[j],
    ensures
        i == j,
{
    if i < j {
        assert(K::view_lt(s[i], s[j]));
        K::lemma_view_lt_irreflexive(s[i]);
    } else if j < i {
        assert(K::view_lt(s[j], s[i]));
        K::lemma_view_lt_irreflexive(s[i]);
    }
}

/// In a strictly sorted sequence, `index_of` names the one position of a key.
pub proof fn lemma_sorted_index_of<K: OrderedKey>(s: Seq<K::KeyView>, i: int)
    requires
        strictly_sorted::<K>(s),
        0 <= i < s.len(),
    ensures
        s.index_of(s[i]) == i,
{
    assert(s.contains(s[i]));
    let j = s.index_of(s[i]);
    lemma_sorted_unique::<K>(s, i, j);
}

/// Two strictly sorted sequences with the same elements are equal: the order
/// of a sorted collection is determined by its contents alone.
pub proof fn lemma_sorted_determined_by_contents<K: OrderedKey>(a: Seq<K::KeyView>, b: Seq<K::KeyView>)
    requires
        strictly_sorted::<K>(a),
        strictly_sorted::<K>(b),
        a.to_set() == b.to_set(),
    ensures
        a == b,
    decreases a.len(),
{
    if a.len() == 0 {
        if b.len() > 0 {
            assert(b.to_set().contains(b[0]));
        }
        assert(a =~= b);
    } else {
        assert(a.to_set().contains(a[0]));
        assert(b.len() > 0);
        assert(b.to_set().contains(b[0]));
        let i = a.index_of(b[0]);
        let j = b.index_of(a[0]);
        if i > 0 && j > 0 {
            assert(K::view_lt(a[0], a[i]));
            assert(K::view_lt(b[0], b[j]));
            K::lemma_view_lt_transitive(a[0], b[0], a[0]);
            K::lemma_view_lt_irreflexive(a[0]);
        }
        let x = a[0];
        assert(b[0] == x);
        let ra = a.drop_first();
        let rb = b.drop_first();
        assert forall|k: K::KeyView| ra.to_set().contains(k) <==> a.to_set().remove(x).contains(k) by {
            if ra.to_set().contains(k) {
                let p = ra.index_of(k);
                assert(a[p + 1] == k);
                if k == x {
                    lemma_sorted_unique::<K>(a, 0, p + 1);
                }
            }
            if a.to_set().remove(x).contains(k) {
                let p = a.index_of(k);
                assert(p != 0);
                assert(ra[p - 1] == k);
            }
        }
        assert forall|k: K::KeyView| rb.to_set().contains(k) <==> b.to_set().remove(x).contains(k) by {
            if rb.to_set().contains(k) {
                let p = rb.index_of(k);
                assert(b[p + 1] == k);
                if k == x {
                    lemma_sorted_unique::<K>(b, 0, p + 1);
                }
            }
            if b.to_set().remove(x).contains(k) {
                let p = b.index_of(k);
                assert(p != 0);
                assert(rb[p - 1] == k);
            }
        }
        assert(ra.to_set() =~= rb.to_set());
        lemma_sorted_determined_by_contents::<K>(ra, rb);
        assert(a =~= seq![x] + ra);
        assert(b =~= seq![x] + rb);
    }
}

/// Inserting a key at its ordered position keeps a sequence strictly sorted.
pub proof fn lemma_insert_sorted<K: OrderedKey>(s: Seq<K::KeyView>, pos: int, kv: K::KeyView)
    requires
        strictly_sorted::<K>(s),
        0 <= pos <= s.len(),
        forall|j: int| 0 <= j < pos ==> K::view_lt(#[trigger] s[j], kv),
        pos < s.len() ==> !K::view_lt(s[pos], kv),
        pos < s.len() ==> s[pos] != kv,
    ensures
        strictly_sorted::<K>(s.insert(pos, kv)),
{
    let nk = s.insert(pos, kv);
    if pos < s.len() {
        K::lemma_view_lt_total(s[pos], kv);
    }
    assert forall|i: int, j: int| 0 <= i < j < nk.len() implies #[trigger] K::view_lt(nk[i], nk[j]) by {
        if j > pos {
            assert(nk[j] == s[j - 1]);
            if j - 1 > pos {
                assert(K::view_lt(s[pos], s[j - 1]));
                K::lemma_view_lt_transitive(kv, s[pos], s[j - 1]);
            }
            assert(K::view_lt(kv, nk[j]));
        }
        if i < pos && j > pos {
            assert(K::view_lt(s[i], kv));
            K::lemma_view_lt_transitive(s[i], kv, nk[j]);
        } else if i < pos && j < pos {
            assert(nk[i] == s[i] && nk[j] == s[j]);
        } else if i > pos {
            assert(nk[i] == s[i - 1] && nk[j] == s[j - 1]);
        }
    }
}

/// Finite map with keys kept in ascending order.
#[derive(Debug)]
pub struct OrdMap<K: OrderedKey, V> {
    entries: Vec<(K, V)>,
}

impl<K: OrderedKey, V> OrdMap<K, V> {
    closed spec fn raw_keys(&self) -> Seq<K::KeyView> {
        self.entries@.map_values(|e: (K, V)| e.0.key_view())
    }

    #[verifier::type_invariant]
    closed spec fn sorted_entries(&self) -> bool {
        strictly_sorted::<K>(self.raw_keys())
    }

    /// Keys in ascending order.
    pub closed spec fn keys(&self) -> Seq<K::KeyView> {
        if strictly_sorted::<K>(self.raw_keys()) {
            self.raw_keys()
        } else {
            Seq::empty()
        }
    }

    /// Values, in the order of their keys.
    pub closed spec fn values(&self) -> Seq<V> {
        if strictly_sorted::<K>(self.raw_keys()) {
            self.entries@.map_values(|e: (K, V)| e.1)
        } else {
            Seq::empty()
        }
    }

    /// The value stored under a key that the map holds.
    pub open spec fn value_of(&self, k: K::KeyView) -> V {
        self.values()[self.keys().index_of(k)]
    }

    /// The map's contents as a mathematical map.
    pub open spec fn as_map(&self) -> Map<K::KeyView, V> {
        Map::new(|k: K::KeyView| self.keys().contains(k), |k: K::KeyView| self.value_of(k))
    }

    /// The keys are strictly sorted and as many as the values.
    pub proof fn lemma_shape(&self)
        ensures
            strictly_sorted::<K>(self.keys()),
            self.keys().len() == self.values().len(),
    {
    }

    /// The map has one entry per stored key.
    pub proof fn lemma_len(&self)
        ensures
            self.as_map().len() == self.keys().len(),
    {
        let ks = self.keys();
        assert forall|i: int, j: int| 0 <= i < ks.len() && 0 <= j < ks.len() && i != j implies ks[i] != ks[j] by {
            if ks[i] == ks[j] {
                lemma_sorted_unique::<K>(ks, i, j);
            }
        }
        assert(ks.no_duplicates());
        ks.unique_seq_to_set();
        assert(self.as_map().dom() =~= ks.to_set());
    }

    /// The value at a position is the value of the key at that position.
    pub proof fn lemma_value_at(&self, i: int)
        requires
            0 <= i < self.keys().len(),
        ensures
            self.value_of(self.keys()[i]) == self.values()[i],
            self.as_map().contains_key(self.keys()[i]),
            self.as_map()[self.keys()[i]] == self.values()[i],
    {
        lemma_sorted_index_of::<K>(self.keys(), i);
    }

    pub fn new() -> (r: Self)
        ensures
            r.keys().len() == 0,
            r.values().len() == 0,
            r.as_map() == Map::<K::KeyView, V>::empty(),
    {
        let r = OrdMap { entries: Vec::new() };
        assert(r.raw_keys() =~= Seq::<K::KeyView>::empty());
        assert(r.as_map() =~= Map::<K::KeyView, V>::empty());
        r
    }

    pub fn len(&self) -> (n: usize)
        ensures
            n == self.keys().len(),
    {
        proof {
            use_type_invariant(self);
        }
        self.entries.len()
    }

    pub fn is_empty(&self) -> (b: bool)
        ensures
            b == (self.keys().len() == 0),
    {
        proof {
            use_type_invariant(self);
        }
        self.entries.len() == 0
    }

    pub fn key_at(&self, i: usize) -> (k: &K)
        requires
            i < self.keys().len(),
        ensures
            k.key_view() == self.keys()[i as int],
    {
        proof {
            use_type_invariant(self);
        }
        &self.entries[i].0
    }

    pub fn value_at(&self, i: usize) -> (v: &V)
        requires
            i < self.keys().len(),
        ensures
            *v == self.values()[i as int],
    {
        proof {
            use_type_invariant(self);
        }
        &self.entries[i].1
    }

    /// Position of a key, if the map holds it.
    pub fn find(&self, k: &K) -> (r: Option<usize>)
        ensures
            match r {
                Some(i) => i < self.keys().len() && self.keys()[i as int] == k.key_view(),
                None => !self.keys().contains(k.key_view()),
            },
    {
        proof {
            use_type_invariant(self);
        }
        let n = self.entries.len();
        let mut i: usize = 0;
        while i < n
            invariant
                n == self.keys().len(),
                self.keys() == self.raw_keys(),
                i <= n,
                forall|j: int| 0 <= j < i ==> self.keys()[j] != k.key_view(),
            decreases n - i,
        {
            match self.entries[i].0.compare_key(k) {
                KeyOrder::Equal => {
                    return Some(i);
                },
                _ => {},
            }
            i = i + 1;
        }
        None
    }

    pub fn contains_key(&self, k: &K) -> (b: bool)
        ensures
            b == self.keys().contains(k.key_view()),
            b == self.as_map().contains_key(k.key_view()),
    {
        match self.find(k) {
            Some(_) => true,
            None => false,
        }
    }

    pub fn get(&self, k: &K) -> (r: Option<&V>)
        ensures
            r is Some == self.as_map().contains_key(k.key_view()),
            r matches Some(v) ==> *v == self.as_map()[k.key_view()],
    {
        match self.find(k) {
            Some(i) => {
                proof {
                    self.lemma_value_at(i as int);
                }
                Some(self.value_at(i))
            },
            None => None,
        }
    }

    /// First position whose key is not below `k`.
    pub fn lower_bound(&self, k: &K) -> (r: usize)
        ensures
            r <= self.keys().len(),
            forall|j: int| 0 <= j < r ==> K::view_lt(#[trigger] self.keys()[j], k.key_view()),
            r < self.keys().len() ==> !K::view_lt(self.keys()[r as int], k.key_view()),
    {
        proof {
            use_type_invariant(self);
        }
        let n = self.entries.len();
        let mut i: usize = 0;
        while i < n
            invariant
                n == self.keys().len(),
                self.keys() == self.raw_keys(),
                i <= n,
                forall|j: int| 0 <= j < i ==> K::view_lt(#[trigger] self.keys()[j], k.key_view()),
            decreases n - i,
        {
            match self.entries[i].0.compare_key(k) {
                KeyOrder::Less => {},
                _ => {
                    return i;
                },
            }
            i = i + 1;
        }
        n
    }

    /// Stores `v` under `k`, replacing any value stored there before.
    pub fn insert(&mut self, k: K, v: V)
        ensures
            final(self).as_map() == old(self).as_map().insert(k.key_view(), v),
            final(self).keys().to_set() == old(self).keys().to_set().insert(k.key_view()),
    {
        proof {
            use_type_invariant(&*self);
        }
        let ghost old_keys = self.keys();
        let ghost old_values = self.values();
        let ghost kv = k.key_view();
        let pos = self.lower_bound(&k);
        let mut entries = Vec::new();
        std::mem::swap(&mut entries, &mut self.entries);
        let ghost raw_old = entries@;
        assert(raw_old.map_values(|e: (K, V)| e.0.key_view()) == old_keys);
        let same = if pos < entries.len() {
            match entries[pos].0.compare_key(&k) {
                KeyOrder::Equal => true,
                _ => false,
            }
        } else {
            false
        };
        if same {
            entries.set(pos, (k, v));
            proof {
                let nk = entries@.map_values(|e: (K, V)| e.0.key_view());
                assert(nk =~= old_keys);
            }
        } else {
            entries.insert(pos, (k, v));
            proof {
                let nk = entries@.map_values(|e: (K, V)| e.0.key_view());
                assert(nk =~= old_keys.insert(pos as int, kv));
                lemma_insert_sorted::<K>(old_keys, pos as int, kv);
            }
        }
        self.entries = entries;
        proof {
            let nk = self.keys();
            let nv = self.values();
            assert(strictly_sorted::<K>(self.raw_keys()));
            if same {
                assert(nk =~= old_keys);
                assert(nv =~= old_values.update(pos as int, v));
            } else {
                assert(nk =~= old_keys.insert(pos as int, kv));
                assert(nv =~= old_values.insert(pos as int, v));
            }
            assert forall|key: K::KeyView| #![auto]
                self.as_map().contains_key(key) == old(self).as_map().insert(kv, v).contains_key(key)
                by {
                if old_keys.contains(key) {
                    let oi = old_keys.index_of(key);
                    if same || oi < pos {
                        assert(nk[oi] == key);
                    } else {
                        assert(nk[oi + 1] == key);
                    }
                }
                if nk.contains(key) && key != kv {
                    let ni = nk.index_of(key);
                    if same || ni < pos {
                        assert(old_keys[ni] == key);
                    } else {
                        assert(old_keys[ni - 1] == key);
                    }
                }
                if key == kv {
                    assert(nk[pos as int] == kv);
                }
            }
            assert forall|key: K::KeyView| #![auto] self.as_map().contains_key(key) implies
                self.as_map()[key] == old(self).as_map().insert(kv, v)[key] by {
                let ni = nk.index_of(key);
                lemma_sorted_index_of::<K>(nk, ni);
                if key == kv {
                    lemma_sorted_unique::<K>(nk, ni, pos as int);
                } else if same || ni < pos {
                    lemma_sorted_index_of::<K>(old_keys, ni);
                } else {
                    lemma_sorted_index_of::<K>(old_keys, ni - 1);
                }
            }
            assert(self.as_map() =~= old(self).as_map().insert(kv, v));
            assert(self.keys().to_set() =~= old(self).keys().to_set().insert(kv));
        }
    }

    /// Removes the entry stored under `k`, returning its value.
    pub fn remove(&mut self, k: &K) -> (r: Option<V>)
        ensures
            final(self).as_map() == old(self).as_map().remove(k.key_view()),
            r is Some == old(self).as_map().contains_key(k.key_view()),
            r matches Some(v) ==> v == old(self).as_map()[k.key_view()],
    {
        proof {
            use_type_invariant(&*self);
        }
        let ghost old_keys = self.keys();
        let ghost old_values = self.values();
        let ghost kv = k.key_view();
        match self.find(k) {
            None => {
                assert(self.as_map() =~= old(self).as_map().remove(kv));
                None
            },
            Some(pos) => {
                proof {
                    self.lemma_value_at(pos as int);
                }
                let mut entries = Vec::new();
                std::mem::swap(&mut entries, &mut self.entries);
                assert(entries@.map_values(|e: (K, V)| e.0.key_view()) == old_keys);
                let (_, removed) = entries.remove(pos);
                proof {
                    let nk = entries@.map_values(|e: (K, V)| e.0.key_view());
                    assert(nk =~= old_keys.remove(pos as int));
                    assert forall|i: int, j: int| 0 <= i < j < nk.len() implies #[trigger] K::view_lt(
                        nk[i],
                        nk[j],
                    ) by {
                        if i < pos && j >= pos {
                            assert(nk[j] == old_keys[j + 1]);
                        } else if i >= pos {
                            assert(nk[i] == old_keys[i + 1]);
                        }
                    }
                }
                self.entries = entries;
                proof {
                    let nk = self.keys();
                    let nv = self.values();
                    assert(nk =~= old_keys.remove(pos as int));
                    assert(nv =~= old_values.remove(pos as int));
                    assert forall|key: K::KeyView| #![auto]
                        self.as_map().contains_key(key) == old(self).as_map().remove(kv).contains_key(
                            key,
                        ) by {
                        if old_keys.contains(key) && key != kv {
                            let oi = old_keys.index_of(key);
                            if oi < pos {
                                assert(nk[oi] == key);
                            } else {
                                assert(oi != pos);
                                assert(nk[oi - 1] == key);
                            }
                        }
                        if nk.contains(key) {
                            let ni = nk.index_of(key);
                            if ni < pos {
                                assert(old_keys[ni] == key);
                                if key == kv {
                                    lemma_sorted_unique::<K>(old_keys, ni, pos as int);
                                }
                            } else {
                                assert(old_keys[ni + 1] == key);
                                if key == kv {
                                    lemma_sorted_unique::<K>(old_keys, ni + 1, pos as int);
                                }
                            }
                        }
                    }
                    assert forall|key: K::KeyView| #![auto] self.as_map().contains_key(key) implies
                        self.as_map()[key] == old(self).as_map().remove(kv)[key] by {
                        let ni = nk.index_of(key);
                        lemma_sorted_index_of::<K>(nk, ni);
                        if ni < pos {
                            lemma_sorted_index_of::<K>(old_keys, ni);
                        } else {
                            lemma_sorted_index_of::<K>(old_keys, ni + 1);
                        }
                    }
                    assert(self.as_map() =~= old(self).as_map().remove(kv));
                }
                Some(removed)
            },
        }
    }
}

impl<K: OrderedKey, V: Clone> Clone for OrdMap<K, V> {
    fn clone(&self) -> (r: Self)
        ensures
            r.keys() == self.keys(),
            r.values().len() == self.values().len(),
            forall|i: int| 0 <= i < self.values().len() ==> cloned::<V>(self.values()[i], #[trigger] r.values()[i]),
    {
        proof {
            use_type_invariant(self);
        }
        let mut entries: Vec<(K, V)> = Vec::new();
        let n = self.entries.len();
        let mut i: usize = 0;
        while i < n
            invariant
                n == self.entries@.len(),
                self.keys() == self.raw_keys(),
                self.values() == self.entries@.map_values(|e: (K, V)| e.1),
                i <= n,
                entries@.len() == i,
                forall|j: int| 0 <= j < i ==> (#[trigger] entries@[j]).0.key_view() == self.entries@[j].0.key_view(),
                forall|j: int| 0 <= j < i ==> cloned::<V>(self.entries@[j].1, #[trigger] entries@[j].1),
            decreases n - i,
        {
            let k = self.entries[i].0.copy_key();
            let v = self.entries[i].1.clone();
            entries.push((k, v));
            i = i + 1;
        }
        assert(entries@.map_values(|e: (K, V)| e.0.key_view()) =~= self.raw_keys());
        let r = OrdMap { entries };
        proof {
            assert(r.keys() == self.keys());
            assert(r.values() =~= r.entries@.map_values(|e: (K, V)| e.1));
        }
        r
    }
}

/// Finite set with elements kept in ascending order.
#[derive(Debug)]
pub struct OrdSet<K: OrderedKey> {
    items: Vec<K>,
}

impl<K: OrderedKey> OrdSet<K> {
    closed spec fn raw_keys(&self) -> Seq<K::KeyView> {
        self.items@.map_values(|e: K| e.key_view())
    }

    #[verifier::type_invariant]
    closed spec fn sorted_items(&self) -> bool {
        strictly_sorted::<K>(self.raw_keys())
    }

    /// Elements in ascending order.
    pub closed spec fn keys(&self) -> Seq<K::KeyView> {
        if strictly_sorted::<K>(self.raw_keys()) {
            self.raw_keys()
        } else {
            Seq::empty()
        }
    }

    /// The set's contents as a mathematical set.
    pub open spec fn as_set(&self) -> Set<K::KeyView> {
        self.keys().to_set()
    }

    pub proof fn lemma_shape(&self)
        ensures
            strictly_sorted::<K>(self.keys()),
            self.as_set().is_empty() <==> self.keys().len() == 0,
    {
        if self.keys().len() > 0 {
            assert(self.as_set().contains(self.keys()[0]));
        } else {
            assert(self.as_set() =~= Set::<K::KeyView>::empty());
        }
    }

    /// Two sets with the same contents list them in the same order, however
    /// they were built.
    pub proof fn law_order_determined_by_contents(&self, other: &Self)
        requires
            self.as_set() == other.as_set(),
        ensures
            self.keys() == other.keys(),
    {
        self.lemma_shape();
        other.lemma_shape();
        lemma_sorted_determined_by_contents::<K>(self.keys(), other.keys());
    }

    pub fn copy(&self) -> (r: Self)
        ensures
            r.keys() == self.keys(),
    {
        proof {
            use_type_invariant(self);
        }
        let mut items: Vec<K> = Vec::new();
        let n = self.items.len();
        let mut i: usize = 0;
        while i < n
            invariant
                n == self.items@.len(),
                self.keys() == self.raw_keys(),
                i <= n,
                items@.len() == i,
                forall|j: int| 0 <= j < i ==> (#[trigger] items@[j]).key_view() == self.items@[j].key_view(),
            decreases n - i,
        {
            items.push(self.items[i].copy_key());
            i = i + 1;
        }
        assert(items@.map_values(|e: K| e.key_view()) =~= self.raw_keys());
        OrdSet { items }
    }

    pub fn new() -> (r: Self)
        ensures
            r.keys().len() == 0,
            r.as_set() == Set::<K::KeyView>::empty(),
    {
        let r = OrdSet { items: Vec::new() };
        assert(r.raw_keys() =~= Seq::<K::KeyView>::empty());
        assert(r.as_set() =~= Set::<K::KeyView>::empty());
        r
    }

    pub fn len(&self) -> (n: usize)
        ensures
            n == self.keys().len(),
    {
        proof {
            use_type_invariant(self);
        }
        self.items.len()
    }

    pub fn is_empty(&self) -> (b: bool)
        ensures
            b == (self.keys().len() == 0),
    {
        proof {
            use_type_invariant(self);
        }
        self.items.len() == 0
    }

    pub fn item_at(&self, i: usize) -> (k: &K)
        requires
            i < self.keys().len(),
        ensures
            k.key_view() == self.keys()[i as int],
    {
        proof {
            use_type_invariant(self);
        }
        &self.items[i]
    }

    pub fn contains(&self, k: &K) -> (b: bool)
        ensures
            b == self.keys().contains(k.key_view()),
            b == self.as_set().contains(k.key_view()),
    {
        proof {
            use_type_invariant(self);
        }
        let n = self.items.len();
        let mut i: usize = 0;
        while i < n
            invariant
                n == self.keys().len(),
                self.keys() == self.raw_keys(),
                i <= n,
                forall|j: int| 0 <= j < i ==> self.keys()[j] != k.key_view(),
            decreases n - i,
        {
            match self.items[i].compare_key(k) {
                KeyOrder::Equal => {
                    assert(self.keys()[i as int] == k.key_view());
                    return true;
                },
                _ => {},
            }
            i = i + 1;
        }
        false
    }

    fn lower_bound(&self, k: &K) -> (r: usize)
        ensures
            r <= self.keys().len(),
            forall|j: int| 0 <= j < r ==> K::view_lt(#[trigger] self.keys()[j], k.key_view()),
            r < self.keys().len() ==> !K::view_lt(self.keys()[r as int], k.key_view()),
    {
        proof {
            use_type_invariant(self);
        }
        let n = self.items.len();
        let mut i: usize = 0;
        while i < n
            invariant
                n == self.keys().len(),
                self.keys() == self.raw_keys(),
                i <= n,
                forall|j: int| 0 <= j < i ==> K::view_lt(#[trigger] self.keys()[j], k.key_view()),
            decreases n - i,
        {
            match self.items[i].compare_key(k) {
                KeyOrder::Less => {},
                _ => {
                    return i;
                },
            }
            i = i + 1;
        }
        n
    }

    /// Position of `k`, if the set holds it.
    pub fn find(&self, k: &K) -> (r: Option<usize>)
        ensures
            match r {
                Some(i) => i < self.keys().len() && self.keys()[i as int] == k.key_view(),
                None => !self.keys().contains(k.key_view()),
            },
    {
        proof {
            use_type_invariant(self);
        }
        let n = self.items.len();
        let mut i: usize = 0;
        while i < n
            invariant
                n == self.keys().len(),
                self.keys() == self.raw_keys(),
                i <= n,
                forall|j: int| 0 <= j < i ==> self.keys()[j] != k.key_view(),
            decreases n - i,
        {
            match self.items[i].compare_key(k) {
                KeyOrder::Equal => {
                    return Some(i);
                },
                _ => {},
            }
            i = i + 1;
        }
        None
    }

    /// Removes `k`; returns whether it was present before.
    pub fn remove(&mut self, k: &K) -> (removed: bool)
        ensures
            final(self).as_set() == old(self).as_set().remove(k.key_view()),
            removed == old(self).as_set().contains(k.key_view()),
    {
        proof {
            use_type_invariant(&*self);
        }
        let ghost old_keys = self.keys();
        let ghost kv = k.key_view();
        match self.find(k) {
            None => {
                assert(self.as_set() =~= old(self).as_set().remove(kv));
                false
            },
            Some(pos) => {
                let mut items = Vec::new();
                std::mem::swap(&mut items, &mut self.items);
                assert(items@.map_values(|e: K| e.key_view()) == old_keys);
                items.remove(pos);
                proof {
                    let nk = items@.map_values(|e: K| e.key_view());
                    assert(nk =~= old_keys.remove(pos as int));
                    assert forall|i: int, j: int| 0 <= i < j < nk.len() implies #[trigger] K::view_lt(
                        nk[i],
                        nk[j],
                    ) by {
                        if i < pos && j >= pos {
                            assert(nk[j] == old_keys[j + 1]);
                        } else if i >= pos {
                            assert(nk[i] == old_keys[i + 1]);
                        }
                    }
                }
                self.items = items;
                proof {
                    let nk = self.keys();
                    assert(nk =~= old_keys.remove(pos as int));
                    assert forall|key: K::KeyView| #![auto]
                        self.as_set().contains(key) == old(self).as_set().remove(kv).contains(key) by {
                        if old_keys.contains(key) && key != kv {
                            let oi = old_keys.index_of(key);
                            if oi < pos {
                                assert(nk[oi] == key);
                            } else {
                                assert(oi != pos);
                                assert(nk[oi - 1] == key);
                            }
                        }
                        if nk.contains(key) {
                            let ni = nk.index_of(key);
                            if ni < pos {
                                assert(old_keys[ni] == key);
                                if key == kv {
                                    lemma_sorted_unique::<K>(old_keys, ni, pos as int);
                                }
                            } else {
                                assert(old_keys[ni + 1] == key);
                                if key == kv {
                                    lemma_sorted_unique::<K>(old_keys, ni + 1, pos as int);
                                }
                            }
                        }
                    }
                    assert(self.as_set() =~= old(self).as_set().remove(kv));
                    assert(old_keys[pos as int] == kv);
                }
                true
            },
        }
    }

    /// Adds `k`; returns whether it was absent before.
    pub fn insert(&mut self, k: K) -> (added: bool)
        ensures
            final(self).as_set() == old(self).as_set().insert(k.key_view()),
            added == !old(self).as_set().contains(k.key_view()),
    {
        proof {
            use_type_invariant(&*self);
        }
        let ghost old_keys = self.keys();
        let ghost kv = k.key_view();
        let n = self.items.len();
        let pos = self.lower_bound(&k);
        if pos < n {
            match self.items[pos].compare_key(&k) {
                KeyOrder::Equal => {
                    proof {
                        assert(old_keys[pos as int] == kv);
                        assert(self.as_set() =~= old(self).as_set().insert(kv));
                    }
                    return false;
                },
                _ => {},
            }
        }
        proof {
            if old_keys.contains(kv) {
                let j = old_keys.index_of(kv);
                K::lemma_view_lt_irreflexive(kv);
                if j > pos {
                    assert(K::view_lt(old_keys[pos as int], old_keys[j]));
                    K::lemma_view_lt_total(old_keys[pos as int], kv);
                }
            }
        }
        let mut items = Vec::new();
        std::mem::swap(&mut items, &mut self.items);
        assert(items@.map_values(|e: K| e.key_view()) == old_keys);
        items.insert(pos, k);
        proof {
            let nk = items@.map_values(|e: K| e.key_view());
            assert(nk =~= old_keys.insert(pos as int, kv));
            lemma_insert_sorted::<K>(old_keys, pos as int, kv);
        }
        self.items = items;
        proof {
            assert(self.keys() =~= old_keys.insert(pos as int, kv));
            assert forall|key: K::KeyView| #![auto]
                self.as_set().contains(key) == old(self).as_set().insert(kv).contains(key) by {
                let nk = self.keys();
                if old_keys.contains(key) {
                    let oi = old_keys.index_of(key);
                    if oi < pos {
                        assert(nk[oi] == key);
                    } else {
                        assert(nk[oi + 1] == key);
                    }
                }
                if nk.contains(key) && key != kv {
                    let ni = nk.index_of(key);
                    if ni < pos {
                        assert(old_keys[ni] == key);
                    } else {
                        assert(old_keys[ni - 1] == key);
                    }
                }
                if key == kv {
                    assert(nk[pos as int] == kv);
                }
            }
            assert(self.as_set() =~= old(self).as_set().insert(kv));
        }
        true
    }
}

} // verus!
