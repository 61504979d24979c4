//! Keyed storage: an association list of (key, value) entries whose keys are
//! pairwise distinct, viewed as a finite map from key views to value views.
use vstd::prelude::*;

verus! {

/// A key of a keyed store, compared by its deep view.
pub trait StoreKey: DeepView + Sized {
    fn same_key(&self, other: &Self) -> (r: bool)
        ensures
            r == (self.deep_view() == other.deep_view()),
    ;
}

impl StoreKey for String {
    fn same_key(&self, other: &Self) -> (r: bool) {
        *self == *other
    }
}

impl StoreKey for (String, String) {
    fn same_key(&self, other: &Self) -> (r: bool) {
        self.0 == other.0 && self.1 == other.1
    }
}

impl StoreKey for (String, u32) {
    fn same_key(&self, other: &Self) -> (r: bool) {
        self.0 == other.0 && self.1 == other.1
    }
}

/// No two entries of `p` carry the same key.
pub open spec fn keys_unique<A, B>(p: Seq<(A, B)>) -> bool {
    forall|i: int, j: int|
        0 <= i < p.len() && 0 <= j < p.len() && i != j ==> #[trigger] p[i].0 != #[trigger] p[j].0
}

/// Some entry of `p` carries the key `k`.
pub open spec fn has_key<A, B>(p: Seq<(A, B)>, k: A) -> bool {
    exists|i: int| 0 <= i < p.len() && #[trigger] p[i].0 == k
}

/// The map that a sequence of entries denotes.
pub open spec fn pairs_map<A, B>(p: Seq<(A, B)>) -> Map<A, B> {
    Map::new(
        |k: A| has_key(p, k),
        |k: A| p[choose|i: int| 0 <= i < p.len() && #[trigger] p[i].0 == k].1,
    )
}

/// The map that inserting the entries of `p` one after another builds: a later
/// entry replaces an earlier one with the same key.
pub open spec fn inserted_map<A, B>(p: Seq<(A, B)>) -> Map<A, B>
    decreases p.len(),
{
    if p.len() == 0 {
        Map::empty()
    } else {
        inserted_map(p.drop_last()).insert(p.last().0, p.last().1)
    }
}

/// Sum of the values of a sequence of entries.
pub open spec fn sum_values<A>(p: Seq<(A, u128)>) -> int
    decreases p.len(),
{
    if p.len() == 0 {
        0
    } else {
        sum_values(p.drop_last()) + p.last().1
    }
}

/// In a sequence with distinct keys, each entry is what the map holds at its key.
pub proof fn lemma_pairs_map_at<A, B>(p: Seq<(A, B)>, i: int)
    requires
        keys_unique(p),
        0 <= i < p.len(),
    ensures
        pairs_map(p).contains_key(p[i].0),
        pairs_map(p)[p[i].0] == p[i].1,
{
    let k = p[i].0;
    assert(has_key(p, k));
    let j = choose|j: int| 0 <= j < p.len() && #[trigger] p[j].0 == k;
    assert(j == i);
}

/// Replacing the value of an entry updates the map at its key.
pub proof fn lemma_pairs_map_update<A, B>(p: Seq<(A, B)>, i: int, v: B)
    requires
        keys_unique(p),
        0 <= i < p.len(),
    ensures
        keys_unique(p.update(i, (p[i].0, v))),
        pairs_map(p.update(i, (p[i].0, v))) == pairs_map(p).insert(p[i].0, v),
{
    let q = p.update(i, (p[i].0, v));
    assert forall|a: int, b: int| 0 <= a < q.len() && 0 <= b < q.len() && a != b implies #[trigger] q[a].0
        != #[trigger] q[b].0 by {
        assert(q[a].0 == p[a].0);
        assert(q[b].0 == p[b].0);
    }
    let m = pairs_map(p).insert(p[i].0, v);
    assert forall|k: A| #[trigger] pairs_map(q).contains_key(k) == m.contains_key(k) by {
        if has_key(q, k) {
            let j = choose|j: int| 0 <= j < q.len() && #[trigger] q[j].0 == k;
            assert(p[j].0 == k);
        }
        if has_key(p, k) {
            let j = choose|j: int| 0 <= j < p.len() && #[trigger] p[j].0 == k;
            assert(q[j].0 == k);
        }
        if k == p[i].0 {
            assert(q[i].0 == k);
        }
    }
    assert forall|k: A| #[trigger] pairs_map(q).contains_key(k) implies pairs_map(q)[k] == m[k] by {
        let j = choose|j: int| 0 <= j < q.len() && #[trigger] q[j].0 == k;
        lemma_pairs_map_at(q, j);
        if j != i {
            lemma_pairs_map_at(p, j);
        }
    }
    assert(pairs_map(q) =~= m);
}

/// Appending an entry with a fresh key inserts it into the map.
pub proof fn lemma_pairs_map_push<A, B>(p: Seq<(A, B)>, k: A, v: B)
    requires
        keys_unique(p),
        !has_key(p, k),
    ensures
        keys_unique(p.push((k, v))),
        pairs_map(p.push((k, v))) == pairs_map(p).insert(k, v),
{
    let q = p.push((k, v));
    assert forall|a: int, b: int| 0 <= a < q.len() && 0 <= b < q.len() && a != b implies #[trigger] q[a].0
        != #[trigger] q[b].0 by {
        if a < p.len() && b < p.len() {
            assert(q[a] == p[a]);
            assert(q[b] == p[b]);
        } else if a < p.len() {
            assert(q[a] == p[a]);
        } else {
            assert(q[b] == p[b]);
        }
    }
    let m = pairs_map(p).insert(k, v);
    assert forall|kk: A| #[trigger] pairs_map(q).contains_key(kk) == m.contains_key(kk) by {
        if has_key(q, kk) {
            let j = choose|j: int| 0 <= j < q.len() && #[trigger] q[j].0 == kk;
            if j < p.len() {
                assert(q[j] == p[j]);
            }
        }
        if has_key(p, kk) {
            let j = choose|j: int| 0 <= j < p.len() && #[trigger] p[j].0 == kk;
            assert(q[j] == p[j]);
        }
        if kk == k {
            assert(q[p.len() as int].0 == k);
        }
    }
    assert forall|kk: A| #[trigger] pairs_map(q).contains_key(kk) implies pairs_map(q)[kk] == m[kk] by {
        let j = choose|j: int| 0 <= j < q.len() && #[trigger] q[j].0 == kk;
        lemma_pairs_map_at(q, j);
        if j < p.len() {
            assert(q[j] == p[j]);
            lemma_pairs_map_at(p, j);
        }
    }
    assert(pairs_map(q) =~= m);
}

/// Removing an entry removes its key from the map.
pub proof fn lemma_pairs_map_remove<A, B>(p: Seq<(A, B)>, i: int)
    requires
        keys_unique(p),
        0 <= i < p.len(),
    ensures
        keys_unique(p.remove(i)),
        pairs_map(p.remove(i)) == pairs_map(p).remove(p[i].0),
{
    let q = p.remove(i);
    assert forall|a: int, b: int| 0 <= a < q.len() && 0 <= b < q.len() && a != b implies #[trigger] q[a].0
        != #[trigger] q[b].0 by {
        let a2 = if a < i { a } else { a + 1 };
        let b2 = if b < i { b } else { b + 1 };
        assert(q[a] == p[a2]);
        assert(q[b] == p[b2]);
    }
    let m = pairs_map(p).remove(p[i].0);
    assert forall|kk: A| #[trigger] pairs_map(q).contains_key(kk) == m.contains_key(kk) by {
        if has_key(q, kk) {
            let j = choose|j: int| 0 <= j < q.len() && #[trigger] q[j].0 == kk;
            let j2 = if j < i { j } else { j + 1 };
            assert(q[j] == p[j2]);
            assert(p[j2].0 == kk);
        }
        if has_key(p, kk) && kk != p[i].0 {
            let j = choose|j: int| 0 <= j < p.len() && #[trigger] p[j].0 == kk;
            let j2 = if j < i { j } else { j - 1 };
            assert(q[j2] == p[j]);
        }
    }
    assert forall|kk: A| #[trigger] pairs_map(q).contains_key(kk) implies pairs_map(q)[kk] == m[kk] by {
        let j = choose|j: int| 0 <= j < q.len() && #[trigger] q[j].0 == kk;
        let j2 = if j < i { j } else { j + 1 };
        assert(q[j] == p[j2]);
        lemma_pairs_map_at(q, j);
        lemma_pairs_map_at(p, j2);
    }
    assert(pairs_map(q) =~= m);
}

/// Appending an entry adds its value to the sum.
pub proof fn lemma_sum_push<A>(p: Seq<(A, u128)>, e: (A, u128))
    ensures
        sum_values(p.push(e)) == sum_values(p) + e.1,
{
    assert(p.push(e).drop_last() =~= p);
}

/// Removing an entry takes its value off the sum.
pub proof fn lemma_sum_remove<A>(p: Seq<(A, u128)>, i: int)
    requires
        0 <= i < p.len(),
    ensures
        sum_values(p.remove(i)) == sum_values(p) - p[i].1,
    decreases p.len(),
{
    if i == p.len() - 1 {
        assert(p.remove(i) =~= p.drop_last());
    } else {
        let q = p.drop_last();
        lemma_sum_remove(q, i);
        assert(p.remove(i).drop_last() =~= q.remove(i));
        assert(p.remove(i).last() == p.last());
    }
}

/// A sum of values is never negative.
pub proof fn lemma_sum_nonneg<A>(p: Seq<(A, u128)>)
    ensures
        sum_values(p) >= 0,
    decreases p.len(),
{
    if p.len() > 0 {
        lemma_sum_nonneg(p.drop_last());
    }
}

/// A keyed store with distinct keys.
pub struct AssocList<K: StoreKey, T: DeepView> {
    entries: Vec<(K, T)>,
}

impl<K: StoreKey, T: DeepView> AssocList<K, T> {
    /// The entries, each seen through the deep views of its key and value.
    pub closed spec fn pairs(&self) -> Seq<(K::V, T::V)> {
        self.entries@.map_values(|e: (K, T)| (e.0.deep_view(), e.1.deep_view()))
    }

    #[verifier::type_invariant]
    closed spec fn inv(self) -> bool {
        keys_unique(self.pairs())
    }

    /// The store as a map.
    pub open spec fn map(&self) -> Map<K::V, T::V> {
        pairs_map(self.pairs())
    }

    pub fn new() -> (r: Self)
        ensures
            r.map() == Map::<K::V, T::V>::empty(),
            r.pairs() == Seq::<(K::V, T::V)>::empty(),
    {
        let r = AssocList { entries: Vec::new() };
        assert(r.pairs() =~= Seq::<(K::V, T::V)>::empty());
        assert(r.map() =~= Map::<K::V, T::V>::empty());
        r
    }

    fn find(&self, key: &K) -> (r: Option<usize>)
        ensures
            match r {
                Some(i) => i < self.pairs().len() && self.pairs()[i as int].0 == key.deep_view(),
                None => !has_key(self.pairs(), key.deep_view()),
            },
    {
        let mut i: usize = 0;
        while i < self.entries.len()
            invariant
                0 <= i <= self.entries@.len(),
                self.pairs().len() == self.entries@.len(),
                forall|j: int| 0 <= j < i ==> #[trigger] self.pairs()[j].0 != key.deep_view(),
            decreases self.entries@.len() - i,
        {
            if self.entries[i].0.same_key(key) {
                return Some(i);
            }
            i += 1;
        }
        None
    }

    /// The value stored under `key`, if any.
    pub fn get(&self, key: &K) -> (r: Option<&T>)
        ensures
            match r {
                Some(v) => self.map().contains_key(key.deep_view()) && self.map()[key.deep_view()]
                    == v.deep_view(),
                None => !self.map().contains_key(key.deep_view()),
            },
    {
        proof {
            use_type_invariant(self);
        }
        match self.find(key) {
            Some(i) => {
                proof {
                    lemma_pairs_map_at(self.pairs(), i as int);
                }
                Some(&self.entries[i].1)
            },
            None => None,
        }
    }

    /// Whether a value is stored under `key`.
    pub fn contains(&self, key: &K) -> (r: bool)
        ensures
            r == self.map().contains_key(key.deep_view()),
    {
        self.get(key).is_some()
    }

    /// Store `value` under `key`, replacing what was stored there.
    pub fn insert(&mut self, key: K, value: T)
        ensures
            final(self).map() == old(self).map().insert(key.deep_view(), value.deep_view()),
            !old(self).map().contains_key(key.deep_view()) ==> final(self).pairs() == old(self).pairs().push((key.deep_view(), value.deep_view())),
            old(self).map().contains_key(key.deep_view()) ==> exists|i: int|
                0 <= i < old(self).pairs().len() && #[trigger] old(self).pairs()[i].0
                    == key.deep_view() && final(self).pairs() == old(self).pairs().update(
                    i,
                    (key.deep_view(), value.deep_view()),
                ),
    {
        proof {
            use_type_invariant(&*self);
        }
        let ghost old_pairs = self.pairs();
        let ghost kv = key.deep_view();
        let ghost vv = value.deep_view();
        let found = self.find(&key);
        let mut entries: Vec<(K, T)> = Vec::new();
        std::mem::swap(&mut entries, &mut self.entries);
        match found {
            Some(i) => {
                entries.set(i, (key, value));
                proof {
                    lemma_pairs_map_update(old_pairs, i as int, vv);
                    lemma_pairs_map_at(old_pairs, i as int);
                    assert(entries@.map_values(|e: (K, T)| (e.0.deep_view(), e.1.deep_view()))
                        =~= old_pairs.update(i as int, (kv, vv)));
                }
                self.entries = entries;
            },
            None => {
                entries.push((key, value));
                proof {
                    lemma_pairs_map_push(old_pairs, kv, vv);
                    assert(entries@.map_values(|e: (K, T)| (e.0.deep_view(), e.1.deep_view()))
                        =~= old_pairs.push((kv, vv)));
                }
                self.entries = entries;
            },
        }
    }

    /// Remove what is stored under `key`, handing it back.
    pub fn remove(&mut self, key: &K) -> (r: Option<T>)
        ensures
            final(self).map() == old(self).map().remove(key.deep_view()),
            match r {
                Some(v) => old(self).map().contains_key(key.deep_view()) && old(self).map()[key.deep_view()]
                    == v.deep_view(),
                None => !old(self).map().contains_key(key.deep_view()) && final(self).pairs() == old(self).pairs(),
            },
            old(self).map().contains_key(key.deep_view()) ==> exists|i: int|
                0 <= i < old(self).pairs().len() && #[trigger] old(self).pairs()[i].0
                    == key.deep_view() && old(self).pairs()[i].1 == old(self).map()[key.deep_view()]
                    && final(self).pairs() == old(self).pairs().remove(i),
    {
        proof {
            use_type_invariant(&*self);
        }
        let ghost old_pairs = self.pairs();
        let found = self.find(key);
        match found {
            Some(i) => {
                let mut entries: Vec<(K, T)> = Vec::new();
                std::mem::swap(&mut entries, &mut self.entries);
                let e = entries.remove(i);
                proof {
                    lemma_pairs_map_remove(old_pairs, i as int);
                    lemma_pairs_map_at(old_pairs, i as int);
                    assert(entries@.map_values(|e: (K, T)| (e.0.deep_view(), e.1.deep_view()))
                        =~= old_pairs.remove(i as int));
                }
                self.entries = entries;
                Some(e.1)
            },
            None => None,
        }
    }

    /// A store holding the entries of `entries`, inserted in order.
    pub fn from_pairs(entries: Vec<(K, T)>) -> (r: Self)
        ensures
            r.map() == inserted_map(
                entries@.map_values(|e: (K, T)| (e.0.deep_view(), e.1.deep_view())),
            ),
    {
        let ghost src = entries@.map_values(|e: (K, T)| (e.0.deep_view(), e.1.deep_view()));
        let mut r = AssocList::new();
        let mut rest = entries;
        let ghost n = src.len();
        while rest.len() > 0
            invariant
                n == src.len(),
                rest.len() <= n,
                forall|i: int| 0 <= i < rest.len() ==> (#[trigger] rest@[i].0.deep_view(), rest@[i].1.deep_view())
                    == src[n - rest.len() + i],
                r.map() == inserted_map(src.subrange(0, n - rest.len())),
            decreases rest.len(),
        {
            let ghost k = n - rest.len();
            let ghost before = rest@;
            let e = rest.remove(0);
            proof {
                assert(src.subrange(0, k + 1).drop_last() =~= src.subrange(0, k));
                assert((e.0.deep_view(), e.1.deep_view()) == src[k]);
                assert forall|i: int| 0 <= i < rest.len() implies (#[trigger] rest@[i].0.deep_view(), rest@[i].1.deep_view())
                    == src[n - rest.len() + i] by {
                    assert(rest@[i] == before[i + 1]);
                    assert((before[i + 1].0.deep_view(), before[i + 1].1.deep_view()) == src[n - before.len() + i + 1]);
                }
            }
            r.insert(e.0, e.1);
        }
        assert(src.subrange(0, n as int) =~= src);
        r
    }

    /// The entries of the store, each key once.
    pub fn into_pairs(self) -> (r: Vec<(K, T)>)
        ensures
            keys_unique(r@.map_values(|e: (K, T)| (e.0.deep_view(), e.1.deep_view()))),
            pairs_map(r@.map_values(|e: (K, T)| (e.0.deep_view(), e.1.deep_view()))) == self.map(),
    {
        proof {
            use_type_invariant(&self);
        }
        self.entries
    }
}

} // verus!
