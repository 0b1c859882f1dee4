//! A small keyed table: an association list with distinct keys, viewed as a
//! finite map. Tables of weighted values also carry the total weight of what
//! they hold, which the share-conservation law of the marketplace is stated in.
use vstd::prelude::*;

verus! {

/// Keys that can be compared in executable code with the meaning of `==`.
pub trait TableKey: Copy + Sized {
    fn same_key(&self, other: &Self) -> (r: bool)
        ensures
            r == (*self == *other),
    ;
}

impl TableKey for u64 {
    fn same_key(&self, other: &Self) -> (r: bool) {
        *self == *other
    }
}

impl TableKey for u32 {
    fn same_key(&self, other: &Self) -> (r: bool) {
        *self == *other
    }
}

/// Values that carry a number of shares.
pub trait Weighted: Sized {
    spec fn weight(&self) -> int;

    proof fn lemma_weight_nonneg(&self)
        ensures
            self.weight() >= 0,
    ;
}

impl Weighted for u32 {
    open spec fn weight(&self) -> int {
        *self as int
    }

    proof fn lemma_weight_nonneg(&self) {
    }
}

/// Sum of the weights of the values of a sequence of entries.
pub open spec fn entries_weight<K, V: Weighted>(s: Seq<(K, V)>) -> int
    decreases s.len(),
{
    if s.len() == 0 {
        0
    } else {
        entries_weight(s.drop_last()) + s.last().1.weight()
    }
}

pub proof fn lemma_entries_weight_push<K, V: Weighted>(s: Seq<(K, V)>, e: (K, V))
    ensures
        entries_weight(s.push(e)) == entries_weight(s) + e.1.weight(),
{
    assert(s.push(e).drop_last() =~= s);
}

pub proof fn lemma_entries_weight_bound<K, V: Weighted>(s: Seq<(K, V)>, i: int)
    requires
        0 <= i < s.len(),
    ensures
        0 <= s[i].1.weight() <= entries_weight(s),
    decreases s.len(),
{
    s[i].1.lemma_weight_nonneg();
    lemma_entries_weight_nonneg(s.drop_last());
    s.last().1.lemma_weight_nonneg();
    if i < s.len() - 1 {
        lemma_entries_weight_bound(s.drop_last(), i);
    }
}

pub proof fn lemma_entries_weight_nonneg<K, V: Weighted>(s: Seq<(K, V)>)
    ensures
        entries_weight(s) >= 0,
    decreases s.len(),
{
    if s.len() > 0 {
        lemma_entries_weight_nonneg(s.drop_last());
        s.last().1.lemma_weight_nonneg();
    }
}

pub proof fn lemma_entries_weight_update<K, V: Weighted>(s: Seq<(K, V)>, i: int, e: (K, V))
    requires
        0 <= i < s.len(),
    ensures
        entries_weight(s.update(i, e)) == entries_weight(s) - s[i].1.weight() + e.1.weight(),
    decreases s.len(),
{
    if i == s.len() - 1 {
        assert(s.update(i, e).drop_last() =~= s.drop_last());
    } else {
        lemma_entries_weight_update(s.drop_last(), i, e);
        assert(s.update(i, e).drop_last() =~= s.drop_last().update(i, e));
    }
}

pub proof fn lemma_entries_weight_remove<K, V: Weighted>(s: Seq<(K, V)>, i: int)
    requires
        0 <= i < s.len(),
    ensures
        entries_weight(s.remove(i)) == entries_weight(s) - s[i].1.weight(),
    decreases s.len(),
{
    if i == s.len() - 1 {
        assert(s.remove(i) =~= s.drop_last());
    } else {
        lemma_entries_weight_remove(s.drop_last(), i);
        assert(s.remove(i).drop_last() =~= s.drop_last().remove(i));
    }
}

/// Weight of the value held under `k` in a map (none when `k` is not held).
pub open spec fn weight_of<K, V: Weighted>(m: Map<K, V>, k: K) -> int {
    if m.contains_key(k) {
        m[k].weight()
    } else {
        0
    }
}

/// Weight held under a list of keys, each entry of the list counted.
pub open spec fn keys_weight<K, V: Weighted>(m: Map<K, V>, ks: Seq<K>) -> int
    decreases ks.len(),
{
    if ks.len() == 0 {
        0
    } else {
        keys_weight(m, ks.drop_last()) + weight_of(m, ks.last())
    }
}

/// Weight of the last entry of `s` with key `k` (none when there is none).
pub open spec fn entry_weight_of<K, V: Weighted>(s: Seq<(K, V)>, k: K) -> int
    decreases s.len(),
{
    if s.len() == 0 {
        0
    } else if s.last().0 == k {
        s.last().1.weight()
    } else {
        entry_weight_of(s.drop_last(), k)
    }
}

/// Weight of the entries of `s` found under a list of keys.
pub open spec fn entries_keys_weight<K, V: Weighted>(s: Seq<(K, V)>, ks: Seq<K>) -> int
    decreases ks.len(),
{
    if ks.len() == 0 {
        0
    } else {
        entries_keys_weight(s, ks.drop_last()) + entry_weight_of(s, ks.last())
    }
}

proof fn lemma_entry_weight_of_nonneg<K, V: Weighted>(s: Seq<(K, V)>, k: K)
    ensures
        entry_weight_of(s, k) >= 0,
    decreases s.len(),
{
    if s.len() > 0 {
        s.last().1.lemma_weight_nonneg();
        lemma_entry_weight_of_nonneg(s.drop_last(), k);
    }
}

/// Keys other than that of the last entry see the same weights without it.
proof fn lemma_keys_weight_without_last<K, V: Weighted>(s: Seq<(K, V)>, ks: Seq<K>)
    requires
        s.len() > 0,
        !ks.contains(s.last().0),
    ensures
        entries_keys_weight(s, ks) == entries_keys_weight(s.drop_last(), ks),
    decreases ks.len(),
{
    if ks.len() > 0 {
        assert(ks.drop_last().contains(s.last().0) ==> ks.contains(s.last().0)) by {
            if ks.drop_last().contains(s.last().0) {
                let i = choose|i: int| 0 <= i < ks.drop_last().len() && ks.drop_last()[i] == s.last().0;
                assert(ks[i] == s.last().0);
            }
        }
        assert(ks.last() != s.last().0) by {
            assert(ks[ks.len() - 1] == ks.last());
        }
        lemma_keys_weight_without_last(s, ks.drop_last());
    }
}

/// Dropping the last entry lowers the weight under distinct keys by at most
/// that entry's weight.
proof fn lemma_keys_weight_drop_last<K, V: Weighted>(s: Seq<(K, V)>, ks: Seq<K>)
    requires
        s.len() > 0,
        ks.no_duplicates(),
    ensures
        entries_keys_weight(s, ks) <= entries_keys_weight(s.drop_last(), ks) + s.last().1.weight(),
    decreases ks.len(),
{
    s.last().1.lemma_weight_nonneg();
    if ks.len() > 0 {
        let init = ks.drop_last();
        let k = ks.last();
        assert(init.no_duplicates()) by {
            assert forall|i: int, j: int| 0 <= i < init.len() && 0 <= j < init.len() && i != j implies init[i] != init[j] by {
                assert(init[i] == ks[i] && init[j] == ks[j]);
            }
        }
        lemma_entry_weight_of_nonneg(s.drop_last(), k);
        if k == s.last().0 {
            assert(!init.contains(k)) by {
                if init.contains(k) {
                    let i = choose|i: int| 0 <= i < init.len() && init[i] == k;
                    assert(ks[i] == ks[ks.len() - 1]);
                }
            }
            lemma_keys_weight_without_last(s, init);
        } else {
            lemma_keys_weight_drop_last(s, init);
        }
    }
}

/// The entries under distinct keys weigh together no more than all entries.
proof fn lemma_entries_keys_weight_bound<K, V: Weighted>(s: Seq<(K, V)>, ks: Seq<K>)
    requires
        ks.no_duplicates(),
    ensures
        entries_keys_weight(s, ks) <= entries_weight(s),
    decreases s.len(), ks.len(),
{
    if s.len() == 0 {
        if ks.len() > 0 {
            let init = ks.drop_last();
            assert(init.no_duplicates()) by {
                assert forall|i: int, j: int| 0 <= i < init.len() && 0 <= j < init.len() && i != j implies init[i] != init[j] by {
                    assert(init[i] == ks[i] && init[j] == ks[j]);
                }
            }
            lemma_entries_keys_weight_bound(s, init);
        }
    } else {
        lemma_keys_weight_drop_last(s, ks);
        lemma_entries_keys_weight_bound(s.drop_last(), ks);
    }
}

proof fn lemma_entry_weight_of_at<K, V: Weighted>(s: Seq<(K, V)>, i: int)
    requires
        0 <= i < s.len(),
        forall|a: int, b: int| 0 <= a < b < s.len() ==> #[trigger] s[a].0 != #[trigger] s[b].0,
    ensures
        entry_weight_of(s, s[i].0) == s[i].1.weight(),
    decreases s.len(),
{
    if i < s.len() - 1 {
        assert(s.last() == s[s.len() - 1]);
        assert(s[i].0 != s[s.len() - 1].0);
        lemma_entry_weight_of_at(s.drop_last(), i);
    }
}

proof fn lemma_entry_weight_of_absent<K, V: Weighted>(s: Seq<(K, V)>, k: K)
    requires
        forall|i: int| 0 <= i < s.len() ==> s[i].0 != k,
    ensures
        entry_weight_of(s, k) == 0,
    decreases s.len(),
{
    if s.len() > 0 {
        assert(s.last() == s[s.len() - 1]);
        lemma_entry_weight_of_absent(s.drop_last(), k);
    }
}

/// A finite map held as a list of entries whose keys are pairwise distinct.
pub struct KeyedTable<K: TableKey, V> {
    entries: Vec<(K, V)>,
}

impl<K: TableKey, V> KeyedTable<K, V> {
    #[verifier::type_invariant]
    pub closed spec fn keys_distinct(self) -> bool {
        forall|i: int, j: int|
            0 <= i < j < self.entries@.len() ==> #[trigger] self.entries@[i].0
                != #[trigger] self.entries@[j].0
    }

    /// The table's validity: no key is held twice.
    pub open spec fn wf(self) -> bool {
        self.keys_distinct()
    }

    pub closed spec fn has_key(self, k: K) -> bool {
        exists|i: int| 0 <= i < self.entries@.len() && self.entries@[i].0 == k
    }

    closed spec fn index_of(self, k: K) -> int {
        choose|i: int| 0 <= i < self.entries@.len() && self.entries@[i].0 == k
    }

    /// The value held under a key (meaningful when the key is held).
    pub closed spec fn value_at(self, k: K) -> V {
        self.entries@[self.index_of(k)].1
    }

    /// The number of entries.
    pub closed spec fn size(self) -> nat {
        self.entries@.len()
    }

    /// The relation between a table and the table that `insert` makes of it.
    pub closed spec fn inserted(old: Self, new: Self, k: K, v: V) -> bool {
        &&& old.keys_distinct()
        &&& if old.has_key(k) {
            new.entries@ == old.entries@.update(old.index_of(k), (k, v))
        } else {
            new.entries@ == old.entries@.push((k, v))
        }
    }

    /// The relation between a table and the table that `remove` makes of it.
    pub closed spec fn removed(old: Self, new: Self, k: K) -> bool {
        &&& old.keys_distinct()
        &&& if old.has_key(k) {
            new.entries@ == old.entries@.remove(old.index_of(k))
        } else {
            new.entries@ == old.entries@
        }
    }

    proof fn lemma_index_of(self, k: K)
        requires
            self.keys_distinct(),
            self.has_key(k),
        ensures
            0 <= self.index_of(k) < self.entries@.len(),
            self.entries@[self.index_of(k)].0 == k,
            forall|i: int|
                0 <= i < self.entries@.len() && self.entries@[i].0 == k ==> i == self.index_of(k),
    {
    }

    pub fn new() -> (t: Self)
        ensures
            t@ == Map::<K, V>::empty(),
            t.size() == 0,
    {
        let t = KeyedTable { entries: Vec::new() };
        assert(t@ =~= Map::<K, V>::empty());
        t
    }

    fn find(&self, k: &K) -> (r: Option<usize>)
        ensures
            match r {
                Some(i) => i < self.entries@.len() && self.entries@[i as int].0 == *k,
                None => !self.has_key(*k),
            },
    {
        let mut i: usize = 0;
        while i < self.entries.len()
            invariant
                i <= self.entries@.len(),
                forall|j: int| 0 <= j < i ==> self.entries@[j].0 != *k,
            decreases self.entries@.len() - i,
        {
            if self.entries[i].0.same_key(k) {
                return Some(i);
            }
            i = i + 1;
        }
        None
    }

    pub fn get(&self, k: &K) -> (r: Option<&V>)
        ensures
            match r {
                Some(v) => self@.contains_key(*k) && *v == self@[*k],
                None => !self@.contains_key(*k),
            },
    {
        proof {
            use_type_invariant(self);
        }
        match self.find(k) {
            Some(i) => {
                proof {
                    self.lemma_index_of(*k);
                }
                Some(&self.entries[i].1)
            },
            None => None,
        }
    }

    pub fn contains_key(&self, k: &K) -> (r: bool)
        ensures
            r == self@.contains_key(*k),
    {
        self.find(k).is_some()
    }

    pub fn insert(&mut self, k: K, v: V)
        ensures
            final(self)@ == old(self)@.insert(k, v),
            Self::inserted(*old(self), *final(self), k, v),
    {
        proof {
            use_type_invariant(&*self);
        }
        let ghost pre = *self;
        let found = self.find(&k);
        let mut es: Vec<(K, V)> = Vec::new();
        std::mem::swap(&mut es, &mut self.entries);
        match found {
            Some(i) => {
                proof {
                    pre.lemma_index_of(k);
                }
                es.set(i, (k, v));
            },
            None => {
                es.push((k, v));
            },
        }
        let ghost post = KeyedTable { entries: es };
        proof {
            assert forall|a: int, b: int|
                0 <= a < b < post.entries@.len() implies #[trigger] post.entries@[a].0
                != #[trigger] post.entries@[b].0 by {
                if pre.has_key(k) {
                    assert(pre.entries@[a].0 == post.entries@[a].0);
                    assert(pre.entries@[b].0 == post.entries@[b].0);
                } else {
                    if b == pre.entries@.len() {
                        assert(pre.entries@[a].0 == post.entries@[a].0);
                    } else {
                        assert(pre.entries@[a].0 == post.entries@[a].0);
                        assert(pre.entries@[b].0 == post.entries@[b].0);
                    }
                }
            }
            assert(post.keys_distinct());
            assert forall|kk: K| #![auto] post@.contains_key(kk) == pre@.insert(k, v).contains_key(kk) by {
                if kk != k && pre.has_key(kk) {
                    pre.lemma_index_of(kk);
                    let j = pre.index_of(kk);
                    assert(post.entries@[j].0 == kk);
                }
                if kk != k && post.has_key(kk) {
                    let j = choose|j: int| 0 <= j < post.entries@.len() && post.entries@[j].0 == kk;
                    assert(pre.entries@[j].0 == kk);
                }
                if kk == k {
                    if pre.has_key(k) {
                        assert(post.entries@[pre.index_of(k)].0 == k);
                    } else {
                        assert(post.entries@[pre.entries@.len() as int].0 == k);
                    }
                }
            }
            assert forall|kk: K| #[trigger] post@.contains_key(kk) implies post@[kk] == pre@.insert(k, v)[kk] by {
                post.lemma_index_of(kk);
                if kk != k {
                    pre.lemma_index_of(kk);
                    assert(post.entries@[pre.index_of(kk)].0 == kk);
                } else if pre.has_key(k) {
                    assert(post.entries@[pre.index_of(k)].0 == k);
                } else {
                    assert(post.entries@[pre.entries@.len() as int].0 == k);
                }
            }
            assert(post@ =~= pre@.insert(k, v));
        }
        self.entries = es;
    }

    pub fn remove(&mut self, k: &K)
        ensures
            final(self)@ == old(self)@.remove(*k),
            Self::removed(*old(self), *final(self), *k),
    {
        proof {
            use_type_invariant(&*self);
        }
        let ghost pre = *self;
        match self.find(k) {
            Some(i) => {
                proof {
                    pre.lemma_index_of(*k);
                }
                let mut es: Vec<(K, V)> = Vec::new();
                std::mem::swap(&mut es, &mut self.entries);
                es.remove(i);
                let ghost post = KeyedTable { entries: es };
                proof {
                    let n = pre.entries@.len();
                    assert forall|a: int, b: int|
                        0 <= a < b < post.entries@.len() implies #[trigger] post.entries@[a].0
                        != #[trigger] post.entries@[b].0 by {
                        let pa = if a < i { a } else { a + 1 };
                        let pb = if b < i { b } else { b + 1 };
                        assert(post.entries@[a] == pre.entries@[pa]);
                        assert(post.entries@[b] == pre.entries@[pb]);
                    }
                    assert(post.keys_distinct());
                    assert forall|kk: K| #![auto] post@.contains_key(kk) == pre@.remove(*k).contains_key(kk) by {
                        if kk != *k && pre.has_key(kk) {
                            pre.lemma_index_of(kk);
                            let j = pre.index_of(kk);
                            let pj = if j < i { j } else { j - 1 };
                            assert(post.entries@[pj] == pre.entries@[j]);
                        }
                        if post.has_key(kk) {
                            let j = choose|j: int| 0 <= j < post.entries@.len() && post.entries@[j].0 == kk;
                            let pj = if j < i { j } else { j + 1 };
                            assert(post.entries@[j] == pre.entries@[pj]);
                        }
                    }
                    assert forall|kk: K| #[trigger] post@.contains_key(kk) implies post@[kk] == pre@.remove(*k)[kk] by {
                        post.lemma_index_of(kk);
                        let j = post.index_of(kk);
                        let pj = if j < i { j } else { j + 1 };
                        assert(post.entries@[j] == pre.entries@[pj]);
                        pre.lemma_index_of(kk);
                    }
                    assert(post@ =~= pre@.remove(*k));
                }
                self.entries = es;
            },
            None => {
                assert(pre@ =~= pre@.remove(*k));
            },
        }
    }
}

impl<K: TableKey, V> View for KeyedTable<K, V> {
    type V = Map<K, V>;

    closed spec fn view(&self) -> Map<K, V> {
        Map::new(|k: K| self.has_key(k), |k: K| self.value_at(k))
    }
}

impl<K: TableKey, V: Weighted> KeyedTable<K, V> {
    /// Total weight of the values held.
    pub closed spec fn total_weight(self) -> int {
        entries_weight(self.entries@)
    }

    /// The values under distinct keys weigh together no more than the table.
    pub proof fn lemma_keys_weight_bound(t: Self, ks: Seq<K>)
        requires
            t.wf(),
            ks.no_duplicates(),
        ensures
            keys_weight(t@, ks) <= t.total_weight(),
    {
        t.lemma_keys_weight_matches(ks);
        lemma_entries_keys_weight_bound(t.entries@, ks);
    }

    proof fn lemma_keys_weight_matches(self, ks: Seq<K>)
        requires
            self.wf(),
        ensures
            keys_weight(self@, ks) == entries_keys_weight(self.entries@, ks),
        decreases ks.len(),
    {
        if ks.len() > 0 {
            self.lemma_keys_weight_matches(ks.drop_last());
            self.lemma_weight_of_matches(ks.last());
        }
    }

    proof fn lemma_weight_of_matches(self, k: K)
        requires
            self.wf(),
        ensures
            weight_of(self@, k) == entry_weight_of(self.entries@, k),
    {
        if self.has_key(k) {
            self.lemma_index_of(k);
            lemma_entry_weight_of_at(self.entries@, self.index_of(k));
        } else {
            lemma_entry_weight_of_absent(self.entries@, k);
        }
    }

    /// The total weight is not negative and bounds the weight of each value.
    pub proof fn lemma_weight_bound(t: Self, k: K)
        ensures
            t.total_weight() >= 0,
            t@.contains_key(k) ==> 0 <= t@[k].weight() <= t.total_weight(),
    {
        lemma_entries_weight_nonneg(t.entries@);
        if t.has_key(k) {
            lemma_entries_weight_bound(t.entries@, t.index_of(k));
        }
    }

    pub proof fn lemma_empty_weight(t: Self)
        requires
            t.size() == 0,
        ensures
            t.total_weight() == 0,
    {
    }

    pub proof fn lemma_insert_weight(old: Self, new: Self, k: K, v: V)
        requires
            Self::inserted(old, new, k, v),
        ensures
            new.total_weight() == old.total_weight() - (if old@.contains_key(k) {
                old@[k].weight()
            } else {
                0
            }) + v.weight(),
    {
        if old.has_key(k) {
            old.lemma_index_of(k);
            lemma_entries_weight_update(old.entries@, old.index_of(k), (k, v));
        } else {
            lemma_entries_weight_push(old.entries@, (k, v));
        }
    }

    pub proof fn lemma_remove_weight(old: Self, new: Self, k: K)
        requires
            Self::removed(old, new, k),
        ensures
            new.total_weight() == old.total_weight() - (if old@.contains_key(k) {
                old@[k].weight()
            } else {
                0
            }),
    {
        if old.has_key(k) {
            old.lemma_index_of(k);
            lemma_entries_weight_remove(old.entries@, old.index_of(k));
        }
    }
}

} // verus!
