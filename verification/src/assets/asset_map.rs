use vstd::prelude::*;

verus! {

broadcast use vstd::seq_lib::group_seq_properties;

/// A key that names an asset. Two keys name the same asset exactly when
/// they are equal.
pub trait AssetKey: Copy {
    /// Whether both keys name the same asset.
    fn same(&self, other: &Self) -> (b: bool)
        ensures
            b == (*self == *other),
    ;
}

/// Whether no key occurs twice among the entries.
pub open spec fn keys_distinct<K, V>(entries: Seq<(K, V)>) -> bool {
    forall|i: int, j: int|
        0 <= i < j < entries.len() ==> #[trigger] entries[i].0 != #[trigger] entries[j].0
}

/// Whether `key` is the key of some entry.
pub open spec fn has_key<K, V>(entries: Seq<(K, V)>, key: K) -> bool {
    exists|i: int| #[trigger] key_at(entries, key, i)
}

/// Whether the entry at `i` holds `key`.
pub open spec fn key_at<K, V>(entries: Seq<(K, V)>, key: K, i: int) -> bool {
    0 <= i < entries.len() && entries[i].0 == key
}

/// The position of the entry of `key`, where it has one.
pub open spec fn position_of<K, V>(entries: Seq<(K, V)>, key: K) -> int {
    choose|i: int| key_at(entries, key, i)
}

/// In entries without repeated keys, the entry holding a key sits at its
/// position.
pub proof fn lemma_position_of<K, V>(entries: Seq<(K, V)>, key: K, i: int)
    requires
        keys_distinct(entries),
        key_at(entries, key, i),
    ensures
        has_key(entries, key),
        position_of(entries, key) == i,
{
    let j = position_of(entries, key);
    assert(key_at(entries, key, j));
    if j < i {
        assert(entries[j].0 != entries[i].0);
    } else if i < j {
        assert(entries[i].0 != entries[j].0);
    }
}

/// The entries after inserting `value` under `key`: the asset of a present
/// key is replaced in place, a new key is appended.
pub open spec fn inserted<K, V>(entries: Seq<(K, V)>, key: K, value: V) -> Seq<(K, V)> {
    if has_key(entries, key) {
        entries.update(position_of(entries, key), (key, value))
    } else {
        entries.push((key, value))
    }
}

/// What reading `after`, the entries once `value` is inserted under `key`
/// into `before`, gives back: no key occurs twice; `key` holds `value`, at
/// its old position where it had one and last otherwise; every other key
/// keeps whether it is present, its position and its asset.
pub open spec fn read_after_insert<K, V>(
    before: Seq<(K, V)>,
    after: Seq<(K, V)>,
    key: K,
    value: V,
) -> bool {
    &&& keys_distinct(after)
    &&& has_key(after, key)
    &&& after[position_of(after, key)].1 == value
    &&& has_key(before, key) ==> position_of(after, key) == position_of(before, key)
    &&& !has_key(before, key) ==> position_of(after, key) == before.len()
    &&& forall|other: K|
        #![trigger has_key(after, other)]
        #![trigger has_key(before, other)]
        other != key ==> (has_key(after, other) <==> has_key(before, other)) && (has_key(
            before,
            other,
        ) ==> position_of(after, other) == position_of(before, other) && after[position_of(
            after,
            other,
        )].1 == before[position_of(before, other)].1)
}

/// The entries after inserting `items` one after another, in order.
pub open spec fn inserted_all<K, V>(entries: Seq<(K, V)>, items: Seq<(K, V)>) -> Seq<(K, V)>
    decreases items.len(),
{
    if items.len() == 0 {
        entries
    } else {
        inserted(inserted_all(entries, items.drop_last()), items.last().0, items.last().1)
    }
}

/// The entries whose key is among `ids`, in their order.
pub open spec fn kept_entries<K, V>(entries: Seq<(K, V)>, ids: Seq<K>) -> Seq<(K, V)> {
    entries.filter(|e: (K, V)| ids.contains(e.0))
}

/// A map from asset keys to assets that remembers the order in which keys
/// were first inserted. Its view is the sequence of its entries in that
/// order, no key occurring twice.
pub struct AssetMap<K, V> {
    entries: Vec<(K, V)>,
}

impl<K, V> View for AssetMap<K, V> {
    type V = Seq<(K, V)>;

    closed spec fn view(&self) -> Seq<(K, V)> {
        self.entries@
    }
}

impl<K, V> AssetMap<K, V> {
    /// No key occurs twice.
    #[verifier::type_invariant]
    pub open spec fn distinct(self) -> bool {
        keys_distinct(self@)
    }
}

impl<K: AssetKey, V> AssetMap<K, V> {
    /// The map as a mathematical map from keys to assets.
    pub open spec fn as_map(self) -> Map<K, V> {
        Map::new(
            |k: K| has_key(self@, k),
            |k: K| self@[choose|i: int| key_at(self@, k, i)].1,
        )
    }

    /// An empty map.
    pub fn new() -> (m: AssetMap<K, V>)
        ensures
            m@ == Seq::<(K, V)>::empty(),
            keys_distinct(m@),
    {
        AssetMap { entries: Vec::new() }
    }

    /// The number of entries.
    pub fn len(&self) -> (n: usize)
        ensures
            n == self@.len(),
    {
        self.entries.len()
    }

    /// The position of the entry of `key`, if any.
    pub fn index_of(&self, key: &K) -> (r: Option<usize>)
        ensures
            self@.len() <= usize::MAX,
            keys_distinct(self@),
            match r {
                Some(i) => has_key(self@, *key) && i == position_of(self@, *key),
                None => !has_key(self@, *key),
            },
    {
        proof {
            use_type_invariant(self);
        }
        let mut i: usize = 0;
        while i < self.entries.len()
            invariant
                0 <= i <= self.entries@.len(),
                keys_distinct(self@),
                forall|j: int| 0 <= j < i ==> #[trigger] self.entries@[j].0 != *key,
            decreases self.entries@.len() - i,
        {
            if self.entries[i].0.same(key) {
                proof {
                    lemma_position_of(self@, *key, i as int);
                }
                return Some(i);
            }
            i = i + 1;
        }
        None
    }

    /// The entry at position `i`.
    pub fn entry_at(&self, i: usize) -> (e: (&K, &V))
        requires
            i < self@.len(),
        ensures
            *e.0 == self@[i as int].0,
            *e.1 == self@[i as int].1,
    {
        let entry = &self.entries[i];
        (&entry.0, &entry.1)
    }

    /// The asset of `key`, if any.
    pub fn get(&self, key: &K) -> (r: Option<&V>)
        ensures
            match r {
                Some(v) => has_key(self@, *key) && *v == self@[position_of(self@, *key)].1,
                None => !has_key(self@, *key),
            },
            keys_distinct(self@),
    {
        match self.index_of(key) {
            Some(i) => Some(&self.entries[i].1),
            None => None,
        }
    }

    /// Inserts `value` under `key`. Where the key is present its asset is
    /// replaced in place, keeping its position, and the old asset is
    /// returned; otherwise the entry is appended and `None` returned.
    pub fn insert(&mut self, key: K, value: V) -> (r: Option<V>)
        ensures
            match r {
                Some(old_value) => {
                    let i = position_of(old(self)@, key);
                    &&& has_key(old(self)@, key)
                    &&& old_value == old(self)@[i].1
                    &&& final(self)@ == old(self)@.update(i, (key, value))
                },
                None => !has_key(old(self)@, key) && final(self)@ == old(self)@.push(
                    (key, value),
                ),
            },
            final(self)@ == inserted(old(self)@, key, value),
            keys_distinct(old(self)@),
            keys_distinct(final(self)@),
            read_after_insert(old(self)@, final(self)@, key, value),
    {
        proof {
            use_type_invariant(&*self);
            let before = self@;
            lemma_insert_then_get(before, key, value, key);
            assert forall|other: K| other != key implies (has_key(
                inserted(before, key, value),
                other,
            ) <==> has_key(before, other)) && (has_key(before, other) ==> position_of(
                inserted(before, key, value),
                other,
            ) == position_of(before, other) && inserted(before, key, value)[position_of(
                inserted(before, key, value),
                other,
            )].1 == before[position_of(before, other)].1) by {
                lemma_insert_then_get(before, key, value, other);
            }
        }
        match self.index_of(&key) {
            Some(i) => {
                let mut entries = Vec::new();
                std::mem::swap(&mut entries, &mut self.entries);
                let mut entry = (key, value);
                entries.set_and_swap(i, &mut entry);
                proof {
                    assert forall|a: int, b: int|
                        0 <= a < b < entries@.len() implies #[trigger] entries@[a].0
                        != #[trigger] entries@[b].0 by {
                        assert(entries@[a].0 == old(self)@[a].0);
                        assert(entries@[b].0 == old(self)@[b].0);
                    }
                }
                self.entries = entries;
                Some(entry.1)
            },
            None => {
                let mut entries = Vec::new();
                std::mem::swap(&mut entries, &mut self.entries);
                entries.push((key, value));
                proof {
                    assert forall|a: int, b: int|
                        0 <= a < b < entries@.len() implies #[trigger] entries@[a].0
                        != #[trigger] entries@[b].0 by {
                        if b == entries@.len() - 1 {
                            assert(!key_at(old(self)@, key, a));
                        }
                    }
                }
                self.entries = entries;
                None
            },
        }
    }

    /// Keeps only the entries whose key is among `ids`, in their order.
    pub fn retain_keys(&mut self, ids: &[K])
        ensures
            final(self)@ == kept_entries(old(self)@, ids@),
            keys_distinct(old(self)@),
            keys_distinct(final(self)@),
    {
        proof {
            use_type_invariant(&*self);
        }
        let mut entries = Vec::new();
        std::mem::swap(&mut entries, &mut self.entries);
        let ghost orig = entries@;
        let ghost pred = |e: (K, V)| ids@.contains(e.0);
        let mut i: usize = 0;
        let ghost mut j: int = 0;
        while i < entries.len()
            invariant
                0 <= i <= entries@.len(),
                0 <= j <= orig.len(),
                keys_distinct(entries@),
                entries@.subrange(0, i as int) == orig.subrange(0, j).filter(pred),
                entries@.subrange(i as int, entries@.len() as int) == orig.subrange(
                    j,
                    orig.len() as int,
                ),
                pred == (|e: (K, V)| ids@.contains(e.0)),
                entries@.len() - i == orig.len() - j,
            decreases entries@.len() - i,
        {
            let ghost before = entries@;
            let ghost i0 = i as int;
            let ghost j0 = j;
            assert forall|m: int| i0 <= m < before.len() implies #[trigger] before[m] == orig[m - i0
                + j0] by {
                assert(before.subrange(i0, before.len() as int)[m - i0] == before[m]);
                assert(orig.subrange(j0, orig.len() as int)[m - i0] == orig[m - i0 + j0]);
            }
            assert(before[i as int] == orig[j]) by {
                assert(before.subrange(i as int, before.len() as int)[0] == before[i as int]);
                assert(orig.subrange(j, orig.len() as int)[0] == orig[j]);
            }
            assert(orig.subrange(0, j + 1) =~= orig.subrange(0, j).push(orig[j]));
            reveal(Seq::filter);
            assert(orig.subrange(0, j + 1).drop_last() == orig.subrange(0, j));
            if listed(ids, &entries[i].0) {
                i = i + 1;
                proof {
                    j = j + 1;
                    assert(entries@.subrange(0, i as int) == before.subrange(
                        0,
                        i - 1,
                    ).push(before[i - 1]));
                    assert(entries@.subrange(i as int, entries@.len() as int)
                        =~= orig.subrange(j, orig.len() as int));
                }
            } else {
                entries.remove(i);
                proof {
                    j = j + 1;
                    assert(entries@.subrange(0, i as int) =~= before.subrange(0, i as int));
                    assert(entries@.subrange(i as int, entries@.len() as int)
                        =~= orig.subrange(j, orig.len() as int));
                    assert forall|a: int, b: int|
                        0 <= a < b < entries@.len() implies #[trigger] entries@[a].0
                        != #[trigger] entries@[b].0 by {
                        let a0 = if a < i { a } else { a + 1 };
                        let b0 = if b < i { b } else { b + 1 };
                        assert(entries@[a] == before[a0]);
                        assert(entries@[b] == before[b0]);
                    }
                }
            }
        }
        proof {
            assert(orig.subrange(0, orig.len() as int) == orig);
            assert(entries@.subrange(0, i as int) == entries@);
        }
        self.entries = entries;
    }
}

/// Reading back a key after inserting it gives the inserted asset; every
/// other key keeps whether it is present, its asset and its position; a
/// new key goes last; and no key comes to occur twice.
pub proof fn lemma_insert_then_get<K, V>(entries: Seq<(K, V)>, key: K, value: V, other: K)
    requires
        keys_distinct(entries),
    ensures
        ({
            let r = inserted(entries, key, value);
            &&& keys_distinct(r)
            &&& has_key(r, key)
            &&& r[position_of(r, key)].1 == value
            &&& has_key(entries, key) ==> position_of(r, key) == position_of(entries, key)
            &&& !has_key(entries, key) ==> position_of(r, key) == entries.len()
            &&& other != key ==> (has_key(r, other) <==> has_key(entries, other))
            &&& other != key && has_key(entries, other) ==> position_of(r, other) == position_of(
                entries,
                other,
            ) && r[position_of(r, other)].1 == entries[position_of(entries, other)].1
        }),
{
    let r = inserted(entries, key, value);
    if has_key(entries, key) {
        let p = position_of(entries, key);
        assert(key_at(entries, key, p));
        assert forall|a: int, b: int| 0 <= a < b < r.len() implies #[trigger] r[a].0 != #[trigger] r[b].0 by {
            assert(r[a].0 == entries[a].0);
            assert(r[b].0 == entries[b].0);
        }
        assert(key_at(r, key, p));
        lemma_position_of(r, key, p);
        if other != key && has_key(entries, other) {
            let q = position_of(entries, other);
            assert(key_at(entries, other, q));
            assert(key_at(r, other, q));
            lemma_position_of(r, other, q);
        }
        if other != key && has_key(r, other) {
            let q = position_of(r, other);
            assert(key_at(r, other, q));
            assert(key_at(entries, other, q));
        }
    } else {
        let n = entries.len() as int;
        assert forall|a: int, b: int| 0 <= a < b < r.len() implies #[trigger] r[a].0 != #[trigger] r[b].0 by {
            if b == n {
                assert(!key_at(entries, key, a));
            } else {
                assert(r[a].0 == entries[a].0);
                assert(r[b].0 == entries[b].0);
            }
        }
        assert(key_at(r, key, n));
        lemma_position_of(r, key, n);
        if other != key && has_key(entries, other) {
            let q = position_of(entries, other);
            assert(key_at(entries, other, q));
            assert(key_at(r, other, q));
            lemma_position_of(r, other, q);
        }
        if other != key && has_key(r, other) {
            let q = position_of(r, other);
            assert(key_at(r, other, q));
            assert(key_at(entries, other, q));
        }
    }
}

/// The asset of the last of `items` under `key`, if any item is under it.
pub open spec fn last_value_of<K, V>(items: Seq<(K, V)>, key: K) -> Option<V>
    decreases items.len(),
{
    if items.len() == 0 {
        None
    } else if items.last().0 == key {
        Some(items.last().1)
    } else {
        last_value_of(items.drop_last(), key)
    }
}

/// After inserting `items` in order, a key some item is under holds the
/// asset of the last such item; any other key keeps whether it is present
/// and its asset; and no key comes to occur twice.
pub proof fn lemma_inserted_all_then_get<K, V>(entries: Seq<(K, V)>, items: Seq<(K, V)>, key: K)
    requires
        keys_distinct(entries),
    ensures
        ({
            let r = inserted_all(entries, items);
            &&& keys_distinct(r)
            &&& match last_value_of(items, key) {
                Some(v) => has_key(r, key) && r[position_of(r, key)].1 == v,
                None => (has_key(r, key) <==> has_key(entries, key)) && (has_key(entries, key)
                    ==> r[position_of(r, key)].1 == entries[position_of(entries, key)].1),
            }
        }),
    decreases items.len(),
{
    if items.len() > 0 {
        let before = inserted_all(entries, items.drop_last());
        lemma_inserted_all_then_get(entries, items.drop_last(), key);
        lemma_insert_then_get(before, items.last().0, items.last().1, key);
    }
}

/// Keeping the entries of listed keys keeps exactly the listed keys that
/// were present, with their assets, and never repeats a key.
pub proof fn lemma_kept_entries<K, V>(entries: Seq<(K, V)>, ids: Seq<K>, key: K)
    requires
        keys_distinct(entries),
    ensures
        has_key(kept_entries(entries, ids), key) <==> has_key(entries, key) && ids.contains(key),
        has_key(entries, key) && ids.contains(key) ==> kept_entries(entries, ids)[position_of(
            kept_entries(entries, ids),
            key,
        )].1 == entries[position_of(entries, key)].1,
{
    let pred = |e: (K, V)| ids.contains(e.0);
    let k = kept_entries(entries, ids);
    broadcast use vstd::seq_lib::group_filter_ensures;
    if has_key(entries, key) && ids.contains(key) {
        let p = position_of(entries, key);
        assert(key_at(entries, key, p));
        assert(pred(entries[p]));
        entries.lemma_filter_contains(pred, p);
        let q = choose|q: int| 0 <= q < k.len() && k[q] == entries[p];
        assert(key_at(k, key, q));
        lemma_filtered_distinct(entries, pred);
        lemma_position_of(k, key, q);
    }
    if has_key(k, key) {
        let q = position_of(k, key);
        assert(key_at(k, key, q));
        entries.lemma_filter_pred(pred, q);
        lemma_filtered_from(entries, pred, q);
        let p = choose|p: int| 0 <= p < entries.len() && entries[p] == k[q];
        assert(key_at(entries, key, p));
    }
}

/// Every entry kept by a filter comes from the entries.
pub proof fn lemma_filtered_from<A>(s: Seq<A>, pred: spec_fn(A) -> bool, q: int)
    requires
        0 <= q < s.filter(pred).len(),
    ensures
        exists|p: int| 0 <= p < s.len() && s[p] == #[trigger] s.filter(pred)[q],
    decreases s.len(),
{
    reveal(Seq::filter);
    let rest = s.drop_last().filter(pred);
    if pred(s.last()) && q == rest.len() {
        assert(s[s.len() - 1] == s.filter(pred)[q]);
    } else {
        assert(s.filter(pred)[q] == rest[q]);
        lemma_filtered_from(s.drop_last(), pred, q);
        let p = choose|p: int| 0 <= p < s.drop_last().len() && s.drop_last()[p] == rest[q];
        assert(s[p] == s.filter(pred)[q]);
    }
}

/// A filter of entries without repeated keys has no repeated keys.
pub proof fn lemma_filtered_distinct<K, V>(s: Seq<(K, V)>, pred: spec_fn((K, V)) -> bool)
    requires
        keys_distinct(s),
    ensures
        keys_distinct(s.filter(pred)),
    decreases s.len(),
{
    reveal(Seq::filter);
    if s.len() > 0 {
        let init = s.drop_last();
        assert(keys_distinct(init)) by {
            assert forall|a: int, b: int| 0 <= a < b < init.len() implies #[trigger] init[a].0 != #[trigger] init[b].0 by {
                assert(init[a] == s[a]);
                assert(init[b] == s[b]);
            }
        }
        lemma_filtered_distinct(init, pred);
        let rest = init.filter(pred);
        if pred(s.last()) {
            let f = s.filter(pred);
            assert(f == rest.push(s.last()));
            assert forall|a: int, b: int| 0 <= a < b < f.len() implies #[trigger] f[a].0 != #[trigger] f[b].0 by {
                if b == rest.len() {
                    assert(f[a] == rest[a]);
                    lemma_filtered_from(init, pred, a);
                    let p = choose|p: int| 0 <= p < init.len() && init[p] == #[trigger] rest[a];
                    assert(s[p] == f[a]);
                    assert(s[s.len() - 1] == f[b]);
                } else {
                    assert(f[a] == rest[a]);
                    assert(f[b] == rest[b]);
                }
            }
        }
    }
}

/// Whether `key` is among `ids`.
pub fn listed<K: AssetKey>(ids: &[K], key: &K) -> (b: bool)
    ensures
        b == ids@.contains(*key),
{
    let mut i: usize = 0;
    while i < ids.len()
        invariant
            0 <= i <= ids@.len(),
            forall|j: int| 0 <= j < i ==> #[trigger] ids@[j] != *key,
        decreases ids@.len() - i,
    {
        if ids[i].same(key) {
            assert(ids@[i as int] == *key);
            return true;
        }
        i = i + 1;
    }
    false
}

} // verus!
