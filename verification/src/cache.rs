//! A key-value store in which every entry carries an absolute expiry instant.
//!
//! Expiry is enforced lazily: `get` removes an entry it finds stale and
//! reports a miss; nothing sweeps the store in the background, and there is no
//! capacity bound. The store is modelled as a finite map from key (a character
//! sequence) to an [`EntryModel`], and every operation's contract is stated as
//! a transformation of that map via [`store`], [`lookup`] and [`evict`].
//!
//! Time enters only as an explicit `now` argument, so the behaviour of each
//! operation is a function of its inputs alone; the caller supplies the clock.
//! The store is driven through an exclusive reference; sharing it across
//! concurrent callers is the embedding's concern, one lock around the store
//! with each operation holding it for one atomic read or replace.

use vstd::prelude::*;

verus! {

/// A cached value paired with the absolute instant (in the caller's clock
/// units) past which it no longer counts as present.
pub struct CacheEntry<V> {
    pub value: V,
    pub expires_at: u64,
}

/// Mathematical image of one cache entry: the value's abstract view together
/// with its expiry instant.
pub ghost struct EntryModel<M> {
    pub value: M,
    pub expires_at: u64,
}

/// A value the cache can hand back by copy: `dup` reproduces the value up to
/// its abstract view.
pub trait CacheValue: DeepView + Sized {
    fn dup(&self) -> (r: Self)
        ensures
            r.deep_view() == self.deep_view(),
    ;
}

impl CacheValue for String {
    fn dup(&self) -> (r: Self)
        ensures
            r.deep_view() == self.deep_view(),
    {
        self.clone()
    }
}

impl<T: CacheValue> CacheValue for Option<T> {
    fn dup(&self) -> (r: Self)
        ensures
            r.deep_view() == self.deep_view(),
    {
        match self {
            Some(v) => Some(v.dup()),
            None => None,
        }
    }
}

impl<T: CacheValue> CacheValue for Vec<T> {
    fn dup(&self) -> (r: Self)
        ensures
            r.deep_view() == self.deep_view(),
    {
        let mut r: Vec<T> = Vec::new();
        let mut i: usize = 0;
        while i < self.len()
            invariant
                i <= self@.len(),
                r@.len() == i,
                forall|j: int| 0 <= j < i ==> r@[j].deep_view() == self@[j].deep_view(),
            decreases self@.len() - i,
        {
            r.push(self[i].dup());
            i += 1;
        }
        proof {
            assert(r.deep_view() =~= self.deep_view());
        }
        r
    }
}

/// The map after `set(key, value, expires_at)`: the entry for `key` is
/// inserted or overwritten, its expiry always replaced by the given instant.
pub open spec fn store<M>(
    m: Map<Seq<char>, EntryModel<M>>,
    key: Seq<char>,
    value: M,
    expires_at: u64,
) -> Map<Seq<char>, EntryModel<M>> {
    m.insert(key, EntryModel { value, expires_at })
}

/// What `get(key)` returns at instant `now`: the entry's value when present
/// and not yet expired, and nothing otherwise.
pub open spec fn lookup<M>(m: Map<Seq<char>, EntryModel<M>>, key: Seq<char>, now: u64) -> Option<
    M,
> {
    if m.contains_key(key) && now <= m[key].expires_at {
        Some(m[key].value)
    } else {
        None
    }
}

/// The map after `get(key)` at instant `now`: an entry found expired is
/// removed; everything else is left in place.
pub open spec fn evict<M>(m: Map<Seq<char>, EntryModel<M>>, key: Seq<char>, now: u64) -> Map<
    Seq<char>,
    EntryModel<M>,
> {
    if m.contains_key(key) && now > m[key].expires_at {
        m.remove(key)
    } else {
        m
    }
}

/// The cache TTL round trip: a value stored with an expiry reads back as
/// itself at any instant up to that expiry; past it, the read misses and the
/// eviction that accompanies the read removes the entry from the map.
pub proof fn lemma_store_then_lookup<M>(
    m: Map<Seq<char>, EntryModel<M>>,
    key: Seq<char>,
    value: M,
    expires_at: u64,
    now: u64,
)
    ensures
        lookup(store(m, key, value, expires_at), key, now) == if now <= expires_at {
            Some(value)
        } else {
            None::<M>
        },
        now > expires_at ==> evict(store(m, key, value, expires_at), key, now) == store(
            m,
            key,
            value,
            expires_at,
        ).remove(key),
        now > expires_at ==> !evict(store(m, key, value, expires_at), key, now).contains_key(key),
{
}

/// Entries under different keys are independent: storing under one key, or
/// the eviction a read of it performs, leaves what any other key yields
/// untouched.
pub proof fn lemma_key_independence<M>(
    m: Map<Seq<char>, EntryModel<M>>,
    k1: Seq<char>,
    value: M,
    expires_at: u64,
    k2: Seq<char>,
    now: u64,
    later: u64,
)
    requires
        k1 != k2,
    ensures
        lookup(store(m, k1, value, expires_at), k2, later) == lookup(m, k2, later),
        lookup(evict(m, k1, now), k2, later) == lookup(m, k2, later),
{
}

/// The abstract image of one stored pair.
spec fn entry_model<V: DeepView>(e: CacheEntry<V>) -> EntryModel<V::V> {
    EntryModel { value: e.value.deep_view(), expires_at: e.expires_at }
}

/// The map described by a sequence of key/entry pairs; later pairs win.
spec fn assoc_map<V: DeepView>(s: Seq<(String, CacheEntry<V>)>) -> Map<
    Seq<char>,
    EntryModel<V::V>,
>
    decreases s.len(),
{
    if s.len() == 0 {
        Map::empty()
    } else {
        assoc_map(s.drop_last()).insert(s.last().0@, entry_model(s.last().1))
    }
}

/// Whether the keys of `s` are pairwise distinct.
spec fn distinct_keys<V>(s: Seq<(String, CacheEntry<V>)>) -> bool {
    forall|i: int, j: int| 0 <= i < j < s.len() ==> s[i].0@ != s[j].0@
}

proof fn lemma_assoc_contains<V: DeepView>(s: Seq<(String, CacheEntry<V>)>, k: Seq<char>)
    ensures
        assoc_map(s).contains_key(k) <==> exists|i: int| 0 <= i < s.len() && s[i].0@ == k,
    decreases s.len(),
{
    if s.len() > 0 {
        lemma_assoc_contains(s.drop_last(), k);
        if s.last().0@ == k {
            assert(s[s.len() - 1].0@ == k);
        } else if assoc_map(s).contains_key(k) {
            let i = choose|i: int| 0 <= i < s.drop_last().len() && s.drop_last()[i].0@ == k;
            assert(s[i].0@ == k);
        } else if exists|i: int| 0 <= i < s.len() && s[i].0@ == k {
            let i = choose|i: int| 0 <= i < s.len() && s[i].0@ == k;
            assert(s.drop_last()[i].0@ == k);
        }
    }
}

proof fn lemma_assoc_index<V: DeepView>(s: Seq<(String, CacheEntry<V>)>, i: int)
    requires
        distinct_keys(s),
        0 <= i < s.len(),
    ensures
        assoc_map(s).contains_key(s[i].0@),
        assoc_map(s)[s[i].0@] == entry_model(s[i].1),
    decreases s.len(),
{
    if i == s.len() - 1 {
        lemma_assoc_contains(s, s[i].0@);
    } else {
        lemma_assoc_index(s.drop_last(), i);
        assert(s.drop_last()[i] == s[i]);
        assert(s.last().0@ != s[i].0@);
    }
}

proof fn lemma_assoc_finite_len<V: DeepView>(s: Seq<(String, CacheEntry<V>)>)
    requires
        distinct_keys(s),
    ensures
        assoc_map(s).dom().finite(),
        assoc_map(s).len() == s.len(),
    decreases s.len(),
{
    if s.len() > 0 {
        let prefix = s.drop_last();
        assert(distinct_keys(prefix));
        lemma_assoc_finite_len(prefix);
        lemma_assoc_contains(prefix, s.last().0@);
        assert(forall|i: int| 0 <= i < prefix.len() ==> prefix[i].0@ != s.last().0@);
        assert(!assoc_map(prefix).contains_key(s.last().0@));
    }
}

proof fn lemma_assoc_update<V: DeepView>(
    s: Seq<(String, CacheEntry<V>)>,
    i: int,
    p: (String, CacheEntry<V>),
)
    requires
        distinct_keys(s),
        0 <= i < s.len(),
        p.0@ == s[i].0@,
    ensures
        assoc_map(s.update(i, p)) == assoc_map(s).insert(p.0@, entry_model(p.1)),
    decreases s.len(),
{
    let t = s.update(i, p);
    if i == s.len() - 1 {
        assert(t.drop_last() =~= s.drop_last());
        assert(t.last() == p);
    } else {
        lemma_assoc_update(s.drop_last(), i, p);
        assert(t.drop_last() =~= s.drop_last().update(i, p));
        assert(t.last() == s.last());
        assert(s.last().0@ != p.0@);
        assert(assoc_map(s.drop_last()).insert(p.0@, entry_model(p.1)).insert(
            s.last().0@,
            entry_model(s.last().1),
        ) =~= assoc_map(s.drop_last()).insert(s.last().0@, entry_model(s.last().1)).insert(
            p.0@,
            entry_model(p.1),
        ));
    }
}

proof fn lemma_assoc_remove<V: DeepView>(s: Seq<(String, CacheEntry<V>)>, i: int)
    requires
        distinct_keys(s),
        0 <= i < s.len(),
    ensures
        assoc_map(s.remove(i)) == assoc_map(s).remove(s[i].0@),
    decreases s.len(),
{
    let t = s.remove(i);
    if i == s.len() - 1 {
        assert(t =~= s.drop_last());
        lemma_assoc_contains(s.drop_last(), s[i].0@);
        assert(forall|j: int|
            0 <= j < s.drop_last().len() ==> s.drop_last()[j].0@ != s[i].0@);
        assert(!assoc_map(s.drop_last()).contains_key(s[i].0@));
        assert(assoc_map(s.drop_last()).insert(s[i].0@, entry_model(s[i].1)).remove(s[i].0@)
            =~= assoc_map(s.drop_last()));
    } else {
        lemma_assoc_remove(s.drop_last(), i);
        assert(t.drop_last() =~= s.drop_last().remove(i));
        assert(t.last() == s.last());
        assert(s.last().0@ != s[i].0@);
        assert(assoc_map(s.drop_last()).remove(s[i].0@).insert(
            s.last().0@,
            entry_model(s.last().1),
        ) =~= assoc_map(s.drop_last()).insert(s.last().0@, entry_model(s.last().1)).remove(
            s[i].0@,
        ));
    }
}

proof fn lemma_assoc_push<V: DeepView>(s: Seq<(String, CacheEntry<V>)>, p: (String, CacheEntry<V>))
    ensures
        assoc_map(s.push(p)) == assoc_map(s).insert(p.0@, entry_model(p.1)),
{
    assert(s.push(p).drop_last() =~= s);
    assert(s.push(p).last() == p);
}

/// The operations of a time-expiring store, with its behaviour stated over
/// a finite-map abstraction: what `get` returns and evicts, and what `set`
/// replaces, at an explicit instant `now`.
pub trait TimedCache<V: CacheValue>: Sized {
    /// The invariant every operation preserves.
    spec fn wf(&self) -> bool;

    /// The finite map this store currently represents.
    spec fn contents(&self) -> Map<Seq<char>, EntryModel<V::V>>;

    /// Returns the value cached under `key` when it is present and not past
    /// its expiry at instant `now`; removes the entry and reports a miss
    /// when it is present but expired; reports a miss when it is absent.
    /// The store itself never consults any upstream source.
    fn get(&mut self, key: &String, now: u64) -> (r: Option<V>)
        requires
            old(self).wf(),
        ensures
            final(self).wf(),
            r.deep_view() == lookup(old(self).contents(), key@, now),
            final(self).contents() == evict(old(self).contents(), key@, now),
    ;

    /// Inserts or overwrites the entry for `key`, always replacing the
    /// expiry with the given instant.
    fn set(&mut self, key: &String, value: V, expires_at: u64)
        requires
            old(self).wf(),
        ensures
            final(self).wf(),
            final(self).contents() == store(
                old(self).contents(),
                key@,
                value.deep_view(),
                expires_at,
            ),
    ;
}

/// The time-expiring store itself: a list of key/entry pairs with pairwise
/// distinct keys, read and replaced through its finite-map abstraction.
pub struct Cache<V> {
    entries: Vec<(String, CacheEntry<V>)>,
}

impl<V: CacheValue> Cache<V> {
    /// An empty store.
    pub fn new() -> (c: Self)
        ensures
            c.wf(),
            c.contents() == Map::<Seq<char>, EntryModel<V::V>>::empty(),
    {
        Cache { entries: Vec::new() }
    }

    /// The position of `key` in the entry list, if it is present.
    fn find(&self, key: &String) -> (r: Option<usize>)
        ensures
            match r {
                Some(i) => i < self.entries@.len() && self.entries@[i as int].0@ == key@,
                None => forall|i: int|
                    0 <= i < self.entries@.len() ==> self.entries@[i].0@ != key@,
            },
    {
        let n = self.entries.len();
        let mut i: usize = 0;
        while i < n
            invariant
                n == self.entries@.len(),
                i <= n,
                forall|j: int| 0 <= j < i ==> self.entries@[j].0@ != key@,
            decreases n - i,
        {
            if self.entries[i].0.eq(key) {
                return Some(i);
            }
            i += 1;
        }
        None
    }

    /// The number of entries currently stored, expired or not.
    pub fn len(&self) -> (n: usize)
        requires
            self.wf(),
        ensures
            n == self.contents().len(),
    {
        proof {
            lemma_assoc_finite_len(self.entries@);
        }
        self.entries.len()
    }
}

impl<V: CacheValue> TimedCache<V> for Cache<V> {
    /// No key occurs twice in the entry list.
    closed spec fn wf(&self) -> bool {
        distinct_keys(self.entries@)
    }

    closed spec fn contents(&self) -> Map<Seq<char>, EntryModel<V::V>> {
        assoc_map(self.entries@)
    }

    fn set(&mut self, key: &String, value: V, expires_at: u64) {
        let entry = CacheEntry { value, expires_at };
        match self.find(key) {
            Some(i) => {
                let ghost s = self.entries@;
                let pair = (key.clone(), entry);
                proof {
                    lemma_assoc_update(s, i as int, pair);
                }
                self.entries.set(i, pair);
                proof {
                    assert(distinct_keys(self.entries@));
                }
            },
            None => {
                let ghost s = self.entries@;
                let pair = (key.clone(), entry);
                proof {
                    lemma_assoc_push(s, pair);
                }
                self.entries.push(pair);
                proof {
                    assert(distinct_keys(self.entries@));
                }
            },
        }
    }

    fn get(&mut self, key: &String, now: u64) -> (r: Option<V>) {
        match self.find(key) {
            None => {
                proof {
                    lemma_assoc_contains(self.entries@, key@);
                }
                None
            },
            Some(i) => {
                proof {
                    lemma_assoc_index(self.entries@, i as int);
                }
                if now <= self.entries[i].1.expires_at {
                    Some(self.entries[i].1.value.dup())
                } else {
                    let ghost s = self.entries@;
                    proof {
                        lemma_assoc_remove(s, i as int);
                    }
                    self.entries.remove(i);
                    proof {
                        assert(distinct_keys(self.entries@)) by {
                            assert(forall|x: int|
                                0 <= x < self.entries@.len() ==> exists|x0: int|
                                    0 <= x0 < s.len() && #[trigger] self.entries@[x] == s[x0]);
                        }
                    }
                    None
                }
            },
        }
    }
}

impl<V: CacheValue> Default for Cache<V> {
    /// An empty store, as [`Cache::new`] builds it.
    fn default() -> (c: Self)
        ensures
            c.wf(),
            c.contents() == Map::<Seq<char>, EntryModel<V::V>>::empty(),
    {
        Cache::new()
    }
}

} // verus!
