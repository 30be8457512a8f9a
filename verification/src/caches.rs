//! Cache classes for FerricLink Core.
//!
//! **Cache** provides an optional caching layer for LLMs: it associates an
//! opaque string fingerprint, derived from a prompt and an LLM configuration
//! string, with a list of generations. The in-memory store is bounded in
//! size with least-recently-used eviction, and the TTL variant adds lazy
//! expiration of entries that are older than a time-to-live.
//!
//! Time is passed in explicitly as a monotonic timestamp in nanoseconds;
//! the convenience entry points read the process clock themselves.

use vstd::prelude::*;
use vstd::string::StringExecFns;

use crate::language_models::duplicate_generations;
use crate::language_models::Generation;
use crate::language_models::GenerationView;

verus! {

/// Type alias for cached return values
pub type CachedGenerations = Vec<Generation>;

/// A cache entry that includes the data and metadata
#[derive(Debug, Clone)]
pub struct CacheEntry {
    /// The cached generations
    pub data: CachedGenerations,
    /// When this entry was created, in nanoseconds
    pub created_at: u64,
    /// When this entry was last accessed, in nanoseconds
    pub last_accessed: u64,
    /// Number of times this entry has been accessed
    pub access_count: u64,
}

/// The mathematical value of a [`CacheEntry`].
pub ghost struct CacheEntryView {
    /// The cached generations
    pub data: Seq<GenerationView>,
    /// When this entry was created, in nanoseconds
    pub created_at: u64,
    /// When this entry was last accessed, in nanoseconds
    pub last_accessed: u64,
    /// Number of times this entry has been accessed
    pub access_count: u64,
}

impl View for CacheEntry {
    type V = CacheEntryView;

    open spec fn view(&self) -> CacheEntryView {
        CacheEntryView {
            data: self.data.deep_view(),
            created_at: self.created_at,
            last_accessed: self.last_accessed,
            access_count: self.access_count,
        }
    }
}

impl DeepView for CacheEntry {
    type V = CacheEntryView;

    open spec fn deep_view(&self) -> CacheEntryView {
        self.view()
    }
}

/// Cache statistics for monitoring
#[derive(Debug, Clone, Copy, PartialEq, Eq, Structural)]
pub struct CacheStats {
    /// Number of cache hits
    pub hits: u64,
    /// Number of cache misses
    pub misses: u64,
    /// Number of cache updates
    pub updates: u64,
    /// Number of cache clears
    pub clears: u64,
    /// Total number of entries currently in cache
    pub current_size: usize,
    /// Maximum size the cache has reached
    pub max_size_reached: usize,
}

impl CacheStats {
    /// The all-zero statistics of a fresh store.
    pub open spec fn spec_zero() -> CacheStats {
        CacheStats { hits: 0, misses: 0, updates: 0, clears: 0, current_size: 0, max_size_reached: 0 }
    }

    /// Get the total number of requests
    pub fn total_requests(&self) -> (r: u64)
        requires
            self.hits + self.misses <= u64::MAX,
        ensures
            r == self.hits + self.misses,
    {
        self.hits + self.misses
    }
}

impl Default for CacheStats {
    /// All counters and gauges start at zero.
    fn default() -> (r: Self)
        ensures
            r == CacheStats::spec_zero(),
    {
        CacheStats { hits: 0, misses: 0, updates: 0, clears: 0, current_size: 0, max_size_reached: 0 }
    }
}

/// The fingerprint under which a `(prompt, llm_string)` pair is stored:
/// the two strings joined by the delimiter `|||`.
pub open spec fn spec_cache_key(prompt: Seq<char>, llm_string: Seq<char>) -> Seq<char> {
    prompt + "|||"@ + llm_string
}

/// Whether the association list `s` holds the key `k`.
pub open spec fn has_key(s: Seq<(Seq<char>, CacheEntryView)>, k: Seq<char>) -> bool {
    exists|i: int| 0 <= i < s.len() && s[i].0 == k
}

/// The index at which the association list `s` holds the key `k`.
pub open spec fn key_index(s: Seq<(Seq<char>, CacheEntryView)>, k: Seq<char>) -> int {
    choose|i: int| 0 <= i < s.len() && s[i].0 == k
}

/// Whether the association list `s` holds each key at most once.
pub open spec fn unique_keys(s: Seq<(Seq<char>, CacheEntryView)>) -> bool {
    forall|i: int, j: int| 0 <= i < j < s.len() ==> #[trigger] s[i].0 != #[trigger] s[j].0
}

/// The index of the least-recently-used entry of `s`: the first entry whose
/// `last_accessed` is minimal.
pub open spec fn lru_index(s: Seq<(Seq<char>, CacheEntryView)>) -> int
    recommends
        s.len() > 0,
    decreases s.len(),
{
    if s.len() <= 1 {
        0
    } else {
        let r = lru_index(s.drop_last());
        if s.last().1.last_accessed < s[r].1.last_accessed {
            s.len() - 1
        } else {
            r
        }
    }
}

/// The least-recently-used index is in range and points at a minimal,
/// first-of-its-value `last_accessed`.
pub proof fn lemma_lru_index_properties(s: Seq<(Seq<char>, CacheEntryView)>)
    requires
        s.len() > 0,
    ensures
        0 <= lru_index(s) < s.len(),
        forall|i: int| 0 <= i < s.len()
            ==> #[trigger] s[i].1.last_accessed >= s[lru_index(s)].1.last_accessed,
        forall|i: int| 0 <= i < lru_index(s)
            ==> #[trigger] s[i].1.last_accessed > s[lru_index(s)].1.last_accessed,
    decreases s.len(),
{
    if s.len() > 1 {
        let s2 = s.drop_last();
        lemma_lru_index_properties(s2);
        let r2 = lru_index(s2);
        let r = lru_index(s);
        assert(forall|i: int| 0 <= i < s2.len() ==> s[i] == #[trigger] s2[i]);
        assert(s[r].1.last_accessed <= s2[r2].1.last_accessed);
        assert forall|i: int| 0 <= i < s.len()
            implies #[trigger] s[i].1.last_accessed >= s[r].1.last_accessed by {
            if i < s.len() - 1 {
                assert(s2[i].1.last_accessed >= s2[r2].1.last_accessed);
            }
        }
        assert forall|i: int| 0 <= i < r
            implies #[trigger] s[i].1.last_accessed > s[r].1.last_accessed by {
            if r == s.len() - 1 {
                assert(s2[i].1.last_accessed >= s2[r2].1.last_accessed);
            } else {
                assert(s2[i].1.last_accessed > s2[r2].1.last_accessed);
            }
        }
    }
}

/// The entry list after inserting `data` under the key `k` at time `t`
/// into a store with entries `s` and capacity `max_size`: when the store is
/// at capacity the least-recently-used entry leaves first, then the key's
/// entry is replaced in place or a fresh entry is appended.
pub open spec fn spec_cache_insert(
    s: Seq<(Seq<char>, CacheEntryView)>,
    max_size: Option<usize>,
    k: Seq<char>,
    data: Seq<GenerationView>,
    t: u64,
) -> Seq<(Seq<char>, CacheEntryView)> {
    let s_ev = if max_size matches Some(m) && s.len() >= m {
        s.remove(lru_index(s))
    } else {
        s
    };
    let e = CacheEntryView { data, created_at: t, last_accessed: t, access_count: 0 };
    if has_key(s_ev, k) {
        s_ev.update(key_index(s_ev, k), (k, e))
    } else {
        s_ev.push((k, e))
    }
}

/// The entry list after a hit on key `k` at time `t`: the entry keeps its
/// data and creation time, its `last_accessed` becomes `t`, and its access
/// count goes up by one.
pub open spec fn spec_cache_touch(
    s: Seq<(Seq<char>, CacheEntryView)>,
    k: Seq<char>,
    t: u64,
) -> Seq<(Seq<char>, CacheEntryView)>
    recommends
        has_key(s, k),
{
    let i = key_index(s, k);
    s.update(i, (k, CacheEntryView {
        last_accessed: t,
        access_count: s[i].1.access_count.saturating_add(1),
        ..s[i].1
    }))
}

/// A fresh store holds no fingerprint at all: every lookup on it misses.
pub proof fn lemma_fresh_store_misses(k: Seq<char>)
    ensures
        !has_key(Seq::<(Seq<char>, CacheEntryView)>::empty(), k),
{
}

/// Inserting under a key and then looking that key up finds exactly the
/// inserted data, created at the insertion time and not yet accessed.
pub proof fn lemma_round_trip(
    s: Seq<(Seq<char>, CacheEntryView)>,
    max_size: Option<usize>,
    k: Seq<char>,
    data: Seq<GenerationView>,
    t: u64,
)
    requires
        unique_keys(s),
        max_size matches Some(m) ==> m >= 1,
    ensures
        ({
            let s1 = spec_cache_insert(s, max_size, k, data, t);
            &&& unique_keys(s1)
            &&& has_key(s1, k)
            &&& s1[key_index(s1, k)].1 == (CacheEntryView {
                    data,
                    created_at: t,
                    last_accessed: t,
                    access_count: 0,
                })
        }),
{
    let s_ev = if max_size matches Some(m) && s.len() >= m {
        s.remove(lru_index(s))
    } else {
        s
    };
    if s.len() > 0 {
        lemma_lru_index_properties(s);
        s.remove_ensures(lru_index(s));
    }
    assert forall|a: int, b: int| 0 <= a < b < s_ev.len()
        implies #[trigger] s_ev[a].0 != #[trigger] s_ev[b].0 by {
        if max_size matches Some(m) && s.len() >= m {
            let r = lru_index(s);
            let a2: int = if a < r { a } else { a + 1 };
            let b2: int = if b < r { b } else { b + 1 };
            assert(s_ev[a] == s[a2]);
            assert(s_ev[b] == s[b2]);
        }
    }
    assert(unique_keys(s_ev));
    let e = CacheEntryView { data, created_at: t, last_accessed: t, access_count: 0 };
    let s1 = spec_cache_insert(s, max_size, k, data, t);
    if has_key(s_ev, k) {
        let i = key_index(s_ev, k);
        assert(s_ev[i].0 == k);
        assert(s1 == s_ev.update(i, (k, e)));
        assert(unique_keys(s1));
        assert(s1[i].0 == k);
        assert(has_key(s1, k));
        let j = key_index(s1, k);
        assert(s1[j].0 == k);
        assert(j == i);
    } else {
        assert(s1 == s_ev.push((k, e)));
        let n = s_ev.len() as int;
        assert(s1[n].0 == k);
        assert(has_key(s1, k));
        assert forall|a: int, b: int| 0 <= a < b < s1.len()
            implies #[trigger] s1[a].0 != #[trigger] s1[b].0 by {
            if b < n {
                assert(s1[a] == s_ev[a] && s1[b] == s_ev[b]);
            } else {
                assert(s1[a] == s_ev[a]);
                assert(!(s_ev[a].0 == k));
            }
        }
        let j = key_index(s1, k);
        assert(s1[j].0 == k);
        assert(j == n);
    }
}

/// After any insertion into a store that respects its capacity, the store
/// still holds at most `m` entries.
pub proof fn lemma_capacity_invariant(
    s: Seq<(Seq<char>, CacheEntryView)>,
    m: usize,
    k: Seq<char>,
    data: Seq<GenerationView>,
    t: u64,
)
    requires
        m >= 1,
        s.len() <= m,
    ensures
        spec_cache_insert(s, Some(m), k, data, t).len() <= m,
{
    if s.len() > 0 {
        lemma_lru_index_properties(s);
    }
}

/// Cache that stores things in memory.
///
/// This is a simple in-memory cache implementation that stores cached values
/// in an association list keyed by fingerprint. It supports optional size
/// limits and LRU eviction.
#[derive(Debug, Clone)]
pub struct InMemoryCache {
    /// The actual cache storage, keyed by fingerprint, with unique keys
    pub entries: Vec<(String, CacheEntry)>,
    /// Maximum number of items to store in the cache
    pub max_size: Option<usize>,
    /// Statistics for monitoring
    pub stats: CacheStats,
}

impl InMemoryCache {
    /// The entries of the cache as a sequence of key/entry values.
    pub open spec fn spec_entries(self) -> Seq<(Seq<char>, CacheEntryView)> {
        self.entries.deep_view()
    }

    /// Well-formedness: keys are unique, and when a maximum size is set it is
    /// positive and the store holds no more than that many entries.
    pub open spec fn wf(self) -> bool {
        &&& unique_keys(self.spec_entries())
        &&& match self.max_size {
            Some(m) => m >= 1 && self.spec_entries().len() <= m,
            None => true,
        }
    }

    /// Create a new in-memory cache with no size limit.
    pub fn new() -> (r: Self)
        ensures
            r.wf(),
            r.spec_entries() == Seq::<(Seq<char>, CacheEntryView)>::empty(),
            r.max_size is None,
            r.stats == CacheStats::spec_zero(),
    {
        Self::with_max_size(None)
    }

    /// Create a new in-memory cache with a maximum size.
    ///
    /// When a maximum is given it must be positive; when the cache would
    /// exceed it, the least-recently-used entry is evicted first.
    pub fn with_max_size(max_size: Option<usize>) -> (r: Self)
        requires
            max_size matches Some(m) ==> m >= 1,
        ensures
            r.wf(),
            r.spec_entries() == Seq::<(Seq<char>, CacheEntryView)>::empty(),
            r.max_size == max_size,
            r.stats == CacheStats::spec_zero(),
    {
        InMemoryCache { entries: Vec::new(), max_size, stats: CacheStats::default() }
    }

    /// Generate a cache key from prompt and llm_string.
    pub fn generate_key(prompt: &str, llm_string: &str) -> (r: String)
        ensures
            r@ == spec_cache_key(prompt@, llm_string@),
    {
        let mut key = String::new();
        key.append(prompt);
        key.append("|||");
        key.append(llm_string);
        key
    }

    /// Find the position of a fingerprint in the entry list.
    fn find_index(&self, key: &String) -> (r: Option<usize>)
        ensures
            match r {
                Some(i) => 0 <= i < self.spec_entries().len()
                    && self.spec_entries()[i as int].0 == key@,
                None => !has_key(self.spec_entries(), key@),
            },
    {
        let n = self.entries.len();
        let mut i: usize = 0;
        while i < n
            invariant
                0 <= i <= n,
                n == self.entries@.len(),
                forall|j: int| 0 <= j < i ==> #[trigger] self.spec_entries()[j].0 != key@,
            decreases n - i,
        {
            if self.entries[i].0 == *key {
                return Some(i);
            }
            i += 1;
        }
        None
    }

    /// Look up a fingerprint at an explicit time, in nanoseconds.
    ///
    /// On a hit the entry's `last_accessed` is set to `now_nanos`, its access
    /// count goes up by one, the hit counter goes up by one, and the cached
    /// generations come back. On a miss the miss counter goes up by one and
    /// nothing else changes.
    pub fn lookup_at(&mut self, prompt: &str, llm_string: &str, now_nanos: u64)
        -> (r: Option<CachedGenerations>)
        requires
            old(self).wf(),
        ensures
            final(self).wf(),
            final(self).max_size == old(self).max_size,
            ({
                let k = spec_cache_key(prompt@, llm_string@);
                let s = old(self).spec_entries();
                if has_key(s, k) {
                    &&& r matches Some(d) && d.deep_view() == s[key_index(s, k)].1.data
                    &&& final(self).spec_entries() == spec_cache_touch(s, k, now_nanos)
                    &&& final(self).stats == (CacheStats {
                            hits: old(self).stats.hits.saturating_add(1),
                            ..old(self).stats
                        })
                } else {
                    &&& r is None
                    &&& final(self).spec_entries() == s
                    &&& final(self).stats == (CacheStats {
                            misses: old(self).stats.misses.saturating_add(1),
                            ..old(self).stats
                        })
                }
            }),
    {
        let key = Self::generate_key(prompt, llm_string);
        let ghost s = self.spec_entries();
        let ghost k = spec_cache_key(prompt@, llm_string@);
        match self.find_index(&key) {
            Some(i) => {
                proof {
                    assert(has_key(s, k));
                    assert(s[key_index(s, k)].0 == k);
                    assert(key_index(s, k) == i as int);
                }
                let (k0, mut e) = self.entries.remove(i);
                e.last_accessed = now_nanos;
                e.access_count = e.access_count.saturating_add(1);
                let data = duplicate_generations(&e.data);
                self.entries.insert(i, (k0, e));
                self.stats.hits = self.stats.hits.saturating_add(1);
                proof {
                    assert(self.spec_entries() =~= spec_cache_touch(s, k, now_nanos));
                }
                Some(data)
            },
            None => {
                self.stats.misses = self.stats.misses.saturating_add(1);
                None
            },
        }
    }

    /// Insert or replace the entry for a fingerprint, at an explicit time in
    /// nanoseconds.
    ///
    /// When the store is at capacity, the least-recently-used entry — the
    /// first entry whose `last_accessed` is minimal — is evicted before the
    /// insertion. Eviction is triggered only by updates, never by lookups.
    pub fn update_at(
        &mut self,
        prompt: &str,
        llm_string: &str,
        return_val: CachedGenerations,
        now_nanos: u64,
    )
        requires
            old(self).wf(),
        ensures
            final(self).wf(),
            final(self).max_size == old(self).max_size,
            final(self).stats == (CacheStats {
                updates: old(self).stats.updates.saturating_add(1),
                max_size_reached: if final(self).spec_entries().len()
                        > old(self).stats.max_size_reached {
                    final(self).spec_entries().len() as usize
                } else {
                    old(self).stats.max_size_reached
                },
                ..old(self).stats
            }),
            final(self).spec_entries() == spec_cache_insert(
                old(self).spec_entries(),
                old(self).max_size,
                spec_cache_key(prompt@, llm_string@),
                return_val.deep_view(),
                now_nanos,
            ),
    {
        let key = Self::generate_key(prompt, llm_string);
        let ghost s0 = self.spec_entries();
        let ghost k = spec_cache_key(prompt@, llm_string@);

        // Evict if needed before adding the new entry
        if let Some(max_size) = self.max_size {
            if self.entries.len() >= max_size {
                let victim = self.find_lru();
                self.entries.remove(victim);
            }
        }
        let ghost s_ev = self.spec_entries();
        proof {
            if old(self).max_size matches Some(m) && s0.len() >= m {
                assert(s_ev =~= s0.remove(lru_index(s0)));
            } else {
                assert(s_ev =~= s0);
            }
            assert(forall|i: int, j: int|
                0 <= i < j < s_ev.len() ==> #[trigger] s_ev[i].0 != #[trigger] s_ev[j].0);
        }

        let entry = CacheEntry {
            data: return_val,
            created_at: now_nanos,
            last_accessed: now_nanos,
            access_count: 0,
        };

        match self.find_index(&key) {
            Some(i) => {
                proof {
                    assert(has_key(s_ev, k));
                    assert(s_ev[key_index(s_ev, k)].0 == k);
                    assert(key_index(s_ev, k) == i as int);
                }
                self.entries.remove(i);
                self.entries.insert(i, (key, entry));
                proof {
                    assert(self.spec_entries() =~= s_ev.update(
                        i as int,
                        (
                            k,
                            CacheEntryView {
                                data: return_val.deep_view(),
                                created_at: now_nanos,
                                last_accessed: now_nanos,
                                access_count: 0,
                            },
                        ),
                    ));
                }
            },
            None => {
                self.entries.push((key, entry));
                proof {
                    assert(self.spec_entries() =~= s_ev.push(
                        (
                            k,
                            CacheEntryView {
                                data: return_val.deep_view(),
                                created_at: now_nanos,
                                last_accessed: now_nanos,
                                access_count: 0,
                            },
                        ),
                    ));
                }
            },
        }

        self.stats.updates = self.stats.updates.saturating_add(1);
        if self.entries.len() > self.stats.max_size_reached {
            self.stats.max_size_reached = self.entries.len();
        }
    }

    /// Find the index of the least-recently-used entry.
    fn find_lru(&self) -> (r: usize)
        requires
            self.spec_entries().len() > 0,
        ensures
            r < self.spec_entries().len(),
            r == lru_index(self.spec_entries()),
    {
        let n = self.entries.len();
        let mut best: usize = 0;
        let mut i: usize = 1;
        while i < n
            invariant
                1 <= i <= n,
                0 <= best < i,
                n == self.spec_entries().len(),
                best == lru_index(self.spec_entries().take(i as int)),
            decreases n - i,
        {
            proof {
                let s = self.spec_entries();
                assert(s.take(i + 1).drop_last() =~= s.take(i as int));
                assert(s.take(i + 1).last() == s[i as int]);
            }
            if self.entries[i].1.last_accessed < self.entries[best].1.last_accessed {
                best = i;
            }
            i += 1;
        }
        proof {
            assert(self.spec_entries().take(n as int) =~= self.spec_entries());
        }
        best
    }

    /// Empty all entries; the clear counter goes up by one and the other
    /// counters keep their values.
    pub fn clear(&mut self)
        requires
            old(self).wf(),
        ensures
            final(self).wf(),
            final(self).spec_entries() == Seq::<(Seq<char>, CacheEntryView)>::empty(),
            final(self).max_size == old(self).max_size,
            final(self).stats == (CacheStats {
                clears: old(self).stats.clears.saturating_add(1),
                ..old(self).stats
            }),
    {
        self.entries.clear();
        self.stats.clears = self.stats.clears.saturating_add(1);
    }

    /// Get cache statistics: a snapshot whose `current_size` is the number of
    /// entries at the time of the call.
    pub fn stats(&self) -> (r: CacheStats)
        ensures
            r == (CacheStats { current_size: self.spec_entries().len() as usize, ..self.stats }),
    {
        CacheStats { current_size: self.entries.len(), ..self.stats }
    }

    /// Get the current cache size.
    pub fn size(&self) -> (r: usize)
        ensures
            r == self.spec_entries().len(),
    {
        self.entries.len()
    }

    /// Check if the cache is empty.
    pub fn is_empty(&self) -> (r: bool)
        ensures
            r == (self.spec_entries().len() == 0),
    {
        self.entries.is_empty()
    }

    /// Get the maximum cache size.
    pub fn max_size(&self) -> (r: Option<usize>)
        ensures
            r == self.max_size,
    {
        self.max_size
    }
}

impl Default for InMemoryCache {
    /// Same as [`InMemoryCache::new`]: an empty, unbounded cache.
    fn default() -> (r: Self)
        ensures
            r.wf(),
            r.spec_entries() == Seq::<(Seq<char>, CacheEntryView)>::empty(),
            r.max_size is None,
            r.stats == CacheStats::spec_zero(),
    {
        Self::new()
    }
}

impl InMemoryCache {
    /// Look up a fingerprint at the present moment.
    ///
    /// Same as [`Self::lookup_at`] with the current clock reading: the
    /// hit/miss outcome, the returned data and the counters do not depend
    /// on the reading; only the refreshed `last_accessed` does.
    pub fn lookup(&mut self, prompt: &str, llm_string: &str) -> (r: Option<CachedGenerations>)
        requires
            old(self).wf(),
        ensures
            final(self).wf(),
            final(self).max_size == old(self).max_size,
            ({
                let k = spec_cache_key(prompt@, llm_string@);
                let s = old(self).spec_entries();
                if has_key(s, k) {
                    &&& r matches Some(d) && d.deep_view() == s[key_index(s, k)].1.data
                    &&& exists|t: u64| final(self).spec_entries() == spec_cache_touch(s, k, t)
                    &&& final(self).stats == (CacheStats {
                            hits: old(self).stats.hits.saturating_add(1),
                            ..old(self).stats
                        })
                } else {
                    &&& r is None
                    &&& final(self).spec_entries() == s
                    &&& final(self).stats == (CacheStats {
                            misses: old(self).stats.misses.saturating_add(1),
                            ..old(self).stats
                        })
                }
            }),
    {
        let now = crate::clock::now_nanos();
        let ghost s = self.spec_entries();
        let ghost k = spec_cache_key(prompt@, llm_string@);
        let r = self.lookup_at(prompt, llm_string, now);
        proof {
            if has_key(s, k) {
                assert(self.spec_entries() == spec_cache_touch(s, k, now));
            }
        }
        r
    }

    /// Insert or replace the entry for a fingerprint at the present moment.
    ///
    /// Same as [`Self::update_at`] with the current clock reading: which
    /// entry is evicted and where the new entry lands do not depend on the
    /// reading; only the new entry's timestamps do.
    pub fn update(&mut self, prompt: &str, llm_string: &str, return_val: CachedGenerations)
        requires
            old(self).wf(),
        ensures
            final(self).wf(),
            final(self).max_size == old(self).max_size,
            final(self).stats == (CacheStats {
                updates: old(self).stats.updates.saturating_add(1),
                max_size_reached: if final(self).spec_entries().len()
                        > old(self).stats.max_size_reached {
                    final(self).spec_entries().len() as usize
                } else {
                    old(self).stats.max_size_reached
                },
                ..old(self).stats
            }),
            exists|t: u64| final(self).spec_entries() == spec_cache_insert(
                old(self).spec_entries(),
                old(self).max_size,
                spec_cache_key(prompt@, llm_string@),
                return_val.deep_view(),
                t,
            ),
    {
        let now = crate::clock::now_nanos();
        let ghost s = self.spec_entries();
        let ghost k = spec_cache_key(prompt@, llm_string@);
        let ghost d = return_val.deep_view();
        self.update_at(prompt, llm_string, return_val, now);
        proof {
            assert(self.spec_entries() == spec_cache_insert(s, old(self).max_size, k, d, now));
        }
    }
}

/// Whether an entry created at `created_at` has outlived the time-to-live
/// `ttl` at the moment `now`, all in nanoseconds. Age is measured from the
/// creation time, saturating at zero for clock readings before it.
pub open spec fn spec_expired(created_at: u64, ttl: u64, now: u64) -> bool {
    now.saturating_sub(created_at) > ttl
}

/// A more advanced cache with TTL (Time To Live) support.
///
/// Expiration is lazy: an entry older than the time-to-live is evicted when
/// a lookup finds it, and the lookup is reported as a miss. An entry that is
/// never looked up again keeps occupying capacity until the LRU path or
/// `clear` removes it, so a TTL alone does not bound memory; combine it
/// with a maximum size for a hard bound.
#[derive(Debug)]
pub struct TtlCache {
    /// The underlying cache
    pub inner: InMemoryCache,
    /// Default TTL for cache entries, in nanoseconds
    pub default_ttl: u64,
}

impl TtlCache {
    /// Well-formedness of the underlying store.
    pub open spec fn wf(self) -> bool {
        self.inner.wf()
    }

    /// Create a new TTL cache with the specified TTL in nanoseconds and an
    /// optional maximum size.
    pub fn new(default_ttl: u64, max_size: Option<usize>) -> (r: Self)
        requires
            max_size matches Some(m) ==> m >= 1,
        ensures
            r.wf(),
            r.inner.spec_entries() == Seq::<(Seq<char>, CacheEntryView)>::empty(),
            r.inner.max_size == max_size,
            r.inner.stats == CacheStats::spec_zero(),
            r.default_ttl == default_ttl,
    {
        TtlCache { inner: InMemoryCache::with_max_size(max_size), default_ttl }
    }

    /// Get the default TTL, in nanoseconds.
    pub fn default_ttl(&self) -> (r: u64)
        ensures
            r == self.default_ttl,
    {
        self.default_ttl
    }

    /// Get cache statistics.
    pub fn stats(&self) -> (r: CacheStats)
        ensures
            r == (CacheStats {
                current_size: self.inner.spec_entries().len() as usize,
                ..self.inner.stats
            }),
    {
        self.inner.stats()
    }

    /// Check if an entry has expired.
    fn is_expired(entry: &CacheEntry, ttl: u64, now_nanos: u64) -> (r: bool)
        ensures
            r == spec_expired(entry.created_at, ttl, now_nanos),
    {
        now_nanos.saturating_sub(entry.created_at) > ttl
    }

    /// Look up a fingerprint at an explicit time, in nanoseconds.
    ///
    /// An entry older than the time-to-live is evicted and reported as a
    /// miss; a live entry is refreshed and its data comes back, as in the
    /// base store.
    pub fn lookup_at(&mut self, prompt: &str, llm_string: &str, now_nanos: u64)
        -> (r: Option<CachedGenerations>)
        requires
            old(self).wf(),
        ensures
            final(self).wf(),
            final(self).default_ttl == old(self).default_ttl,
            final(self).inner.max_size == old(self).inner.max_size,
            ({
                let k = spec_cache_key(prompt@, llm_string@);
                let s = old(self).inner.spec_entries();
                if has_key(s, k) {
                    let i = key_index(s, k);
                    if spec_expired(s[i].1.created_at, old(self).default_ttl, now_nanos) {
                        &&& r is None
                        &&& final(self).inner.spec_entries() == s.remove(i)
                        &&& final(self).inner.stats == (CacheStats {
                                misses: old(self).inner.stats.misses.saturating_add(1),
                                ..old(self).inner.stats
                            })
                    } else {
                        &&& r matches Some(d) && d.deep_view() == s[i].1.data
                        &&& final(self).inner.spec_entries() == spec_cache_touch(s, k, now_nanos)
                        &&& final(self).inner.stats == (CacheStats {
                                hits: old(self).inner.stats.hits.saturating_add(1),
                                ..old(self).inner.stats
                            })
                    }
                } else {
                    &&& r is None
                    &&& final(self).inner.spec_entries() == s
                    &&& final(self).inner.stats == (CacheStats {
                            misses: old(self).inner.stats.misses.saturating_add(1),
                            ..old(self).inner.stats
                        })
                }
            }),
    {
        let key = InMemoryCache::generate_key(prompt, llm_string);
        let ghost s = self.inner.spec_entries();
        let ghost k = spec_cache_key(prompt@, llm_string@);
        match self.inner.find_index(&key) {
            Some(i) => {
                proof {
                    assert(has_key(s, k));
                    assert(s[key_index(s, k)].0 == k);
                    assert(key_index(s, k) == i as int);
                }
                if Self::is_expired(&self.inner.entries[i].1, self.default_ttl, now_nanos) {
                    // Entry has expired, remove it
                    self.inner.entries.remove(i);
                    self.inner.stats.misses = self.inner.stats.misses.saturating_add(1);
                    proof {
                        assert(self.inner.spec_entries() =~= s.remove(i as int));
                        s.remove_ensures(i as int);
                        assert(unique_keys(self.inner.spec_entries()));
                    }
                    None
                } else {
                    // Entry is still valid, update access info
                    let (k0, mut e) = self.inner.entries.remove(i);
                    e.last_accessed = now_nanos;
                    e.access_count = e.access_count.saturating_add(1);
                    let data = duplicate_generations(&e.data);
                    self.inner.entries.insert(i, (k0, e));
                    self.inner.stats.hits = self.inner.stats.hits.saturating_add(1);
                    proof {
                        assert(self.inner.spec_entries() =~= spec_cache_touch(s, k, now_nanos));
                    }
                    Some(data)
                }
            },
            None => {
                self.inner.stats.misses = self.inner.stats.misses.saturating_add(1);
                None
            },
        }
    }

    /// Look up a fingerprint at the present moment.
    ///
    /// Whether a present entry counts as expired depends on the clock
    /// reading, so for a held fingerprint exactly one of two outcomes holds:
    /// the entry was expired, left the store and the lookup missed, or the
    /// entry was refreshed and its data came back.
    pub fn lookup(&mut self, prompt: &str, llm_string: &str) -> (r: Option<CachedGenerations>)
        requires
            old(self).wf(),
        ensures
            final(self).wf(),
            final(self).default_ttl == old(self).default_ttl,
            final(self).inner.max_size == old(self).inner.max_size,
            ({
                let k = spec_cache_key(prompt@, llm_string@);
                let s = old(self).inner.spec_entries();
                if has_key(s, k) {
                    ({
                        &&& r is None
                        &&& final(self).inner.spec_entries() == s.remove(key_index(s, k))
                        &&& final(self).inner.stats == (CacheStats {
                                misses: old(self).inner.stats.misses.saturating_add(1),
                                ..old(self).inner.stats
                            })
                    }) || ({
                        &&& r matches Some(d) && d.deep_view() == s[key_index(s, k)].1.data
                        &&& exists|t: u64| final(self).inner.spec_entries()
                                == spec_cache_touch(s, k, t)
                        &&& final(self).inner.stats == (CacheStats {
                                hits: old(self).inner.stats.hits.saturating_add(1),
                                ..old(self).inner.stats
                            })
                    })
                } else {
                    &&& r is None
                    &&& final(self).inner.spec_entries() == s
                    &&& final(self).inner.stats == (CacheStats {
                            misses: old(self).inner.stats.misses.saturating_add(1),
                            ..old(self).inner.stats
                        })
                }
            }),
    {
        let now = crate::clock::now_nanos();
        let ghost s = self.inner.spec_entries();
        let ghost k = spec_cache_key(prompt@, llm_string@);
        let r = self.lookup_at(prompt, llm_string, now);
        proof {
            if has_key(s, k)
                && !spec_expired(s[key_index(s, k)].1.created_at, old(self).default_ttl, now) {
                assert(self.inner.spec_entries() == spec_cache_touch(s, k, now));
            }
        }
        r
    }

    /// Insert or replace the entry for a fingerprint, at an explicit time
    /// in nanoseconds. Same behaviour as the base store's update.
    pub fn update_at(
        &mut self,
        prompt: &str,
        llm_string: &str,
        return_val: CachedGenerations,
        now_nanos: u64,
    )
        requires
            old(self).wf(),
        ensures
            final(self).wf(),
            final(self).default_ttl == old(self).default_ttl,
            final(self).inner.max_size == old(self).inner.max_size,
            final(self).inner.stats == (CacheStats {
                updates: old(self).inner.stats.updates.saturating_add(1),
                max_size_reached: if final(self).inner.spec_entries().len()
                        > old(self).inner.stats.max_size_reached {
                    final(self).inner.spec_entries().len() as usize
                } else {
                    old(self).inner.stats.max_size_reached
                },
                ..old(self).inner.stats
            }),
            final(self).inner.spec_entries() == spec_cache_insert(
                old(self).inner.spec_entries(),
                old(self).inner.max_size,
                spec_cache_key(prompt@, llm_string@),
                return_val.deep_view(),
                now_nanos,
            ),
    {
        self.inner.update_at(prompt, llm_string, return_val, now_nanos)
    }

    /// Insert or replace the entry for a fingerprint at the present moment.
    pub fn update(&mut self, prompt: &str, llm_string: &str, return_val: CachedGenerations)
        requires
            old(self).wf(),
        ensures
            final(self).wf(),
            final(self).default_ttl == old(self).default_ttl,
            final(self).inner.max_size == old(self).inner.max_size,
            final(self).inner.stats == (CacheStats {
                updates: old(self).inner.stats.updates.saturating_add(1),
                max_size_reached: if final(self).inner.spec_entries().len()
                        > old(self).inner.stats.max_size_reached {
                    final(self).inner.spec_entries().len() as usize
                } else {
                    old(self).inner.stats.max_size_reached
                },
                ..old(self).inner.stats
            }),
            exists|t: u64| final(self).inner.spec_entries() == spec_cache_insert(
                old(self).inner.spec_entries(),
                old(self).inner.max_size,
                spec_cache_key(prompt@, llm_string@),
                return_val.deep_view(),
                t,
            ),
    {
        self.inner.update(prompt, llm_string, return_val)
    }

    /// Empty all entries; the clear counter goes up by one.
    pub fn clear(&mut self)
        requires
            old(self).wf(),
        ensures
            final(self).wf(),
            final(self).default_ttl == old(self).default_ttl,
            final(self).inner.spec_entries()
                == Seq::<(Seq<char>, CacheEntryView)>::empty(),
            final(self).inner.max_size == old(self).inner.max_size,
            final(self).inner.stats == (CacheStats {
                clears: old(self).inner.stats.clears.saturating_add(1),
                ..old(self).inner.stats
            }),
    {
        self.inner.clear()
    }
}

} // verus!
