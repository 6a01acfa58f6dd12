//! The bounded analysis cache: an LRU store from transaction ids to fraud
//! analyses, with hit and miss counters.
//!
//! The store itself is `lru::LruCache`; its behaviour enters the proofs only
//! through the trusted contracts below, which model the cache as a finite
//! map from keys to analyses together with its capacity.

use vstd::prelude::*;

use crate::fraud::FraudAnalysis;

use std::collections::hash_map::RandomState;

verus! {

/// The LRU cache type of the `lru` crate, declared so that it can stand in
/// fields and signatures. Verus sees nothing inside a value of it.
#[verifier::external_type_specification]
#[verifier::external_body]
#[verifier::reject_recursive_types(K)]
#[verifier::reject_recursive_types(V)]
#[verifier::reject_recursive_types(S)]
pub struct ExLruCache<K, V, S>(lru::LruCache<K, V, S>);

/// No entries at all: what a fresh cache holds.
pub open spec fn no_entries() -> Map<Seq<char>, FraudAnalysis> {
    Map::empty()
}

/// What an analysis cache holds: the map from each cached key to its value.
pub uninterp spec fn cache_entries(
    c: lru::LruCache<String, FraudAnalysis, RandomState>,
) -> Map<Seq<char>, FraudAnalysis>;

/// The capacity the cache was created with.
pub uninterp spec fn cache_capacity(c: lru::LruCache<String, FraudAnalysis, RandomState>) -> nat;

/// Relies on `lru::LruCache::with_hasher`: a fresh cache is empty and keeps
/// the capacity it was given.
#[verifier::external_body]
fn lru_new(cap: usize) -> (r: lru::LruCache<String, FraudAnalysis, RandomState>)
    requires
        cap >= 1,
    ensures
        cache_entries(r) == no_entries(),
        cache_entries(r).dom().finite(),
        cache_capacity(r) == cap,
{
    lru::LruCache::with_hasher(core::num::NonZeroUsize::new(cap).unwrap(), RandomState::new())
}

/// Relies on `lru::LruCache::get`: returns the cached value for the key, if
/// any, touching only recency, never the contents or the capacity.
#[verifier::external_body]
fn lru_get(c: &mut lru::LruCache<String, FraudAnalysis, RandomState>, key: &str) -> (r: Option<FraudAnalysis>)
    ensures
        cache_entries(*final(c)) == cache_entries(*old(c)),
        cache_capacity(*final(c)) == cache_capacity(*old(c)),
        r is Some <==> cache_entries(*old(c)).contains_key(key@),
        r matches Some(v) ==> cache_entries(*old(c))[key@] == v,
{
    c.get(key).cloned()
}

/// Relies on `lru::LruCache::peek`: returns the cached value for the key,
/// if any, touching nothing, not even recency.
#[verifier::external_body]
fn lru_peek(c: &lru::LruCache<String, FraudAnalysis, RandomState>, key: &str) -> (r: Option<
    FraudAnalysis,
>)
    ensures
        r is Some <==> cache_entries(*c).contains_key(key@),
        r matches Some(v) ==> cache_entries(*c)[key@] == v,
{
    c.peek(key).cloned()
}

/// Relies on `lru::LruCache::put`: a present key has its value replaced, the
/// old value returned, and nothing evicted; an absent key is inserted, and
/// when the cache is full some other key leaves to make room.
#[verifier::external_body]
fn lru_put(
    c: &mut lru::LruCache<String, FraudAnalysis, RandomState>,
    key: String,
    value: FraudAnalysis,
) -> (r: Option<FraudAnalysis>)
    ensures
        cache_capacity(*final(c)) == cache_capacity(*old(c)),
        cache_entries(*final(c)).dom().finite() == cache_entries(*old(c)).dom().finite(),
        cache_entries(*old(c)).contains_key(key@) ==> {
            &&& r == Some(cache_entries(*old(c))[key@])
            &&& cache_entries(*final(c)) == cache_entries(*old(c)).insert(key@, value)
        },
        !cache_entries(*old(c)).contains_key(key@) ==> {
            &&& r is None
            &&& if cache_entries(*old(c)).len() < cache_capacity(*old(c)) {
                cache_entries(*final(c)) == cache_entries(*old(c)).insert(key@, value)
            } else {
                exists|evicted: Seq<char>|
                    cache_entries(*old(c)).contains_key(evicted) && evicted != key@
                        && cache_entries(*final(c)) == cache_entries(*old(c)).remove(
                        evicted,
                    ).insert(key@, value)
            }
        },
{
    c.put(key, value)
}

/// Relies on `lru::LruCache::len`: how many entries the cache holds.
#[verifier::external_body]
fn lru_len(c: &lru::LruCache<String, FraudAnalysis, RandomState>) -> (r: usize)
    ensures
        r == cache_entries(*c).len(),
{
    c.len()
}

/// The bounded cache of fraud analyses, keyed by transaction id, with hit
/// and miss counters.
pub struct AnalysisCache {
    inner: lru::LruCache<String, FraudAnalysis, RandomState>,
    hits: u64,
    misses: u64,
}

impl AnalysisCache {
    /// The cached entries, as a map.
    pub closed spec fn entries(&self) -> Map<Seq<char>, FraudAnalysis> {
        cache_entries(self.inner)
    }

    /// The fixed capacity.
    pub closed spec fn capacity(&self) -> nat {
        cache_capacity(self.inner)
    }

    /// How many lookups hit.
    pub closed spec fn hits_spec(&self) -> u64 {
        self.hits
    }

    /// How many lookups missed.
    pub closed spec fn misses_spec(&self) -> u64 {
        self.misses
    }

    /// The cache never outgrows its capacity, which is at least one.
    pub closed spec fn wf(&self) -> bool {
        &&& self.entries().dom().finite()
        &&& self.entries().len() <= self.capacity()
        &&& self.capacity() >= 1
    }

    /// An empty cache of the given capacity.
    pub fn new(capacity: usize) -> (r: AnalysisCache)
        requires
            capacity >= 1,
        ensures
            r.wf(),
            r.entries() =~= Map::<Seq<char>, FraudAnalysis>::empty(),
            r.capacity() == capacity,
            r.hits_spec() == 0,
            r.misses_spec() == 0,
    {
        AnalysisCache { inner: lru_new(capacity), hits: 0, misses: 0 }
    }

    /// Looks a transaction id up: a hit returns the cached analysis
    /// unchanged and counts one hit, a miss counts one miss; the contents
    /// are never changed.
    pub fn lookup(&mut self, key: &str) -> (r: Option<FraudAnalysis>)
        requires
            old(self).wf(),
        ensures
            final(self).wf(),
            final(self).entries() == old(self).entries(),
            final(self).capacity() == old(self).capacity(),
            r is Some <==> old(self).entries().contains_key(key@),
            r matches Some(v) ==> old(self).entries()[key@] == v,
            r is Some ==> final(self).hits_spec() as int == vstd::math::min(
                old(self).hits_spec() + 1,
                u64::MAX as int,
            ) && final(self).misses_spec() == old(self).misses_spec(),
            r is None ==> final(self).misses_spec() as int == vstd::math::min(
                old(self).misses_spec() + 1,
                u64::MAX as int,
            ) && final(self).hits_spec() == old(self).hits_spec(),
    {
        let r = lru_get(&mut self.inner, key);
        if r.is_some() {
            self.hits = if self.hits < u64::MAX {
                self.hits + 1
            } else {
                self.hits
            };
        } else {
            self.misses = if self.misses < u64::MAX {
                self.misses + 1
            } else {
                self.misses
            };
        }
        r
    }

    /// Stores an analysis under a transaction id. Afterwards the key maps to
    /// exactly this value; every other cached pair was already cached, and at
    /// most one of them left to make room.
    pub fn store(&mut self, key: String, value: FraudAnalysis)
        requires
            old(self).wf(),
        ensures
            final(self).wf(),
            final(self).capacity() == old(self).capacity(),
            final(self).hits_spec() == old(self).hits_spec(),
            final(self).misses_spec() == old(self).misses_spec(),
            final(self).entries().contains_key(key@),
            final(self).entries()[key@] == value,
            (old(self).entries().contains_key(key@) || old(self).entries().len() < old(self).capacity())
                ==> final(self).entries() == old(self).entries().insert(key@, value),
            (!old(self).entries().contains_key(key@) && old(self).entries().len() == old(self).capacity())
                ==> exists|evicted: Seq<char>|
                old(self).entries().contains_key(evicted) && evicted != key@
                    && final(self).entries() == old(self).entries().remove(evicted).insert(
                    key@,
                    value,
                ),
    {
        let ghost pre = cache_entries(self.inner);
        lru_put(&mut self.inner, key, value);
        proof {
            let post = cache_entries(self.inner);
            if pre.contains_key(key@) {
                assert(post.dom() =~= pre.dom().insert(key@));
                assert(pre.dom().insert(key@) =~= pre.dom());
            } else if pre.len() < cache_capacity(self.inner) {
                assert(post.dom() =~= pre.dom().insert(key@));
                vstd::set_lib::lemma_len_union::<Seq<char>>(pre.dom(), set![key@]);
            } else {
                let evicted = choose|evicted: Seq<char>|
                    pre.contains_key(evicted) && evicted != key@ && post == pre.remove(
                        evicted,
                    ).insert(key@, value);
                pre.lemma_remove_key_len(evicted);
                assert(post.dom() =~= pre.remove(evicted).dom().insert(key@));
                vstd::set_lib::lemma_len_union::<Seq<char>>(pre.remove(evicted).dom(), set![key@]);
            }
        }
    }

    /// Reads the cached analysis for a transaction id without touching the
    /// counters or the eviction order.
    pub fn peek(&self, key: &str) -> (r: Option<FraudAnalysis>)
        ensures
            r is Some <==> self.entries().contains_key(key@),
            r matches Some(v) ==> self.entries()[key@] == v,
    {
        lru_peek(&self.inner, key)
    }

    /// How many analyses are cached.
    pub fn len(&self) -> (r: usize)
        ensures
            r == self.entries().len(),
    {
        lru_len(&self.inner)
    }

    /// The hit counter.
    pub fn hit_count(&self) -> (r: u64)
        ensures
            r == self.hits_spec(),
    {
        self.hits
    }

    /// The miss counter.
    pub fn miss_count(&self) -> (r: u64)
        ensures
            r == self.misses_spec(),
    {
        self.misses
    }
}

} // verus!
