//! The store of trust decisions: a concurrent, capacity- and time-bounded
//! cache from credential token to validity, kept in a `moka` cache.

use vstd::prelude::*;
use moka::sync::Cache;
use std::time::Duration;

verus! {

#[verifier::external_type_specification]
#[verifier::external_body]
#[verifier::reject_recursive_types(K)]
#[verifier::reject_recursive_types(V)]
#[verifier::reject_recursive_types(S)]
pub struct ExMokaCache<K, V, S>(Cache<K, V, S>);

/// The decisions a moka cache may hand back: each key inserted into it, with
/// its latest value, since the cache was built. The cache itself may
/// drop any of them at any time (expiry after its time to live, eviction at
/// capacity), so a lookup returns one of these entries or nothing.
pub uninterp spec fn decisions_of(c: Cache<String, bool>) -> Map<Seq<char>, bool>;

/// The longest time to live that moka's builder accepts (1000 years).
pub const MAX_TTL_SECS: u64 = 31_536_000_000;

/// Relies on moka's `CacheBuilder::{max_capacity, time_to_live, build}`: a new,
/// empty cache; `build` panics on a time to live over 1000 years.
#[verifier::external_body]
fn build_cache(capacity: u64, ttl_secs: u64) -> (r: Cache<String, bool>)
    requires
        ttl_secs <= MAX_TTL_SECS,
    ensures
        decisions_of(r).is_empty(),
{
    Cache::builder().max_capacity(capacity).time_to_live(Duration::from_secs(ttl_secs)).build()
}

/// Relies on moka's `Cache::get`: it returns a clone of the value last inserted
/// for the key, or nothing once the entry has expired or been evicted.
#[verifier::external_body]
fn cache_get(c: &Cache<String, bool>, token: &str) -> (r: Option<bool>)
    ensures
        r matches Some(v) ==> decisions_of(*c).contains_key(token@) && decisions_of(*c)[token@]
            == v,
{
    c.get(token)
}

/// Relies on moka's `Cache::contains_key`: true only for a key whose value was
/// inserted and is still held.
#[verifier::external_body]
fn cache_contains(c: &Cache<String, bool>, token: &str) -> (r: bool)
    ensures
        r ==> decisions_of(*c).contains_key(token@),
{
    c.contains_key(token)
}

/// Relies on moka's `Cache::insert`: the key's value becomes `v`. Its one
/// `expect` fires only if the cache's own internal channel is gone.
#[verifier::external_body]
fn cache_insert(c: &mut Cache<String, bool>, token: String, v: bool)
    ensures
        decisions_of(*final(c)) == decisions_of(*old(c)).insert(token@, v),
{
    c.insert(token, v)
}

/// Relies on moka's `Cache::run_pending_tasks`: maintenance (expiry and
/// eviction) only removes entries, it inserts none.
#[verifier::external_body]
fn cache_run_pending_tasks(c: &Cache<String, bool>) {
    c.run_pending_tasks()
}

/// Relies on moka's `Cache::entry_count`: an estimate of the number of entries
/// held, exact after pending maintenance has run.
#[verifier::external_body]
fn cache_entry_count(c: &Cache<String, bool>) -> u64 {
    c.entry_count()
}

/// A cache of positive trust decisions. Entries expire a fixed time after
/// insertion and are evicted, least valuable first, once the configured
/// capacity is reached. The store is safe to read and write concurrently.
pub struct TrustCache {
    inner: Cache<String, bool>,
    capacity: u64,
    ttl_secs: u64,
}

impl View for TrustCache {
    type V = Map<Seq<char>, bool>;

    /// The decisions a lookup may still return.
    closed spec fn view(&self) -> Map<Seq<char>, bool> {
        decisions_of(self.inner)
    }
}

impl TrustCache {
    /// The capacity this cache was built with.
    pub closed spec fn capacity_spec(&self) -> u64 {
        self.capacity
    }

    /// The time to live, in seconds, this cache was built with.
    pub closed spec fn ttl_spec(&self) -> u64 {
        self.ttl_secs
    }

    /// An empty cache holding at most `capacity` entries, each for `ttl_secs`
    /// seconds after insertion.
    pub fn new(capacity: u64, ttl_secs: u64) -> (r: TrustCache)
        requires
            ttl_secs <= MAX_TTL_SECS,
        ensures
            r@ == Map::<Seq<char>, bool>::empty(),
            r.capacity_spec() == capacity,
            r.ttl_spec() == ttl_secs,
    {
        TrustCache { inner: build_cache(capacity, ttl_secs), capacity, ttl_secs }
    }

    /// The capacity this cache was built with.
    pub fn capacity(&self) -> (r: u64)
        ensures
            r == self.capacity_spec(),
    {
        self.capacity
    }

    /// The time to live, in seconds, this cache was built with.
    pub fn ttl_secs(&self) -> (r: u64)
        ensures
            r == self.ttl_spec(),
    {
        self.ttl_secs
    }

    /// The cached decision for `token`, or `None` on a miss (never inserted,
    /// expired or evicted).
    pub fn get(&self, token: &str) -> (r: Option<bool>)
        ensures
            r matches Some(v) ==> self@.contains_key(token@) && self@[token@] == v,
    {
        cache_get(&self.inner, token)
    }

    /// Whether a decision for `token` is currently held.
    pub fn contains(&self, token: &str) -> (r: bool)
        ensures
            r ==> self@.contains_key(token@),
    {
        cache_contains(&self.inner, token)
    }

    /// Records that `token` was found valid.
    pub fn put(&mut self, token: String)
        ensures
            final(self)@ == old(self)@.insert(token@, true),
            final(self).capacity_spec() == old(self).capacity_spec(),
            final(self).ttl_spec() == old(self).ttl_spec(),
    {
        cache_insert(&mut self.inner, token, true);
    }

    /// The number of entries held, after pending expiry and eviction have run.
    pub fn entry_count(&self) -> u64 {
        cache_run_pending_tasks(&self.inner);
        cache_entry_count(&self.inner)
    }
}

} // verus!
