//! A cache tier: string keys to string payloads, with the expiry and size
//! policy of its tier. Storage, expiry and eviction are the work of
//! `moka::sync::Cache`; this module fixes what each tier is built with and
//! states what a read can return.

use crate::policy::{tier_policy, Tier, TierPolicy, MAX_EXPIRY_SECS};
use moka::policy::EvictionPolicy;
use moka::sync::Cache;
use std::hash::RandomState;
use std::time::Duration;
use vstd::prelude::*;

verus! {

/// `moka::sync::Cache`, taken as opaque: contracts speak of it through
/// `cache_written` and `cache_policy`.
#[verifier::external_type_specification]
#[verifier::external_body]
#[verifier::reject_recursive_types(K)]
#[verifier::reject_recursive_types(V)]
#[verifier::reject_recursive_types(S)]
pub struct ExCache<K, V, S>(Cache<K, V, S>);

/// For each key ever inserted into a cache, the value of its latest insert.
/// Expiry and eviction do not change it.
pub uninterp spec fn cache_written(c: Cache<String, String, RandomState>) -> Map<Seq<char>, Seq<char>>;

/// The writes of a cache that was never written to.
pub open spec fn no_writes() -> Map<Seq<char>, Seq<char>> {
    Map::empty()
}

/// The policy a cache was built with.
pub uninterp spec fn cache_policy(c: Cache<String, String, RandomState>) -> TierPolicy;

/// `Cache::builder`, `max_capacity`, `eviction_policy`, `time_to_live` and
/// `build`: an empty cache with that capacity and time-to-live, no
/// time-to-idle, and least-recently-used eviction. `build` panics on an expiry
/// above 1000 years, which is excluded.
#[verifier::external_body]
fn build_cache(capacity: u64, ttl_secs: u64) -> (c: Cache<String, String, RandomState>)
    requires
        ttl_secs <= MAX_EXPIRY_SECS,
    ensures
        cache_written(c) == no_writes(),
        cache_policy(c).capacity == capacity,
        cache_policy(c).ttl_secs == ttl_secs,
        cache_policy(c).tti_secs == None::<u64>,
{
    Cache::builder()
        .max_capacity(capacity)
        .eviction_policy(EvictionPolicy::lru())
        .time_to_live(Duration::from_secs(ttl_secs))
        .build()
}

/// As `build_cache`, with `time_to_idle` set as well.
#[verifier::external_body]
fn build_idle_cache(capacity: u64, ttl_secs: u64, tti_secs: u64) -> (c: Cache<String, String, RandomState>)
    requires
        ttl_secs <= MAX_EXPIRY_SECS,
        tti_secs <= MAX_EXPIRY_SECS,
    ensures
        cache_written(c) == no_writes(),
        cache_policy(c).capacity == capacity,
        cache_policy(c).ttl_secs == ttl_secs,
        cache_policy(c).tti_secs == Some(tti_secs),
{
    Cache::builder()
        .max_capacity(capacity)
        .eviction_policy(EvictionPolicy::lru())
        .time_to_live(Duration::from_secs(ttl_secs))
        .time_to_idle(Duration::from_secs(tti_secs))
        .build()
}

/// `Cache::get`: a clone of the value stored under `key`, or `None`. Whether
/// an entry is still there depends on the clock and on eviction, so all that
/// is claimed is that a value handed out is the latest one inserted under
/// that key.
#[verifier::external_body]
fn cache_get(c: &Cache<String, String, RandomState>, key: &str) -> (r: Option<String>)
    ensures
        r matches Some(v) ==> cache_written(*c).contains_key(key@) && v@ == cache_written(*c)[key@],
{
    c.get(key)
}

/// `Cache::insert` on a cache nobody else holds: `value` becomes the latest
/// value for `key`; other keys and the policy are untouched.
#[verifier::external_body]
fn cache_insert(c: &mut Cache<String, String, RandomState>, key: String, value: String)
    ensures
        cache_written(*final(c)) == cache_written(*old(c)).insert(key@, value@),
        cache_policy(*final(c)) == cache_policy(*old(c)),
{
    c.insert(key, value)
}

/// `Cache::run_pending_tasks`: carries out the evictions and expirations that
/// are due. What was written, and the policy, stay as they were.
#[verifier::external_body]
fn cache_run_pending_tasks(c: &mut Cache<String, String, RandomState>)
    ensures
        cache_written(*final(c)) == cache_written(*old(c)),
        cache_policy(*final(c)) == cache_policy(*old(c)),
{
    c.run_pending_tasks()
}

/// `Cache::entry_count`: the cache's own count of the entries it holds. The
/// count rises by one when an inserted key is admitted and falls by one when
/// an entry is evicted or expires, and it may lag behind. On a cache nobody
/// else holds, every counted entry stands under a key of its own that was
/// inserted, so the count is never above the number of distinct keys written.
/// How far below it is depends on the clock and on eviction.
#[verifier::external_body]
fn cache_entry_count(c: &Cache<String, String, RandomState>) -> (n: u64)
    ensures
        n <= cache_written(*c).dom().len(),
{
    c.entry_count()
}

/// What a read of `key` may return, given the latest writes: a miss, or the
/// value written last under that key. Never a value of another key or an
/// earlier write.
pub open spec fn read_allowed(
    written: Map<Seq<char>, Seq<char>>,
    key: Seq<char>,
    result: Option<Seq<char>>,
) -> bool {
    match result {
        Some(v) => written.contains_key(key) && written[key] == v,
        None => true,
    }
}

/// The view of an optional payload.
pub open spec fn payload_view(value: Option<String>) -> Option<Seq<char>> {
    match value {
        Some(v) => Some(v@),
        None => None,
    }
}

/// One cache tier.
pub struct CacheTier {
    inner: Cache<String, String, RandomState>,
}

impl CacheTier {
    /// The latest value written under each key, whether or not the entry has
    /// since expired or been evicted.
    pub closed spec fn written(&self) -> Map<Seq<char>, Seq<char>> {
        cache_written(self.inner)
    }

    /// The policy the tier was built with.
    pub closed spec fn policy(&self) -> TierPolicy {
        cache_policy(self.inner)
    }

    /// An empty cache with the policy of `tier`.
    pub fn new(tier: Tier) -> (c: Self)
        ensures
            c.written() == no_writes(),
            c.policy() == tier_policy(tier),
    {
        let policy = tier.policy();
        match policy.tti_secs {
            Some(tti_secs) => CacheTier {
                inner: build_idle_cache(policy.capacity, policy.ttl_secs, tti_secs),
            },
            None => CacheTier { inner: build_cache(policy.capacity, policy.ttl_secs) },
        }
    }

    /// An empty cache with the given policy, or `None` when one of its expiry
    /// times is longer than `MAX_EXPIRY_SECS`.
    pub fn with_policy(policy: TierPolicy) -> (c: Option<Self>)
        ensures
            c is Some <==> policy.buildable(),
            c matches Some(tier) ==> tier.written() == no_writes() && tier.policy() == policy,
    {
        if policy.ttl_secs > MAX_EXPIRY_SECS {
            return None;
        }
        match policy.tti_secs {
            Some(tti_secs) => {
                if tti_secs > MAX_EXPIRY_SECS {
                    None
                } else {
                    Some(
                        CacheTier {
                            inner: build_idle_cache(policy.capacity, policy.ttl_secs, tti_secs),
                        },
                    )
                }
            },
            None => Some(CacheTier { inner: build_cache(policy.capacity, policy.ttl_secs) }),
        }
    }

    /// The payload cached under `key`, or `None` on a miss. A hit is always
    /// the payload of the latest `set` for that key.
    pub fn get(&self, key: &str) -> (value: Option<String>)
        ensures
            read_allowed(self.written(), key@, payload_view(value)),
    {
        cache_get(&self.inner, key)
    }

    /// The number of entries held, after the evictions and expirations that
    /// were due have been carried out.
    pub fn entry_count(&mut self) -> (n: u64)
        ensures
            n <= old(self).written().dom().len(),
            final(self).written() == old(self).written(),
            final(self).policy() == old(self).policy(),
    {
        cache_run_pending_tasks(&mut self.inner);
        cache_entry_count(&self.inner)
    }

    /// Stores `value` under `key`, replacing what was there.
    pub fn set(&mut self, key: String, value: String)
        ensures
            final(self).written() == old(self).written().insert(key@, value@),
            final(self).policy() == old(self).policy(),
    {
        cache_insert(&mut self.inner, key, value)
    }
}

/// A read that follows a write of `value` under the same key is either a miss
/// or returns `value`, whatever was written under that or other keys before.
pub proof fn read_after_write(
    written: Map<Seq<char>, Seq<char>>,
    key: Seq<char>,
    value: Seq<char>,
    result: Option<Seq<char>>,
)
    requires
        read_allowed(written.insert(key, value), key, result),
    ensures
        result is None || result == Some(value),
{
}

/// A write under one key does not change what a read of another key may
/// return.
pub proof fn write_leaves_other_keys(
    written: Map<Seq<char>, Seq<char>>,
    key: Seq<char>,
    value: Seq<char>,
    other: Seq<char>,
    result: Option<Seq<char>>,
)
    requires
        other != key,
    ensures
        read_allowed(written.insert(key, value), other, result) == read_allowed(
            written,
            other,
            result,
        ),
{
}

} // verus!
