//! The aggregate every request handler and background task works on.

use crate::cache::{no_writes, payload_view, read_allowed, CacheTier};
use crate::metrics::{after_request, RecentLyricsCount, RequestCounter};
use crate::policy::{tier_policy, Tier};
use crate::queue::{
    after_dequeue, after_enqueue, dequeued, MissingTrack, MissingTrackQueue, TrackModel,
    QUEUE_CAPACITY,
};
use vstd::prelude::*;

verus! {

/// The long-lived shared state: three cache tiers, the queue of missing
/// tracks and the two counters. Built once at startup, never replaced.
pub struct AppState {
    challenge_cache: CacheTier,
    get_cache: CacheTier,
    search_cache: CacheTier,
    queue: MissingTrackQueue,
    request_counter: RequestCounter,
    recent_lyrics_count: RecentLyricsCount,
}

impl AppState {
    /// The cache of `tier`.
    pub closed spec fn tier(&self, tier: Tier) -> CacheTier {
        match tier {
            Tier::Challenge => self.challenge_cache,
            Tier::Get => self.get_cache,
            Tier::Search => self.search_cache,
        }
    }

    /// The missing tracks that wait, oldest first.
    pub closed spec fn queued(&self) -> Seq<TrackModel> {
        self.queue@
    }

    /// Requests counted since the last report.
    pub closed spec fn requests(&self) -> nat {
        self.request_counter@
    }

    /// The recent-lyrics figure as last stored.
    pub closed spec fn recent_lyrics(&self) -> nat {
        self.recent_lyrics_count@
    }

    /// Each tier has the policy of its name, and the queue has the service's
    /// capacity and is within it.
    pub closed spec fn wf(&self) -> bool {
        &&& self.challenge_cache.policy() == tier_policy(Tier::Challenge)
        &&& self.get_cache.policy() == tier_policy(Tier::Get)
        &&& self.search_cache.policy() == tier_policy(Tier::Search)
        &&& self.queue.wf()
        &&& self.queue.spec_capacity() == QUEUE_CAPACITY
    }

    /// The state at startup: caches and queue empty, counters at zero.
    pub fn new() -> (s: Self)
        ensures
            s.wf(),
            forall|t: Tier| #[trigger] s.tier(t).written() == no_writes(),
            forall|t: Tier| #[trigger] s.tier(t).policy() == tier_policy(t),
            s.queued().len() == 0,
            s.requests() == 0,
            s.recent_lyrics() == 0,
    {
        AppState {
            challenge_cache: CacheTier::new(Tier::Challenge),
            get_cache: CacheTier::new(Tier::Get),
            search_cache: CacheTier::new(Tier::Search),
            queue: MissingTrackQueue::new(),
            request_counter: RequestCounter::new(),
            recent_lyrics_count: RecentLyricsCount::new(),
        }
    }

    /// A well-formed state keeps the queue within the service's capacity and
    /// every tier on the policy of its name.
    pub proof fn wf_bounds(&self)
        requires
            self.wf(),
        ensures
            self.queued().len() <= QUEUE_CAPACITY,
            forall|t: Tier| #[trigger] self.tier(t).policy() == tier_policy(t),
    {
    }

    /// Looks `key` up in the cache of `tier`: a miss, or the payload last
    /// stored under `key` in that tier.
    pub fn cached(&self, tier: Tier, key: &str) -> (value: Option<String>)
        ensures
            read_allowed(self.tier(tier).written(), key@, payload_view(value)),
    {
        match tier {
            Tier::Challenge => self.challenge_cache.get(key),
            Tier::Get => self.get_cache.get(key),
            Tier::Search => self.search_cache.get(key),
        }
    }

    /// Stores `value` under `key` in the cache of `tier`. The other two
    /// tiers, the queue and the counters are untouched.
    pub fn remember(&mut self, tier: Tier, key: String, value: String)
        requires
            old(self).wf(),
        ensures
            final(self).wf(),
            final(self).tier(tier).written() == old(self).tier(tier).written().insert(key@, value@),
            forall|t: Tier| t != tier ==> #[trigger] final(self).tier(t) == old(self).tier(t),
            final(self).queued() == old(self).queued(),
            final(self).requests() == old(self).requests(),
            final(self).recent_lyrics() == old(self).recent_lyrics(),
    {
        match tier {
            Tier::Challenge => self.challenge_cache.set(key, value),
            Tier::Get => self.get_cache.set(key, value),
            Tier::Search => self.search_cache.set(key, value),
        }
    }

    /// The number of entries the cache of `tier` holds, after the evictions
    /// and expirations that were due. Nothing that was stored changes.
    pub fn entry_count(&mut self, tier: Tier) -> (n: u64)
        requires
            old(self).wf(),
        ensures
            final(self).wf(),
            n <= old(self).tier(tier).written().dom().len(),
            forall|t: Tier| #[trigger] final(self).tier(t).written() == old(self).tier(t).written(),
            final(self).queued() == old(self).queued(),
            final(self).requests() == old(self).requests(),
            final(self).recent_lyrics() == old(self).recent_lyrics(),
    {
        match tier {
            Tier::Challenge => self.challenge_cache.entry_count(),
            Tier::Get => self.get_cache.entry_count(),
            Tier::Search => self.search_cache.entry_count(),
        }
    }

    /// Counts one request.
    pub fn observe_request(&mut self)
        requires
            old(self).wf(),
        ensures
            final(self).wf(),
            final(self).requests() == after_request(old(self).requests()),
            final(self).recent_lyrics() == old(self).recent_lyrics(),
            final(self).queued() == old(self).queued(),
            forall|t: Tier| #[trigger] final(self).tier(t) == old(self).tier(t),
    {
        self.request_counter.record();
    }

    /// The number of requests counted since the last report, left in place.
    pub fn requests_so_far(&self) -> (n: usize)
        ensures
            n == self.requests(),
    {
        self.request_counter.current()
    }

    /// Hands out the number of requests counted since the last report and
    /// starts the next period at zero.
    pub fn report_requests(&mut self) -> (reported: usize)
        requires
            old(self).wf(),
        ensures
            final(self).wf(),
            reported == old(self).requests(),
            final(self).requests() == 0,
            final(self).recent_lyrics() == old(self).recent_lyrics(),
            final(self).queued() == old(self).queued(),
            forall|t: Tier| #[trigger] final(self).tier(t) == old(self).tier(t),
    {
        self.request_counter.take()
    }

    /// Replaces the recent-lyrics figure with a new measurement.
    pub fn store_recent_lyrics(&mut self, count: usize)
        requires
            old(self).wf(),
        ensures
            final(self).wf(),
            final(self).recent_lyrics() == count,
            final(self).requests() == old(self).requests(),
            final(self).queued() == old(self).queued(),
            forall|t: Tier| #[trigger] final(self).tier(t) == old(self).tier(t),
    {
        self.recent_lyrics_count.store(count);
    }

    /// The recent-lyrics figure as last stored.
    pub fn recent_lyrics_count(&self) -> (n: usize)
        ensures
            n == self.recent_lyrics(),
    {
        self.recent_lyrics_count.load()
    }

    /// Queues `track` for a later lookup, or drops it when the queue is full.
    /// Returns whether it was queued.
    pub fn defer_lookup(&mut self, track: MissingTrack) -> (queued: bool)
        requires
            old(self).wf(),
        ensures
            final(self).wf(),
            queued == (old(self).queued().len() < QUEUE_CAPACITY),
            final(self).queued() == after_enqueue(
                old(self).queued(),
                QUEUE_CAPACITY as nat,
                track@,
            ),
            final(self).requests() == old(self).requests(),
            final(self).recent_lyrics() == old(self).recent_lyrics(),
            forall|t: Tier| #[trigger] final(self).tier(t) == old(self).tier(t),
    {
        self.queue.enqueue(track)
    }

    /// Takes the oldest queued track for a worker, or `None` when the queue
    /// is empty.
    pub fn next_missing_track(&mut self) -> (track: Option<MissingTrack>)
        requires
            old(self).wf(),
        ensures
            final(self).wf(),
            final(self).queued() == after_dequeue(old(self).queued()),
            match track {
                Some(t) => dequeued(old(self).queued()) == Some(t@),
                None => dequeued(old(self).queued()) is None,
            },
            final(self).requests() == old(self).requests(),
            final(self).recent_lyrics() == old(self).recent_lyrics(),
            forall|t: Tier| #[trigger] final(self).tier(t) == old(self).tier(t),
    {
        self.queue.dequeue()
    }

    /// The number of missing tracks that wait.
    pub fn queue_len(&self) -> (n: usize)
        ensures
            n == self.queued().len(),
    {
        self.queue.len()
    }
}

} // verus!
