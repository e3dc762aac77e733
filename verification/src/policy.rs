//! Expiry and size policies of the three response caches.

use vstd::prelude::*;

verus! {

/// The three independently configured response caches.
#[derive(Clone, Copy, Debug, PartialEq, Eq, Structural)]
pub enum Tier {
    /// Anti-abuse challenges that were handed out.
    Challenge,
    /// Lyrics fetched by identifier or by metadata.
    Get,
    /// Search results.
    Search,
}

/// How long and how many entries a tier keeps. Fixed when the tier is built.
#[derive(Clone, Copy, Debug)]
pub struct TierPolicy {
    /// Seconds after its last write at which an entry expires.
    pub ttl_secs: u64,
    /// Seconds after its last read or write at which an entry expires, if the
    /// tier expires idle entries at all.
    pub tti_secs: Option<u64>,
    /// Number of entries the tier is sized for.
    pub capacity: u64,
}

/// Longest time-to-live or time-to-idle a tier can be built with: 1000 years.
pub const MAX_EXPIRY_SECS: u64 = 31536000000;

pub const CHALLENGE_TTL_SECS: u64 = 300;

pub const CHALLENGE_CAPACITY: u64 = 100000;

pub const GET_TTL_SECS: u64 = 604800;

pub const GET_CAPACITY: u64 = 5000000;

pub const SEARCH_TTL_SECS: u64 = 86400;

pub const SEARCH_TTI_SECS: u64 = 14400;

pub const SEARCH_CAPACITY: u64 = 400000;

/// The policy each tier is built with.
pub open spec fn tier_policy(tier: Tier) -> TierPolicy {
    match tier {
        Tier::Challenge => TierPolicy {
            ttl_secs: CHALLENGE_TTL_SECS,
            tti_secs: None,
            capacity: CHALLENGE_CAPACITY,
        },
        Tier::Get => TierPolicy { ttl_secs: GET_TTL_SECS, tti_secs: None, capacity: GET_CAPACITY },
        Tier::Search => TierPolicy {
            ttl_secs: SEARCH_TTL_SECS,
            tti_secs: Some(SEARCH_TTI_SECS),
            capacity: SEARCH_CAPACITY,
        },
    }
}

impl Tier {
    /// The policy this tier is built with.
    pub fn policy(self) -> (p: TierPolicy)
        ensures
            p == tier_policy(self),
            p.buildable(),
    {
        match self {
            Tier::Challenge => TierPolicy {
                ttl_secs: CHALLENGE_TTL_SECS,
                tti_secs: None,
                capacity: CHALLENGE_CAPACITY,
            },
            Tier::Get => TierPolicy {
                ttl_secs: GET_TTL_SECS,
                tti_secs: None,
                capacity: GET_CAPACITY,
            },
            Tier::Search => TierPolicy {
                ttl_secs: SEARCH_TTL_SECS,
                tti_secs: Some(SEARCH_TTI_SECS),
                capacity: SEARCH_CAPACITY,
            },
        }
    }
}

impl TierPolicy {
    /// Both expiry times are short enough for a cache to be built with them.
    pub open spec fn buildable(&self) -> bool {
        &&& self.ttl_secs <= MAX_EXPIRY_SECS
        &&& self.tti_secs matches Some(t) ==> t <= MAX_EXPIRY_SECS
    }

    /// Whether an entry is past its time at `now`: its age since the last
    /// write exceeds the time-to-live, or the tier expires idle entries and
    /// the time since the last access exceeds the time-to-idle.
    pub open spec fn spec_is_expired(&self, written_at: u64, accessed_at: u64, now: u64) -> bool {
        ||| now - written_at > self.ttl_secs
        ||| (self.tti_secs matches Some(t) && now - accessed_at > t)
    }

    /// Whether an entry last written at `written_at` and last read or written
    /// at `accessed_at` counts as absent at `now`. All three are seconds on
    /// one clock.
    pub fn is_expired(&self, written_at: u64, accessed_at: u64, now: u64) -> (expired: bool)
        ensures
            expired == self.spec_is_expired(written_at, accessed_at, now),
    {
        if now > written_at && now - written_at > self.ttl_secs {
            return true;
        }
        match self.tti_secs {
            Some(t) => now > accessed_at && now - accessed_at > t,
            None => false,
        }
    }
}

/// An entry that is read again before its idle time runs out, and is younger
/// than the time-to-live, is still served.
pub proof fn fresh_entry_is_live(policy: TierPolicy, written_at: u64, accessed_at: u64, now: u64)
    requires
        now - written_at <= policy.ttl_secs,
        policy.tti_secs matches Some(t) ==> now - accessed_at <= t,
    ensures
        !policy.spec_is_expired(written_at, accessed_at, now),
{
}

/// An entry left untouched for longer than the time-to-idle is expired however
/// young it is.
pub proof fn idle_entry_expires(policy: TierPolicy, written_at: u64, accessed_at: u64, now: u64)
    requires
        policy.tti_secs is Some,
        now - accessed_at > policy.tti_secs->Some_0,
    ensures
        policy.spec_is_expired(written_at, accessed_at, now),
{
}

} // verus!
