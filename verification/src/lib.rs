//! Shared-state core of a lyrics lookup service: the bounded queue of tracks
//! whose lyrics are missing, the request counters, the cache tiers and their
//! expiry policies, and the startup and shutdown sequence.

pub mod cache;
pub mod lifecycle;
pub mod metrics;
pub mod policy;
pub mod queue;
pub mod state;
