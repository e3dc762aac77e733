//! Counters written on the request path and read by the periodic tasks.

use vstd::prelude::*;

verus! {

/// Seconds a periodic task waits before its first run.
pub const INITIAL_DELAY_SECS: u64 = 60;

/// Seconds between two runs of a periodic task.
pub const TICK_SECS: u64 = 60;

/// Minutes of history the recent-lyrics figure covers.
pub const RECENT_WINDOW_MINS: u64 = 10;

/// Latency in milliseconds above which a response is reported as slow.
pub const SLOW_RESPONSE_MILLIS: u128 = 500;

/// Counts the requests seen since the last report.
#[derive(Debug)]
pub struct RequestCounter {
    count: usize,
}

impl View for RequestCounter {
    type V = nat;

    /// Requests counted since the last report.
    closed spec fn view(&self) -> nat {
        self.count as nat
    }
}

/// The count after one more request: one higher, wrapping to zero past the
/// largest value the counter holds.
pub open spec fn after_request(count: nat) -> nat {
    if count >= usize::MAX {
        0
    } else {
        count + 1
    }
}

/// The count after `n` more requests.
pub open spec fn after_requests(count: nat, n: nat) -> nat
    decreases n,
{
    if n == 0 {
        count
    } else {
        after_request(after_requests(count, (n - 1) as nat))
    }
}

impl RequestCounter {
    /// A counter at zero.
    pub fn new() -> (c: Self)
        ensures
            c@ == 0,
    {
        RequestCounter { count: 0 }
    }

    /// Counts one request.
    pub fn record(&mut self)
        ensures
            final(self)@ == after_request(old(self)@),
    {
        self.count = if self.count == usize::MAX {
            0
        } else {
            self.count + 1
        };
    }

    /// The count so far, left in place.
    pub fn current(&self) -> (n: usize)
        ensures
            n == self@,
    {
        self.count
    }

    /// Hands out the count and resets it to zero in one step, so no request
    /// is both reported and kept.
    pub fn take(&mut self) -> (reported: usize)
        ensures
            reported == old(self)@,
            final(self)@ == 0,
    {
        let reported: usize = self.count;
        self.count = 0;
        reported
    }
}

/// The number of lyrics records created in the recent window, as last
/// measured.
#[derive(Debug)]
pub struct RecentLyricsCount {
    count: usize,
}

impl View for RecentLyricsCount {
    type V = nat;

    closed spec fn view(&self) -> nat {
        self.count as nat
    }
}

impl RecentLyricsCount {
    /// Zero, before the first measurement.
    pub fn new() -> (c: Self)
        ensures
            c@ == 0,
    {
        RecentLyricsCount { count: 0 }
    }

    /// Replaces the figure with a new measurement.
    pub fn store(&mut self, count: usize)
        ensures
            final(self)@ == count,
    {
        self.count = count;
    }

    /// The last measurement.
    pub fn load(&self) -> (n: usize)
        ensures
            n == self@,
    {
        self.count
    }
}

/// Whether a response that took `latency_millis` is reported as slow.
pub fn is_slow_response(latency_millis: u128) -> (slow: bool)
    ensures
        slow == (latency_millis > SLOW_RESPONSE_MILLIS),
{
    latency_millis > SLOW_RESPONSE_MILLIS
}

/// The client identity of a request: the first header that is present among
/// the three, or the empty string.
pub open spec fn spec_client_identity(
    lrclib_client: Option<Seq<char>>,
    x_user_agent: Option<Seq<char>>,
    user_agent: Option<Seq<char>>,
) -> Seq<char> {
    match (lrclib_client, x_user_agent, user_agent) {
        (Some(v), _, _) => v,
        (None, Some(v), _) => v,
        (None, None, Some(v)) => v,
        (None, None, None) => Seq::empty(),
    }
}

/// The view of an optional header value.
pub open spec fn header_view(value: Option<&str>) -> Option<Seq<char>> {
    match value {
        Some(v) => Some(v@),
        None => None,
    }
}

/// Picks the client identity from the readable values of the `Lrclib-Client`,
/// `X-User-Agent` and `User-Agent` headers, in that order of preference.
pub fn client_identity<'a>(
    lrclib_client: Option<&'a str>,
    x_user_agent: Option<&'a str>,
    user_agent: Option<&'a str>,
) -> (identity: &'a str)
    ensures
        identity@ == spec_client_identity(
            header_view(lrclib_client),
            header_view(x_user_agent),
            header_view(user_agent),
        ),
{
    proof {
        reveal_strlit("");
    }
    match lrclib_client {
        Some(v) => v,
        None => match x_user_agent {
            Some(v) => v,
            None => match user_agent {
                Some(v) => v,
                None => {
                    let empty: &'a str = "";
                    assert(empty@ =~= Seq::<char>::empty());
                    empty
                },
            },
        },
    }
}

/// Counting `n` requests from zero and then taking the count reports exactly
/// `n`, as long as the counter has not wrapped.
pub proof fn count_reflects_requests(n: nat)
    requires
        n <= usize::MAX,
    ensures
        after_requests(0, n) == n,
    decreases n,
{
    if n > 0 {
        count_reflects_requests((n - 1) as nat);
    }
}

} // verus!
