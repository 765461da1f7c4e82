//! When to fetch the provider's signing key set: on a stale cache, and never
//! twice at once. Concurrent callers that find a fetch under way wait for it.

use vstd::prelude::*;

verus! {

/// What a caller that needs fresh keys does.
#[derive(Debug, Clone, Copy, PartialEq, Eq, Structural)]
pub enum RefreshTicket {
    /// Fetch the key set, then report with `finish_refresh`.
    Fetch,
    /// A fetch is under way: wait for its result.
    Await,
}

/// The refresh state of the shared signing key cache.
#[derive(Debug, Clone, Copy, PartialEq, Eq, Structural)]
pub struct KeyRefreshGate {
    /// Whether a fetch is under way.
    pub in_flight: bool,
    /// Unix time of the last successful fetch, if any.
    pub last_fetch: Option<u64>,
    /// How many seconds a fetched key set stays fresh.
    pub ttl_secs: u64,
}

impl KeyRefreshGate {
    /// Whether the cached key set is due for a refresh at `now`: never
    /// fetched, or fetched `ttl_secs` or more seconds ago.
    pub open spec fn stale_at(self, now: u64) -> bool {
        match self.last_fetch {
            None => true,
            Some(t) => now >= t && now - t >= self.ttl_secs,
        }
    }

    /// The refresh state and ticket once a caller wants fresh keys.
    pub open spec fn begin_spec(self) -> (KeyRefreshGate, RefreshTicket) {
        if self.in_flight {
            (self, RefreshTicket::Await)
        } else {
            (KeyRefreshGate { in_flight: true, ..self }, RefreshTicket::Fetch)
        }
    }

    /// An empty cache, fresh for `ttl_secs` seconds after each fetch.
    pub fn new(ttl_secs: u64) -> (r: KeyRefreshGate)
        ensures
            r == (KeyRefreshGate { in_flight: false, last_fetch: None, ttl_secs }),
    {
        KeyRefreshGate { in_flight: false, last_fetch: None, ttl_secs }
    }

    /// Whether the cached key set is due for a refresh at `now`.
    pub fn is_stale(&self, now: u64) -> (r: bool)
        ensures
            r == self.stale_at(now),
    {
        match self.last_fetch {
            None => true,
            Some(t) => now >= t && now - t >= self.ttl_secs,
        }
    }

    /// Claims the refresh: the first caller gets `Fetch` and the state records
    /// the fetch; while it is under way every other caller gets `Await`.
    pub fn begin_refresh(&mut self) -> (r: RefreshTicket)
        ensures
            (*final(self), r) == old(self).begin_spec(),
    {
        if self.in_flight {
            RefreshTicket::Await
        } else {
            self.in_flight = true;
            RefreshTicket::Fetch
        }
    }

    /// Records the end of a fetch at `now`. A failed fetch leaves the time
    /// of the last good one, so the previous key set stays in use.
    pub fn finish_refresh(&mut self, now: u64, fetched: bool)
        ensures
            !final(self).in_flight,
            final(self).ttl_secs == old(self).ttl_secs,
            final(self).last_fetch == if fetched {
                Some(now)
            } else {
                old(self).last_fetch
            },
    {
        self.in_flight = false;
        if fetched {
            self.last_fetch = Some(now);
        }
    }
}

/// Number of fetches that `n` callers asking in a row start, from `g`.
pub open spec fn fetches_in_burst(g: KeyRefreshGate, n: nat) -> nat
    decreases n,
{
    if n == 0 {
        0
    } else {
        let (next, ticket) = g.begin_spec();
        (if ticket == RefreshTicket::Fetch {
            1nat
        } else {
            0nat
        }) + fetches_in_burst(next, (n - 1) as nat)
    }
}

proof fn burst_from_in_flight(g: KeyRefreshGate, n: nat)
    requires
        g.in_flight,
    ensures
        fetches_in_burst(g, n) == 0,
    decreases n,
{
    if n > 0 {
        burst_from_in_flight(g, (n - 1) as nat);
    }
}

/// However many callers ask for a refresh before a fetch finishes, at most
/// one of them fetches; none does while a fetch is already under way.
pub proof fn burst_fetches_at_most_once(g: KeyRefreshGate, n: nat)
    ensures
        fetches_in_burst(g, n) <= 1,
        g.in_flight ==> fetches_in_burst(g, n) == 0,
{
    if g.in_flight {
        burst_from_in_flight(g, n);
    } else if n > 0 {
        burst_from_in_flight(g.begin_spec().0, (n - 1) as nat);
    }
}

} // verus!
