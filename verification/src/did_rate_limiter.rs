//! Per-DID rate limiting for authenticated requests.
//!
//! The DID is known only once a request has been authenticated, so handlers ask this limiter
//! themselves, with the hash of the authenticated DID.

use crate::accounts::AccountType;
use crate::buckets::Buckets;
use crate::limiter::DidCells;
use vstd::prelude::*;

verus! {

/// Whether the per-DID limiter is consulted for a session.
///
/// Two kinds of session are exempt: the administrative tiers, whose short-lived messages must not
/// expire behind a throttle, and sessions with an empty DID hash, which carry no DID and would all
/// share one bucket.
pub fn per_did_rate_limit_applies(account_type: AccountType, did_hash: &str) -> (applies: bool)
    ensures
        applies == (!account_type.spec_is_admin() && did_hash@.len() > 0),
{
    !account_type.is_admin() && !did_hash.is_empty()
}

/// A rate limiter keyed by DID hash. A limiter that is disabled allows everything.
pub struct DidRateLimiter {
    limiter: Option<DidCells>,
}

impl DidRateLimiter {
    /// Whether rate limiting is on.
    pub closed spec fn enabled(&self) -> bool {
        self.limiter is Some
    }

    /// The buckets of the DIDs that are tracked.
    pub closed spec fn buckets(&self) -> Buckets<Seq<char>> {
        match self.limiter {
            Some(l) => crate::limiter::did_buckets(l),
            None => crate::buckets::fresh(0, 0),
        }
    }

    /// The number of requests that a DID may make at once.
    pub open spec fn burst(&self) -> nat {
        self.buckets().burst
    }

    /// The nanoseconds in which a DID earns another request.
    pub open spec fn interval(&self) -> nat {
        self.buckets().interval
    }

    /// A limiter for `per_second` requests per second and DID, with bursts of `burst`. Rate
    /// limiting is disabled where `per_second` is zero; a burst of zero counts as one.
    pub fn new(per_second: u32, burst: u32) -> (limiter: DidRateLimiter)
        ensures
            limiter.enabled() <==> per_second > 0,
            per_second == 0 ==> limiter.buckets() == crate::buckets::fresh::<Seq<char>>(0, 0),
            per_second > 0 ==> limiter.buckets() == crate::buckets::fresh::<Seq<char>>(
                if burst == 0 {
                    1
                } else {
                    burst as nat
                },
                crate::buckets::replenish_nanos(per_second as nat),
            ),
            per_second > 0 ==> crate::buckets::well_formed(limiter.buckets()),
    {
        if per_second == 0 {
            return DidRateLimiter { limiter: None };
        }
        let burst: u32 = if burst == 0 {
            1
        } else {
            burst
        };
        let limiter = DidRateLimiter { limiter: Some(DidCells::keyed(per_second, burst)) };
        assert(limiter.buckets().cells.dom() =~= limiter.buckets().full_at.dom());
        limiter
    }

    /// Whether a request of this DID is within its limit.
    ///
    /// Always so where rate limiting is disabled, and while the DID's burst lasts. After that it is
    /// so once a request's share of time has passed, and not before.
    pub fn check(&mut self, did_hash: &str) -> (allowed: bool)
        ensures
            !old(self).enabled() ==> allowed && *final(self) == *old(self),
            old(self).enabled() ==> crate::buckets::check_step(
                old(self).buckets(),
                final(self).buckets(),
                did_hash@,
                allowed,
            ),
            old(self).enabled() && crate::buckets::granted(old(self).buckets().cells, did_hash@)
                < old(self).burst() ==> allowed,
            final(self).enabled() == old(self).enabled(),
    {
        match &mut self.limiter {
            None => true,
            Some(limiter) => {
                let ghost before = crate::limiter::did_buckets(*limiter);
                let allowed = limiter.check_key(did_hash);
                proof {
                    if crate::buckets::granted(before.cells, did_hash@) < before.burst {
                        crate::buckets::law_burst_is_granted(
                            before,
                            crate::limiter::did_buckets(*limiter),
                            did_hash@,
                            allowed,
                        );
                    }
                }
                allowed
            },
        }
    }

    /// Forgets the DIDs whose limit has caught up.
    ///
    /// One bucket is kept per distinct DID hash, and anyone can bring new hashes; called from time
    /// to time, this keeps the number of buckets bounded. A bucket goes once it has been full for
    /// one interval; the others stay as they are. Does nothing where rate limiting is disabled.
    pub fn retain_recent(&mut self)
        ensures
            !old(self).enabled() ==> *final(self) == *old(self),
            old(self).enabled() ==> crate::buckets::reclaim_step(
                old(self).buckets(),
                final(self).buckets(),
            ),
            final(self).buckets().cells.submap_of(old(self).buckets().cells),
            final(self).enabled() == old(self).enabled(),
    {
        if let Some(limiter) = &mut self.limiter {
            limiter.retain_recent();
            limiter.shrink_to_fit();
        }
    }

    /// The number of DIDs that are tracked.
    pub fn len(&self) -> (n: usize)
        ensures
            self.enabled() ==> crate::buckets::tracks(self.buckets().cells, n as nat),
            !self.enabled() ==> n == 0,
    {
        match &self.limiter {
            None => 0,
            Some(limiter) => limiter.len(),
        }
    }

    /// Whether no DID is tracked.
    pub fn is_empty(&self) -> (empty: bool)
        ensures
            self.enabled() ==> empty == (self.buckets().cells == Map::<Seq<char>, nat>::empty()),
            !self.enabled() ==> empty,
    {
        match &self.limiter {
            None => true,
            Some(limiter) => {
                let n: usize = limiter.len();
                proof {
                    let cells = crate::limiter::did_cells(*limiter);
                    if n == 0 {
                        assert(cells.dom() =~= Set::empty()) by {
                            cells.dom().lemma_len0_is_empty();
                        }
                        assert(cells =~= Map::empty());
                    } else if cells == Map::<Seq<char>, nat>::empty() {
                        assert(cells.dom() =~= Set::empty());
                    }
                }
                n == 0
            },
        }
    }
}

} // verus!
