//! Keyed rate limiters of the `governor` crate.
//!
//! A limiter holds [`Buckets`]. It reads the time itself, so what a check or a reclaim does is
//! stated of some time that can be the present. That time does not run backwards is what `governor`
//! promises of its clocks, and the statements rest on that promise.

use crate::buckets::Buckets;
use crate::net::IpAddress;
use vstd::prelude::*;

verus! {

/// A limiter with one bucket per DID hash.
#[verifier::external_body]
pub struct DidCells {
    inner: governor::RateLimiter<
        String,
        governor::state::keyed::DashMapStateStore<String>,
        governor::clock::DefaultClock,
    >,
}

/// The cells granted to each DID hash since the limiter has kept a bucket for it.
pub uninterp spec fn did_cells(limiter: DidCells) -> Map<Seq<char>, nat>;

/// The number of cells in a full bucket.
pub uninterp spec fn did_burst(limiter: DidCells) -> nat;

/// When the bucket of each DID hash is full again, in nanoseconds since the limiter was made.
pub uninterp spec fn did_full_at(limiter: DidCells) -> Map<Seq<char>, nat>;

/// The nanoseconds in which one cell is replenished.
pub uninterp spec fn did_interval(limiter: DidCells) -> nat;

/// The buckets of a limiter by DID.
pub open spec fn did_buckets(limiter: DidCells) -> Buckets<Seq<char>> {
    Buckets {
        cells: did_cells(limiter),
        full_at: did_full_at(limiter),
        burst: did_burst(limiter),
        interval: did_interval(limiter),
    }
}

impl DidCells {
    /// `governor::RateLimiter::keyed` on `Quota::per_second(..).allow_burst(..)`: a limiter without
    /// buckets that has the given burst size and replenishes one cell in one second's share.
    #[verifier::external_body]
    pub(crate) fn keyed(per_second: u32, burst: u32) -> (limiter: DidCells)
        requires
            per_second > 0,
            burst > 0,
        ensures
            did_cells(limiter) =~= Map::empty(),
            did_full_at(limiter) =~= Map::empty(),
            did_burst(limiter) == burst as nat,
            did_interval(limiter) == crate::buckets::replenish_nanos(per_second as nat),
    {
        let per_second = core::num::NonZeroU32::new(per_second).unwrap();
        let burst = core::num::NonZeroU32::new(burst).unwrap();
        let quota = governor::Quota::per_second(per_second).allow_burst(burst);
        DidCells { inner: governor::RateLimiter::keyed(quota) }
    }

    /// `governor::RateLimiter::check_key`: allowed exactly where the key's bucket is full again, or
    /// will be within the burst less one cell; a cell that is taken puts that time off by one
    /// interval, and a refusal changes nothing. The time at which this happens is not known, but it
    /// is not before that of any earlier check.
    #[verifier::external_body]
    pub(crate) fn check_key(&mut self, key: &str) -> (allowed: bool)
        ensures
            crate::buckets::check_step(
                did_buckets(*old(self)),
                did_buckets(*final(self)),
                key@,
                allowed,
            ),
    {
        self.inner.check_key(&key.to_owned()).is_ok()
    }

    /// `governor::RateLimiter::retain_recent`: drops the buckets that were full one interval before
    /// the present, which time has made indistinguishable from fresh ones, and keeps the others as
    /// they are. The time at which this happens is not known, but it is not before that of any
    /// earlier check.
    #[verifier::external_body]
    pub(crate) fn retain_recent(&mut self)
        ensures
            crate::buckets::reclaim_step(did_buckets(*old(self)), did_buckets(*final(self))),
    {
        self.inner.retain_recent();
    }

    /// `governor::RateLimiter::shrink_to_fit`: gives back spare capacity and keeps every bucket.
    #[verifier::external_body]
    pub(crate) fn shrink_to_fit(&mut self)
        ensures
            did_buckets(*final(self)) == did_buckets(*old(self)),
    {
        self.inner.shrink_to_fit();
    }

    /// `governor::RateLimiter::len`: the number of keys that a bucket is kept for.
    #[verifier::external_body]
    pub(crate) fn len(&self) -> (n: usize)
        ensures
            crate::buckets::tracks(did_cells(*self), n as nat),
    {
        self.inner.len()
    }
}

/// A limiter with one bucket per client address.
#[verifier::external_body]
pub struct IpCells {
    inner: governor::RateLimiter<
        core::net::IpAddr,
        governor::state::keyed::DashMapStateStore<core::net::IpAddr>,
        governor::clock::DefaultClock,
    >,
}

/// The cells granted to each address since the limiter has kept a bucket for it.
pub uninterp spec fn ip_cells(limiter: IpCells) -> Map<IpAddress, nat>;

/// The number of cells in a full bucket.
pub uninterp spec fn ip_burst(limiter: IpCells) -> nat;

/// When the bucket of each address is full again, in nanoseconds since the limiter was made.
pub uninterp spec fn ip_full_at(limiter: IpCells) -> Map<IpAddress, nat>;

/// The nanoseconds in which one cell is replenished.
pub uninterp spec fn ip_interval(limiter: IpCells) -> nat;

/// The buckets of a limiter by address.
pub open spec fn ip_buckets(limiter: IpCells) -> Buckets<IpAddress> {
    Buckets {
        cells: ip_cells(limiter),
        full_at: ip_full_at(limiter),
        burst: ip_burst(limiter),
        interval: ip_interval(limiter),
    }
}

/// How long a refused client would have to wait.
#[derive(Clone, Copy, PartialEq, Eq, Structural, Debug)]
pub struct Wait {
    pub secs: u64,
    pub subsec_nanos: u32,
}

/// A wait in nanoseconds.
pub open spec fn wait_nanos(wait: Wait) -> nat {
    wait.secs as nat * 1_000_000_000 + wait.subsec_nanos as nat
}

/// What one check of `key` does that tells how long to wait: it is answered, and the buckets
/// change, as at some time that can be the present, and a refused client would have to wait no
/// longer, from then on, than until it is allowed.
pub open spec fn answer_step<K>(
    before: Buckets<K>,
    after: Buckets<K>,
    key: K,
    outcome: Result<(), Wait>,
) -> bool {
    exists|now: nat| #[trigger]
        crate::buckets::can_be_now(before, now) && (outcome is Ok) == crate::buckets::allows(
            before,
            key,
            now,
        ) && after == crate::buckets::checked(before, key, now) && (outcome matches Err(w) ==> now
            + wait_nanos(w) + (before.burst - 1) * before.interval <= before.full_at[key])
}

/// A refused client would have to wait one interval at most.
pub proof fn law_waits_last_an_interval_at_most<K>(
    before: Buckets<K>,
    after: Buckets<K>,
    key: K,
    wait: Wait,
)
    requires
        answer_step(before, after, key, Err(wait)),
    ensures
        wait_nanos(wait) <= before.interval,
{
    let i = before.interval;
    assert((before.burst - 1) * i + i == before.burst * i) by (nonlinear_arith);
}

impl IpCells {
    /// `governor::RateLimiter::keyed` on `Quota::per_second(..).allow_burst(..)`: a limiter without
    /// buckets that has the given burst size and replenishes one cell in one second's share.
    #[verifier::external_body]
    pub(crate) fn keyed(per_second: u32, burst: u32) -> (limiter: IpCells)
        requires
            per_second > 0,
            burst > 0,
        ensures
            ip_cells(limiter) =~= Map::empty(),
            ip_full_at(limiter) =~= Map::empty(),
            ip_burst(limiter) == burst as nat,
            ip_interval(limiter) == crate::buckets::replenish_nanos(per_second as nat),
    {
        let per_second = core::num::NonZeroU32::new(per_second).unwrap();
        let burst = core::num::NonZeroU32::new(burst).unwrap();
        let quota = governor::Quota::per_second(per_second).allow_burst(burst);
        IpCells { inner: governor::RateLimiter::keyed(quota) }
    }

    /// `governor::RateLimiter::check_key`, and on a refusal `NotUntil::wait_time_from` the present:
    /// allowed exactly where the key's bucket is full again, or will be within the burst less one
    /// cell; a cell that is taken puts that time off by one interval, and a refusal changes
    /// nothing. The wait is what is left until the key is allowed; the clock is read again for it,
    /// so that it may be shorter than at the time of the check. Neither time is known, but they are
    /// not before that of any earlier check.
    #[verifier::external_body]
    pub(crate) fn check_key(&mut self, key: IpAddress) -> (outcome: Result<(), Wait>)
        ensures
            answer_step(ip_buckets(*old(self)), ip_buckets(*final(self)), key, outcome),
    {
        let ip = match key {
            IpAddress::V4(b) => core::net::IpAddr::V4(b.into()),
            IpAddress::V6(b) => core::net::IpAddr::V6(b.into()),
        };
        match self.inner.check_key(&ip) {
            Ok(_) => Ok(()),
            Err(refusal) => {
                let now = governor::clock::Clock::now(&governor::clock::DefaultClock::default());
                let wait = refusal.wait_time_from(now);
                Err(Wait { secs: wait.as_secs(), subsec_nanos: wait.subsec_nanos() })
            },
        }
    }
}

} // verus!
