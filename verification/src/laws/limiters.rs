//! How many requests the limiters let through.

use crate::accounts::AccountType;
use crate::did_rate_limiter::{per_did_rate_limit_applies, DidRateLimiter};
use crate::net::{IpAddress, IpNet};
use crate::rate_limiter::{resolve_client_ip, Decision, RateLimiterState};
use crate::server::limiters;
use crate::settings::Config;
use vstd::prelude::*;

verus! {

/// The interval of a rate is its share of a second in whole nanoseconds, and never nothing.
proof fn lemma_interval(per_second: int)
    requires
        per_second > 0,
    ensures
        ({
            let interval = crate::buckets::replenish_nanos(per_second as nat) as int;
            &&& per_second <= 1_000_000_000 ==> interval * per_second <= 1_000_000_000 < (interval
                + 1) * per_second
            &&& per_second > 1_000_000_000 ==> interval == 1
        }),
{
    let share = 1_000_000_000int / per_second;
    assert(share * per_second <= 1_000_000_000 < (share + 1) * per_second && (per_second
        <= 1_000_000_000 ==> share >= 1) && (per_second > 1_000_000_000 ==> share == 0))
        by (nonlinear_arith)
        requires
            per_second > 0,
            share == 1_000_000_000int / per_second,
    ;
}

/// The administrative tiers and sessions without a DID are exempt from the limit by DID; all others
/// are under it.
pub proof fn law_administrators_are_exempt(
    account_type: AccountType,
    did_hash: &str,
    applies: bool,
    admin: bool,
)
    requires
        call_ensures(per_did_rate_limit_applies, (account_type, did_hash), applies),
        call_ensures(AccountType::is_admin, (&account_type,), admin),
    ensures
        applies <==> did_hash@.len() > 0 && (account_type is Standard || account_type is Unknown),
        admin <==> account_type is Mediator || account_type is RootAdmin || account_type is Admin,
{
}

/// A limiter by DID limits where its rate is not 0. It then has no buckets yet, lets through as
/// many at once as its burst, and one where the burst is 0, and grants another in its rate's share
/// of a second.
pub proof fn law_did_limiters_have_their_rate_and_burst(
    per_second: u32,
    burst: u32,
    limiter: DidRateLimiter,
)
    requires
        call_ensures(DidRateLimiter::new, (per_second, burst), limiter),
    ensures
        limiter.enabled() <==> per_second > 0,
        per_second > 0 ==> {
            &&& limiter.buckets().cells == Map::<Seq<char>, nat>::empty()
            &&& limiter.buckets().full_at == Map::<Seq<char>, nat>::empty()
            &&& limiter.buckets().burst == if burst == 0 {
                1
            } else {
                burst as int
            }
            &&& per_second <= 1_000_000_000 ==> limiter.buckets().interval * per_second
                <= 1_000_000_000 < (limiter.buckets().interval + 1) * per_second
            &&& per_second > 1_000_000_000 ==> limiter.buckets().interval == 1
        },
{
    if per_second > 0 {
        lemma_interval(per_second as int);
    }
}

/// A limiter by address limits where its rate is not 0. It then has no buckets yet, lets through as
/// many at once as its burst, and one where the burst is 0, and grants another in its rate's share
/// of a second. It trusts the given proxies, each of them, and no others.
pub proof fn law_address_limiters_have_their_rate_and_burst(
    per_second: u32,
    burst: u32,
    trusted_proxies: Vec<IpNet>,
    state: RateLimiterState,
)
    requires
        call_ensures(RateLimiterState::new, (per_second, burst, trusted_proxies), state),
    ensures
        state.enabled() <==> per_second > 0,
        per_second > 0 ==> {
            &&& state.buckets().cells == Map::<IpAddress, nat>::empty()
            &&& state.buckets().full_at == Map::<IpAddress, nat>::empty()
            &&& state.buckets().burst == if burst == 0 {
                1
            } else {
                burst as int
            }
            &&& per_second <= 1_000_000_000 ==> state.buckets().interval * per_second
                <= 1_000_000_000 < (state.buckets().interval + 1) * per_second
            &&& per_second > 1_000_000_000 ==> state.buckets().interval == 1
        },
        state.trusted().len() == trusted_proxies@.len(),
        forall|i: int|
            0 <= i < trusted_proxies@.len() ==> #[trigger] state.trusted()[i]
                == trusted_proxies@[i]@,
{
    if per_second > 0 {
        lemma_interval(per_second as int);
    }
}

/// The limiters of the routes are those that their own settings make: the one by address of the
/// rate and burst per address and the trusted proxies, the one by DID of the rate and burst per
/// DID.
pub proof fn law_limiters_are_made_of_their_own_settings(
    config: Config,
    pair: (RateLimiterState, DidRateLimiter),
    by_address: RateLimiterState,
    by_did: DidRateLimiter,
)
    requires
        call_ensures(limiters, (&config,), pair),
        call_ensures(
            RateLimiterState::new,
            (
                config.limits.rate_limit_per_ip,
                config.limits.rate_limit_burst,
                config.limits.trusted_proxies,
            ),
            by_address,
        ),
        call_ensures(
            DidRateLimiter::new,
            (config.limits.did_rate_limit_per_second, config.limits.did_rate_limit_burst),
            by_did,
        ),
    ensures
        ({
            let (address, did) = pair;
            &&& address.enabled() == by_address.enabled()
            &&& address.trusted() == by_address.trusted()
            &&& address.enabled() ==> address.buckets() == by_address.buckets()
            &&& did.enabled() == by_did.enabled()
            &&& did.enabled() ==> did.buckets() == by_did.buckets()
        }),
{
}

/// A limiter by DID that is off allows everything and keeps nothing. One that is on takes a cell
/// from the bucket of the DID it allows, and of no other; where it refuses, nothing changes. It
/// refuses only a DID that has had a burst's worth of cells, and exactly where its bucket is full
/// again later than a burst less one cell from now; a cell puts that off by one interval.
pub proof fn law_a_did_pays_for_itself_alone(did_hash: &str, allowed: bool)
    ensures
        forall|limiter: &mut DidRateLimiter| #[trigger]
            call_ensures(DidRateLimiter::check, (limiter, did_hash), allowed) ==> {
                let key = did_hash@;
                let before = limiter.buckets();
                let after = final(limiter).buckets();
                let had = if before.cells.contains_key(key) {
                    before.cells[key]
                } else {
                    0
                };
                &&& final(limiter).enabled() == limiter.enabled()
                &&& !limiter.enabled() ==> allowed && *final(limiter) == *limiter
                &&& limiter.enabled() ==> {
                    &&& after.burst == before.burst && after.interval == before.interval
                    &&& allowed ==> after.cells == before.cells.insert(key, had + 1)
                    &&& allowed ==> after.full_at.contains_key(key) && after.full_at
                        == before.full_at.insert(key, after.full_at[key])
                    &&& allowed && before.full_at.contains_key(key) ==> after.full_at[key]
                        >= before.full_at[key] + before.interval
                    &&& !allowed ==> after.cells == before.cells && after.full_at == before.full_at
                    &&& had < before.burst ==> allowed
                    &&& exists|now: nat| #[trigger]
                        crate::buckets::can_be_now(before, now) && (allowed <==> (
                        before.full_at.contains_key(key) ==> before.full_at[key] <= now + (before.burst - 1)
                            * before.interval)) && (allowed ==> after.full_at[key] == before.interval
                            + if before.full_at.contains_key(key) && before.full_at[key] > now {
                            before.full_at[key]
                        } else {
                            now
                        })
                }
            },
{
    assert forall|limiter: &mut DidRateLimiter| #[trigger]
        call_ensures(DidRateLimiter::check, (limiter, did_hash), allowed)
            && limiter.enabled() implies {
        let key = did_hash@;
        let before = limiter.buckets();
        let after = final(limiter).buckets();
        &&& allowed ==> after.full_at =~= before.full_at.insert(key, after.full_at[key])
        &&& allowed && before.full_at.contains_key(key) ==> after.full_at[key] >= before.full_at[key]
            + before.interval
    } by {
        let before = limiter.buckets();
        let now = choose|now: nat| #[trigger]
            crate::buckets::can_be_now(before, now) && allowed == crate::buckets::allows(
                before,
                did_hash@,
                now,
            ) && final(limiter).buckets() == crate::buckets::checked(before, did_hash@, now);
    }
}

/// A reclaim takes no cell from any DID: a bucket goes, or stays as it is. It goes exactly where it
/// has been full for an interval. So a DID goes that has not been used since another was granted
/// all its cells, and one more interval.
pub proof fn law_a_reclaim_forgets_what_is_full_again(idle: Seq<char>, active: Seq<char>)
    ensures
        forall|limiter: &mut DidRateLimiter| #[trigger]
            call_ensures(DidRateLimiter::retain_recent, (limiter,), ()) ==> {
                let before = limiter.buckets();
                let after = final(limiter).buckets();
                &&& final(limiter).enabled() == limiter.enabled()
                &&& !limiter.enabled() ==> *final(limiter) == *limiter
                &&& limiter.enabled() ==> {
                    &&& after.burst == before.burst && after.interval == before.interval
                    &&& after.cells.contains_key(idle) ==> before.cells.contains_key(idle)
                        && after.cells[idle] == before.cells[idle]
                    &&& after.full_at.contains_key(idle) ==> before.full_at.contains_key(idle)
                        && after.full_at[idle] == before.full_at[idle]
                    &&& before.cells.dom() == before.full_at.dom() ==> after.cells.dom()
                        == after.full_at.dom()
                    &&& exists|now: nat| #[trigger]
                        crate::buckets::can_be_now(before, now) && (after.full_at.contains_key(idle)
                            <==> before.full_at.contains_key(idle) && now < before.full_at[idle]
                            + before.interval)
                    &&& before.full_at.contains_key(idle) && before.full_at.contains_key(active)
                        && before.cells.contains_key(active) && before.full_at[idle] + before.interval
                        + before.cells[active] * before.interval <= before.full_at[active]
                        ==> !after.full_at.contains_key(idle) && !after.cells.contains_key(idle)
                }
            },
{
    assert forall|limiter: &mut DidRateLimiter| #[trigger]
        call_ensures(DidRateLimiter::retain_recent, (limiter,), ()) && limiter.enabled() implies {
        let before = limiter.buckets();
        let after = final(limiter).buckets();
        before.cells.dom() == before.full_at.dom() ==> after.cells.dom() =~= after.full_at.dom()
    } by {}
}

/// The number of DIDs that are tracked is that of the buckets; it is 0 where the limiter is off,
/// and exactly then, and where there are no buckets, is the limiter empty.
pub proof fn law_tracked_dids_are_counted(limiter: DidRateLimiter, n: usize, empty: bool)
    requires
        call_ensures(DidRateLimiter::len, (&limiter,), n),
        call_ensures(DidRateLimiter::is_empty, (&limiter,), empty),
    ensures
        empty <==> n == 0,
        !limiter.enabled() ==> n == 0,
        limiter.enabled() ==> limiter.buckets().cells.dom().len() == n,
{
    if limiter.enabled() {
        let cells = limiter.buckets().cells;
        if n == 0 {
            cells.dom().lemma_len0_is_empty();
            assert(cells =~= Map::empty());
        } else if empty {
            assert(cells.dom() =~= Set::empty());
        }
    }
}

/// A limiter by address that is off passes everything on, and one that is on refuses a request
/// whose peer is not known; neither changes anything. Any other request pays from the bucket of its
/// client, and of no one else: one that is passed on takes a cell from it, one that is refused
/// changes nothing. A client with less than a burst's worth of cells is passed on. It is refused
/// exactly where its bucket is full again later than a burst less one cell from now, and is then
/// told to wait a second, where a request is earned within one.
pub proof fn law_a_client_pays_for_itself_alone(
    peer: IpAddress,
    xff: Option<&str>,
    trusted: &[IpNet],
    client: IpAddress,
    decision: Decision,
)
    requires
        call_ensures(resolve_client_ip, (peer, xff, trusted), client),
    ensures
        forall|state: &mut RateLimiterState| #[trigger]
            call_ensures(RateLimiterState::decide_request, (state, None, xff), decision) ==> {
                &&& *final(state) == *state
                &&& state.enabled() ==> decision == Decision::NoClientAddress
                &&& !state.enabled() ==> decision == Decision::Forward
            },
        forall|state: &mut RateLimiterState| #[trigger]
            call_ensures(RateLimiterState::decide_request, (state, Some(peer), xff), decision)
                && state.trusted() == crate::net::net_views(trusted@) ==> {
                let before = state.buckets();
                let after = final(state).buckets();
                let had = if before.cells.contains_key(client) {
                    before.cells[client]
                } else {
                    0
                };
                &&& final(state).enabled() == state.enabled()
                &&& final(state).trusted() == state.trusted()
                &&& !state.enabled() ==> decision == Decision::Forward && *final(state) == *state
                &&& state.enabled() ==> {
                    &&& decision is Forward || decision is TooManyRequests
                    &&& after.burst == before.burst && after.interval == before.interval
                    &&& decision is Forward ==> after.cells == before.cells.insert(client, had + 1)
                    &&& decision is Forward ==> after.full_at.contains_key(client) && after.full_at
                        == before.full_at.insert(client, after.full_at[client])
                    &&& decision is Forward && before.full_at.contains_key(client)
                        ==> after.full_at[client] >= before.full_at[client] + before.interval
                    &&& decision is TooManyRequests ==> after.cells == before.cells && after.full_at
                        == before.full_at
                    &&& had < before.burst ==> decision is Forward
                    &&& exists|now: nat| #[trigger]
                        crate::buckets::can_be_now(before, now) && (decision is Forward <==> (
                        before.full_at.contains_key(client) ==> before.full_at[client] <= now + (before.burst
                            - 1) * before.interval)) && (decision is Forward ==> after.full_at[client]
                            == before.interval + if before.full_at.contains_key(client)
                            && before.full_at[client] > now {
                            before.full_at[client]
                        } else {
                            now
                        })
                    &&& decision is TooManyRequests && before.interval <= 1_000_000_000 ==> decision
                        == (Decision::TooManyRequests { retry_after: 1 })
                }
            },
{
    assert forall|state: &mut RateLimiterState| #[trigger]
        call_ensures(RateLimiterState::decide_request, (state, Some(peer), xff), decision)
            && state.trusted() == crate::net::net_views(trusted@) && state.enabled() implies {
        let before = state.buckets();
        let after = final(state).buckets();
        &&& decision is Forward ==> after.full_at =~= before.full_at.insert(client, after.full_at[client])
        &&& decision is Forward && before.full_at.contains_key(client) ==> after.full_at[client]
            >= before.full_at[client] + before.interval
    } by {
        let before = state.buckets();
        let now = choose|now: nat| #[trigger]
            crate::buckets::can_be_now(before, now) && (decision is Forward)
                == crate::buckets::allows(before, client, now) && final(state).buckets()
                == crate::buckets::checked(before, client, now);
    }
}

} // verus!
