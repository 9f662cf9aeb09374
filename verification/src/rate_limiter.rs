//! Per-IP rate limiting: which address a request counts against, and what becomes of it.

use crate::buckets::Buckets;
use crate::limiter::{IpCells, Wait};
use crate::net::{parse_ip, IpAddress, IpNet, NetView};
use crate::text::{split_on, trim};
use vstd::prelude::*;

verus! {

/// Whether `ip` lies in one of the trusted networks.
pub open spec fn is_trusted(ip: IpAddress, trusted: Seq<NetView>) -> bool {
    exists|i: int| 0 <= i < trusted.len() && crate::net::covers(#[trigger] trusted[i], ip)
}

/// Whether `ip` lies in one of the trusted networks.
pub fn ip_is_trusted(ip: IpAddress, trusted: &[IpNet]) -> (yes: bool)
    ensures
        yes == is_trusted(ip, crate::net::net_views(trusted@)),
{
    let ghost nets = crate::net::net_views(trusted@);
    let mut i: usize = 0;
    while i < trusted.len()
        invariant
            i <= trusted@.len(),
            nets == crate::net::net_views(trusted@),
            forall|j: int| 0 <= j < i ==> !crate::net::covers(#[trigger] nets[j], ip),
        decreases trusted.len() - i,
    {
        if trusted[i].contains(ip) {
            assert(crate::net::covers(nets[i as int], ip));
            return true;
        }
        i += 1;
    }
    false
}

/// The client behind a chain of hops, nearest hop last.
///
/// Hops are read from the right; trusted ones are skipped, and the first that is not trusted is
/// the client. A hop that is no address, and a chain of trusted hops only, give the peer.
pub open spec fn client_behind(
    peer: IpAddress,
    hops: Seq<Option<IpAddress>>,
    trusted: Seq<NetView>,
) -> IpAddress
    decreases hops.len(),
{
    if hops.len() == 0 {
        peer
    } else {
        match hops.last() {
            None => peer,
            Some(ip) => if is_trusted(ip, trusted) {
                client_behind(peer, hops.drop_last(), trusted)
            } else {
                ip
            },
        }
    }
}

/// Walks a chain of hops from the right to the client behind it.
pub fn walk_hops(peer: IpAddress, hops: &Vec<Option<IpAddress>>, trusted: &[IpNet]) -> (client:
    IpAddress)
    ensures
        client == client_behind(peer, hops@, crate::net::net_views(trusted@)),
{
    let mut n: usize = hops.len();
    assert(hops@.take(n as int) =~= hops@);
    while n > 0
        invariant
            n <= hops@.len(),
            client_behind(peer, hops@, crate::net::net_views(trusted@)) == client_behind(
                peer,
                hops@.take(n as int),
                crate::net::net_views(trusted@),
            ),
        decreases n,
    {
        assert(hops@.take(n as int).drop_last() =~= hops@.take(n as int - 1));
        match hops[n - 1] {
            None => {
                return peer;
            },
            Some(ip) => {
                if !ip_is_trusted(ip, trusted) {
                    return ip;
                }
            },
        }
        n -= 1;
    }
    peer
}

/// The hops that an `X-Forwarded-For` header lists: the comma-separated parts, trimmed and read as
/// addresses.
pub open spec fn hops_of(xff: Seq<char>) -> Seq<Option<IpAddress>> {
    crate::text::pieces(xff, ',').map_values(
        |hop: Seq<char>| crate::net::parsed_ip(crate::text::trimmed(hop)),
    )
}

/// Reads the hops of an `X-Forwarded-For` header.
pub fn parse_hops(xff: &str) -> (hops: Vec<Option<IpAddress>>)
    ensures
        hops@ == hops_of(xff@),
{
    let parts = split_on(xff, ',');
    let mut hops: Vec<Option<IpAddress>> = Vec::new();
    let mut i: usize = 0;
    while i < parts.len()
        invariant
            i <= parts@.len(),
            crate::text::views(parts@) == crate::text::pieces(xff@, ','),
            hops@ == hops_of(xff@).take(i as int),
        decreases parts.len() - i,
    {
        hops.push(parse_ip(trim(parts[i].as_str()).as_str()));
        assert(crate::text::views(parts@)[i as int] == parts@[i as int]@);
        assert(hops@ =~= hops_of(xff@).take(i as int + 1));
        i += 1;
    }
    assert(hops@ =~= hops_of(xff@));
    hops
}

/// The address that a request counts against.
///
/// The header is looked at only where the socket peer is itself a trusted proxy.
pub open spec fn client_ip(
    peer: IpAddress,
    xff: Option<Seq<char>>,
    trusted: Seq<NetView>,
) -> IpAddress {
    match xff {
        Some(header) if is_trusted(peer, trusted) => client_behind(peer, hops_of(header), trusted),
        _ => peer,
    }
}

/// Resolves the address that a request counts against from the socket peer, the raw
/// `X-Forwarded-For` header and the operator's trusted proxies.
///
/// The header is never trusted blindly: from a peer that is no trusted proxy it is ignored, and
/// from one that is, the chain is read from the right, so that a value an attacker put to the
/// left of the one that the proxy appended is never reached. Whatever is malformed falls back to
/// the peer.
pub fn resolve_client_ip(peer: IpAddress, xff: Option<&str>, trusted: &[IpNet]) -> (client:
    IpAddress)
    ensures
        client == client_ip(peer, crate::text::opt_str_view(xff), crate::net::net_views(trusted@)),
{
    if trusted.len() == 0 || !ip_is_trusted(peer, trusted) {
        return peer;
    }
    match xff {
        None => peer,
        Some(header) => walk_hops(peer, &parse_hops(header), trusted),
    }
}

/// A peer that is no trusted proxy is counted itself, whatever header it sends.
pub proof fn law_untrusted_peer_cannot_spoof(
    peer: IpAddress,
    xff: Option<Seq<char>>,
    trusted: Seq<NetView>,
)
    requires
        !is_trusted(peer, trusted),
    ensures
        client_ip(peer, xff, trusted) == peer,
{
}

/// Without trusted proxies the header is never looked at.
pub proof fn law_no_trusted_proxies_ignores_header(
    peer: IpAddress,
    xff: Option<Seq<char>>,
    trusted: Seq<NetView>,
)
    requires
        trusted.len() == 0,
    ensures
        client_ip(peer, xff, trusted) == peer,
{
}

/// The client is the socket peer or an address outside the trusted networks.
pub proof fn law_client_is_peer_or_untrusted(
    peer: IpAddress,
    hops: Seq<Option<IpAddress>>,
    trusted: Seq<NetView>,
)
    ensures
        ({
            let client = client_behind(peer, hops, trusted);
            client == peer || (!is_trusted(client, trusted) && hops.contains(Some(client)))
        }),
    decreases hops.len(),
{
    if hops.len() > 0 {
        match hops.last() {
            None => {},
            Some(ip) => {
                if is_trusted(ip, trusted) {
                    let rest = hops.drop_last();
                    law_client_is_peer_or_untrusted(peer, rest, trusted);
                    let client = client_behind(peer, rest, trusted);
                    if rest.contains(Some(client)) {
                        let i = choose|i: int| 0 <= i < rest.len() && rest[i] == Some(client);
                        assert(hops[i] == Some(client));
                    }
                } else {
                    assert(hops[hops.len() - 1] == Some(ip));
                }
            },
        }
    }
}

/// Whether a hop ends the walk along a chain: it is malformed, or no trusted proxy.
pub open spec fn ends_walk(hop: Option<IpAddress>, trusted: Seq<NetView>) -> bool {
    hop matches Some(ip) ==> !is_trusted(ip, trusted)
}

/// Hops to the left of one that ends the walk do not count.
proof fn lemma_left_of_end_is_never_reached(
    peer: IpAddress,
    left: Seq<Option<IpAddress>>,
    right: Seq<Option<IpAddress>>,
    trusted: Seq<NetView>,
    i: int,
)
    requires
        0 <= i < right.len(),
        ends_walk(right[i], trusted),
    ensures
        client_behind(peer, left + right, trusted) == client_behind(peer, right, trusted),
    decreases right.len(),
{
    let whole = left + right;
    assert(whole.last() == right.last());
    if !ends_walk(right.last(), trusted) {
        assert(right[right.len() - 1] == right.last());
        assert(whole.drop_last() =~= left + right.drop_last());
        lemma_left_of_end_is_never_reached(peer, left, right.drop_last(), trusted, i);
    }
}

/// What the trusted proxies append decides: where it holds a hop that is malformed or no trusted
/// proxy, whatever was sent to the left of it is never reached.
pub proof fn law_prepended_values_are_never_reached(
    peer: IpAddress,
    sent: Seq<char>,
    appended: Seq<char>,
    trusted: Seq<NetView>,
    i: int,
)
    requires
        0 <= i < hops_of(appended).len(),
        ends_walk(hops_of(appended)[i], trusted),
    ensures
        client_ip(peer, Some(sent.push(',') + appended), trusted) == client_ip(
            peer,
            Some(appended),
            trusted,
        ),
{
    crate::text::lemma_pieces_concat(sent, ',', appended);
    let hops = hops_of(sent.push(',') + appended);
    assert(hops =~= hops_of(sent) + hops_of(appended));
    lemma_left_of_end_is_never_reached(peer, hops_of(sent), hops_of(appended), trusted, i);
}

/// A client address that a trusted proxy appends is the client, whatever was sent before it.
pub proof fn law_appended_client_is_the_client(
    peer: IpAddress,
    sent: Seq<char>,
    appended: Seq<char>,
    client: IpAddress,
    trusted: Seq<NetView>,
)
    requires
        is_trusted(peer, trusted),
        !appended.contains(','),
        crate::net::parsed_ip(crate::text::trimmed(appended)) == Some(client),
        !is_trusted(client, trusted),
    ensures
        client_ip(peer, Some(sent.push(',') + appended), trusted) == client,
{
    crate::text::lemma_pieces_append(sent, ',', appended);
    let hops = hops_of(sent.push(',') + appended);
    assert(hops.last() == Some(client));
}

/// A trusted hop at the right end of the chain is skipped.
pub proof fn law_trusted_hops_are_skipped(
    peer: IpAddress,
    sent: Seq<char>,
    appended: Seq<char>,
    proxy: IpAddress,
    trusted: Seq<NetView>,
)
    requires
        is_trusted(peer, trusted),
        !appended.contains(','),
        crate::net::parsed_ip(crate::text::trimmed(appended)) == Some(proxy),
        is_trusted(proxy, trusted),
    ensures
        client_ip(peer, Some(sent.push(',') + appended), trusted) == client_ip(
            peer,
            Some(sent),
            trusted,
        ),
{
    crate::text::lemma_pieces_append(sent, ',', appended);
    let hops = hops_of(sent.push(',') + appended);
    assert(hops.drop_last() =~= hops_of(sent));
    assert(hops.last() == Some(proxy));
}

/// A malformed value at the right end of the chain falls back to the peer.
pub proof fn law_malformed_hop_falls_back_to_peer(
    peer: IpAddress,
    sent: Seq<char>,
    appended: Seq<char>,
    trusted: Seq<NetView>,
)
    requires
        !appended.contains(','),
        crate::net::parsed_ip(crate::text::trimmed(appended)) is None,
    ensures
        client_ip(peer, Some(sent.push(',') + appended), trusted) == peer,
{
    crate::text::lemma_pieces_append(sent, ',', appended);
    let hops = hops_of(sent.push(',') + appended);
    assert(hops.last() is None);
}

/// A chain of trusted hops only falls back to the peer.
pub proof fn law_all_trusted_chain_falls_back_to_peer(
    peer: IpAddress,
    hops: Seq<Option<IpAddress>>,
    trusted: Seq<NetView>,
)
    requires
        forall|i: int|
            0 <= i < hops.len() ==> ((#[trigger] hops[i]) matches Some(ip) && is_trusted(
                ip,
                trusted,
            )),
    ensures
        client_behind(peer, hops, trusted) == peer,
    decreases hops.len(),
{
    if hops.len() > 0 {
        assert(hops[hops.len() - 1] == hops.last());
        law_all_trusted_chain_falls_back_to_peer(peer, hops.drop_last(), trusted);
    }
}

/// What becomes of a request.
#[derive(Clone, Copy, PartialEq, Eq, Structural, Debug)]
pub enum Decision {
    /// It is passed on.
    Forward,
    /// It is refused because the address it came from is not known.
    NoClientAddress,
    /// It is refused because its address is over the limit; the client may try again after so many
    /// seconds.
    TooManyRequests { retry_after: u64 },
}

/// The status of a refusal for want of a client address.
pub const FORBIDDEN: u16 = 403;

/// The status of a refusal over the limit.
pub const TOO_MANY_REQUESTS: u16 = 429;

impl Decision {
    /// The status and the body text of a refusal.
    pub open spec fn spec_refusal(self) -> Option<(u16, Seq<char>)> {
        match self {
            Decision::Forward => None,
            Decision::NoClientAddress => Some(
                (FORBIDDEN, "Rate limiting requires client IP; request rejected."@),
            ),
            Decision::TooManyRequests { .. } => Some(
                (TOO_MANY_REQUESTS, "Rate limit exceeded. Please try again later."@),
            ),
        }
    }

    /// The status and the body text of a refusal; `None` for a request that is passed on.
    pub fn refusal(&self) -> (answer: Option<(u16, &'static str)>)
        ensures
            answer is Some <==> self.spec_refusal() is Some,
            answer matches Some(a) ==> self.spec_refusal() == Some((a.0, a.1@)),
    {
        match self {
            Decision::Forward => None,
            Decision::NoClientAddress => Some(
                (FORBIDDEN, "Rate limiting requires client IP; request rejected."),
            ),
            Decision::TooManyRequests { .. } => Some(
                (TOO_MANY_REQUESTS, "Rate limit exceeded. Please try again later."),
            ),
        }
    }

    /// The text of the `Retry-After` header, where the answer carries one.
    pub fn retry_after_header(&self) -> (text: Option<String>)
        ensures
            text is Some <==> self is TooManyRequests,
            text matches Some(t) ==> t@ == crate::text::decimal_text(
                self->TooManyRequests_retry_after as nat,
            ),
    {
        match self {
            Decision::TooManyRequests { retry_after } => Some(crate::text::decimal(*retry_after)),
            _ => None,
        }
    }
}

/// A wait in whole seconds, rounded up, and never less than one.
pub open spec fn whole_seconds(wait: Wait) -> nat {
    let up = wait.secs as nat + if wait.subsec_nanos > 0 {
        1nat
    } else {
        0nat
    };
    if up < 1 {
        1
    } else if up > u64::MAX {
        u64::MAX as nat
    } else {
        up
    }
}

/// The number of seconds to name in a `Retry-After` header.
pub fn retry_after_secs(wait: Wait) -> (secs: u64)
    ensures
        secs == whole_seconds(wait),
{
    let up: u64 = if wait.subsec_nanos > 0 && wait.secs < u64::MAX {
        wait.secs + 1
    } else {
        wait.secs
    };
    if up < 1 {
        1
    } else {
        up
    }
}

/// The decision on a request whose address the limiter has answered for.
pub open spec fn decision_of(outcome: Result<(), Wait>) -> Decision {
    match outcome {
        Ok(_) => Decision::Forward,
        Err(wait) => Decision::TooManyRequests { retry_after: whole_seconds(wait) as u64 },
    }
}

/// Turns the limiter's answer into a decision.
pub fn decide(outcome: Result<(), Wait>) -> (decision: Decision)
    ensures
        decision == decision_of(outcome),
{
    match outcome {
        Ok(_) => Decision::Forward,
        Err(wait) => Decision::TooManyRequests { retry_after: retry_after_secs(wait) },
    }
}

/// Whether `decision` is what a request counted against `client` gets: it is passed on exactly where
/// the limiter allows it. A refused client is told to wait for the seconds that the limiter asks
/// for, rounded up: at least one, and less than one more than the interval in which a request is
/// earned.
pub open spec fn answered(
    before: Buckets<IpAddress>,
    after: Buckets<IpAddress>,
    client: IpAddress,
    decision: Decision,
) -> bool {
    &&& decision is Forward || decision is TooManyRequests
    &&& exists|outcome: Result<(), Wait>|
        crate::limiter::answer_step(before, after, client, outcome) && decision
            == #[trigger] decision_of(outcome)
    &&& crate::buckets::check_step(before, after, client, decision is Forward)
    &&& crate::buckets::granted(before.cells, client) < before.burst ==> decision is Forward
    &&& decision matches Decision::TooManyRequests { retry_after } ==> retry_after == 1 || (1
        < retry_after && (retry_after - 1) * 1_000_000_000 < before.interval)
}

/// What the limiter answers decides.
proof fn lemma_answered(
    before: Buckets<IpAddress>,
    after: Buckets<IpAddress>,
    client: IpAddress,
    outcome: Result<(), Wait>,
)
    requires
        crate::limiter::answer_step(before, after, client, outcome),
    ensures
        answered(before, after, client, decision_of(outcome)),
{
    assert(crate::buckets::check_step(before, after, client, outcome is Ok));
    if crate::buckets::granted(before.cells, client) < before.burst {
        crate::buckets::law_burst_is_granted(before, after, client, outcome is Ok);
    }
    if let Err(wait) = outcome {
        crate::limiter::law_waits_last_an_interval_at_most(before, after, client, wait);
    }
}

/// Whatever the configured rate, a client that is refused is told to try again in one second: no
/// interval is longer than that.
pub proof fn law_clients_are_told_to_wait_a_second(
    before: Buckets<IpAddress>,
    after: Buckets<IpAddress>,
    client: IpAddress,
    per_second: nat,
    retry_after: u64,
)
    requires
        per_second > 0,
        before.interval == crate::buckets::replenish_nanos(per_second),
        answered(before, after, client, Decision::TooManyRequests { retry_after }),
    ensures
        retry_after == 1,
{
    assert(1_000_000_000nat / per_second <= 1_000_000_000nat) by (nonlinear_arith)
        requires
            per_second > 0,
    ;
}

/// The state that per-IP rate limiting shares between requests.
pub struct RateLimiterState {
    limiter: Option<IpCells>,
    trusted_proxies: Vec<IpNet>,
}

impl RateLimiterState {
    /// Whether rate limiting is on.
    pub closed spec fn enabled(&self) -> bool {
        self.limiter is Some
    }

    /// The buckets of the addresses that are tracked.
    pub closed spec fn buckets(&self) -> Buckets<IpAddress> {
        match self.limiter {
            Some(l) => crate::limiter::ip_buckets(l),
            None => crate::buckets::fresh(0, 0),
        }
    }

    /// The number of requests that an address may make at once.
    pub open spec fn burst(&self) -> nat {
        self.buckets().burst
    }

    /// The nanoseconds in which an address earns another request.
    pub open spec fn interval(&self) -> nat {
        self.buckets().interval
    }

    /// The proxies whose `X-Forwarded-For` is honoured.
    pub closed spec fn trusted(&self) -> Seq<NetView> {
        crate::net::net_views(self.trusted_proxies@)
    }

    /// A limiter for `per_second` requests per second and address, with bursts of `burst`. Rate
    /// limiting is disabled where `per_second` is zero; a burst of zero counts as one.
    pub fn new(per_second: u32, burst: u32, trusted_proxies: Vec<IpNet>) -> (state:
        RateLimiterState)
        ensures
            state.enabled() <==> per_second > 0,
            state.trusted() == crate::net::net_views(trusted_proxies@),
            per_second == 0 ==> state.buckets() == crate::buckets::fresh::<IpAddress>(0, 0),
            per_second > 0 ==> state.buckets() == crate::buckets::fresh::<IpAddress>(
                if burst == 0 {
                    1
                } else {
                    burst as nat
                },
                crate::buckets::replenish_nanos(per_second as nat),
            ),
            per_second > 0 ==> crate::buckets::well_formed(state.buckets()),
    {
        if per_second == 0 {
            return RateLimiterState { limiter: None, trusted_proxies };
        }
        let burst: u32 = if burst == 0 {
            1
        } else {
            burst
        };
        let limiter = Some(IpCells::keyed(per_second, burst));
        let state = RateLimiterState { limiter, trusted_proxies };
        assert(state.buckets().cells.dom() =~= state.buckets().full_at.dom());
        state
    }

    /// Decides one request by its socket peer and its `X-Forwarded-For` header.
    ///
    /// Everything is passed on where rate limiting is disabled. Otherwise a request without a
    /// known peer is refused, and any other is counted against the address that
    /// [`resolve_client_ip`] gives.
    pub fn decide_request(&mut self, peer: Option<IpAddress>, xff: Option<&str>) -> (decision:
        Decision)
        ensures
            !old(self).enabled() ==> decision == Decision::Forward && *final(self) == *old(self),
            old(self).enabled() && peer is None ==> decision == Decision::NoClientAddress
                && *final(self) == *old(self),
            old(self).enabled() ==> (peer matches Some(p) ==> answered(
                old(self).buckets(),
                final(self).buckets(),
                client_ip(p, crate::text::opt_str_view(xff), old(self).trusted()),
                decision,
            )),
            final(self).enabled() == old(self).enabled(),
            final(self).trusted() == old(self).trusted(),
    {
        match &mut self.limiter {
            None => Decision::Forward,
            Some(limiter) => match peer {
                None => Decision::NoClientAddress,
                Some(peer) => {
                    let ip = resolve_client_ip(peer, xff, self.trusted_proxies.as_slice());
                    let ghost before = crate::limiter::ip_buckets(*limiter);
                    let outcome = limiter.check_key(ip);
                    proof {
                        lemma_answered(
                            before,
                            crate::limiter::ip_buckets(*limiter),
                            ip,
                            outcome,
                        );
                    }
                    decide(outcome)
                },
            },
        }
    }
}

} // verus!
