//! Which address a request counts against, and what a refused client is told.

use crate::limiter::Wait;
use crate::net::{IpAddress, IpNet};
use crate::rate_limiter::{
    decide, ip_is_trusted, parse_hops, resolve_client_ip, retry_after_secs, walk_hops, Decision,
};
use crate::text::{decimal, trim};
use vstd::prelude::*;

verus! {

/// Every network in the list counts: an address is trusted exactly where one of them holds it,
/// wherever in the list that one stands.
pub proof fn law_every_trusted_network_counts(
    ip: IpAddress,
    trusted: &[IpNet],
    held: Seq<bool>,
    yes: bool,
)
    requires
        held.len() == trusted@.len(),
        forall|i: int|
            0 <= i < held.len() ==> call_ensures(
                IpNet::contains,
                (&trusted@[i], ip),
                #[trigger] held[i],
            ),
        call_ensures(ip_is_trusted, (ip, trusted), yes),
    ensures
        forall|i: int| 0 <= i < held.len() && #[trigger] held[i] ==> yes,
        yes ==> exists|i: int| 0 <= i < held.len() && #[trigger] held[i],
{
    let nets = crate::net::net_views(trusted@);
    assert forall|i: int| 0 <= i < held.len() implies #[trigger] held[i] == crate::net::covers(
        nets[i],
        ip,
    ) by {
        assert(nets[i] == trusted@[i]@);
    }
    if yes {
        let i = choose|i: int| 0 <= i < nets.len() && crate::net::covers(#[trigger] nets[i], ip);
        assert(held[i]);
    }
}

/// An address that is trusted stays trusted with every list that has the same networks and perhaps
/// others, in whatever order.
pub proof fn law_more_networks_trust_no_less(
    ip: IpAddress,
    fewer: &[IpNet],
    more: &[IpNet],
    before: bool,
    after: bool,
)
    requires
        forall|i: int| 0 <= i < fewer@.len() ==> more@.contains(#[trigger] fewer@[i]),
        call_ensures(ip_is_trusted, (ip, fewer), before),
        call_ensures(ip_is_trusted, (ip, more), after),
    ensures
        before ==> after,
{
    let few = crate::net::net_views(fewer@);
    let many = crate::net::net_views(more@);
    if before {
        let i = choose|i: int| 0 <= i < few.len() && crate::net::covers(#[trigger] few[i], ip);
        assert(few[i] == fewer@[i]@);
        assert(more@.contains(fewer@[i]));
        let j = choose|j: int| 0 <= j < more@.len() && more@[j] == fewer@[i];
        assert(many[j] == more@[j]@);
        assert(crate::net::covers(many[j], ip));
    }
}

/// The last hop of a chain decides: one that is no address gives the peer, one that is not trusted
/// is the client, and a trusted one is skipped. A chain without hops gives the peer.
pub proof fn law_hops_are_walked_from_the_right(
    peer: IpAddress,
    hops: Vec<Option<IpAddress>>,
    shorter: Vec<Option<IpAddress>>,
    hop: Option<IpAddress>,
    trusted: &[IpNet],
    client: IpAddress,
    behind: IpAddress,
    hop_is_trusted: bool,
)
    requires
        hops@ == shorter@.push(hop),
        hop matches Some(ip) ==> call_ensures(ip_is_trusted, (ip, trusted), hop_is_trusted),
        call_ensures(walk_hops, (peer, &hops, trusted), client),
        call_ensures(walk_hops, (peer, &shorter, trusted), behind),
    ensures
        hop is None ==> client == peer,
        hop is Some && !hop_is_trusted ==> client == hop->0,
        hop is Some && hop_is_trusted ==> client == behind,
        shorter@.len() == 0 ==> behind == peer,
{
    assert(hops@.drop_last() =~= shorter@);
    assert(hops@.last() == hop);
}

/// A header without a comma is one hop: what `IpAddr::from_str` reads from its trimmed text. The
/// hops of two headers with a comma between them are those of the one and then of the other.
pub proof fn law_hops_stand_between_commas(
    first: &str,
    second: &str,
    both: &str,
    of_first: Vec<Option<IpAddress>>,
    of_second: Vec<Option<IpAddress>>,
    of_both: Vec<Option<IpAddress>>,
    text: String,
)
    requires
        both@ == first@.push(',') + second@,
        call_ensures(parse_hops, (first,), of_first),
        call_ensures(parse_hops, (second,), of_second),
        call_ensures(parse_hops, (both,), of_both),
        call_ensures(trim, (first,), text),
    ensures
        of_both@ == of_first@ + of_second@,
        !first@.contains(',') ==> of_first@ == seq![crate::net::parsed_ip(text@)],
{
    crate::text::lemma_pieces_concat(first@, ',', second@);
    assert(of_both@ =~= of_first@ + of_second@);
    if !first@.contains(',') {
        crate::text::lemma_one_piece(first@, ',');
        assert(of_first@ =~= seq![crate::net::parsed_ip(text@)]);
    }
}

/// The header counts only where the peer is trusted; the client is then the one behind the chain
/// of hops that it lists. Otherwise, and without a header, the client is the peer.
pub proof fn law_header_counts_from_trusted_peers_only(
    peer: IpAddress,
    xff: Option<&str>,
    trusted: &[IpNet],
    client: IpAddress,
    peer_is_trusted: bool,
    hops: Vec<Option<IpAddress>>,
    behind: IpAddress,
)
    requires
        call_ensures(resolve_client_ip, (peer, xff, trusted), client),
        call_ensures(ip_is_trusted, (peer, trusted), peer_is_trusted),
        xff matches Some(header) ==> call_ensures(parse_hops, (header,), hops),
        call_ensures(walk_hops, (peer, &hops, trusted), behind),
    ensures
        xff is None ==> client == peer,
        !peer_is_trusted ==> client == peer,
        xff is Some && peer_is_trusted ==> client == behind,
{
}

/// A client is told to wait the fewest whole seconds, and at least one, that last as long as the
/// wait.
pub proof fn law_waits_are_rounded_up(wait: Wait, secs: u64)
    requires
        wait.subsec_nanos < 1_000_000_000,
        call_ensures(retry_after_secs, (wait,), secs),
    ensures
        secs >= 1,
        secs * 1_000_000_000 >= wait.secs * 1_000_000_000 + wait.subsec_nanos || secs == u64::MAX,
        secs > 1 ==> (secs - 1) * 1_000_000_000 < wait.secs * 1_000_000_000 + wait.subsec_nanos,
{
}

/// What the limiter allows is passed on, and what it refuses is told how long to wait.
pub proof fn law_the_limiter_decides(outcome: Result<(), Wait>, decision: Decision, secs: u64)
    requires
        call_ensures(decide, (outcome,), decision),
        outcome matches Err(wait) ==> call_ensures(retry_after_secs, (wait,), secs),
    ensures
        outcome is Ok ==> decision == Decision::Forward,
        outcome is Err ==> decision == (Decision::TooManyRequests { retry_after: secs }),
{
}

/// A request that is passed on has no answer. One without a client address is forbidden; one over
/// the limit is answered that there were too many, and told the seconds in decimal.
pub proof fn law_refusals_have_their_status(
    decision: Decision,
    answer: Option<(u16, &'static str)>,
    header: Option<String>,
    secs: u64,
    text: String,
)
    requires
        call_ensures(Decision::refusal, (&decision,), answer),
        call_ensures(Decision::retry_after_header, (&decision,), header),
        call_ensures(decimal, (secs,), text),
    ensures
        decision is Forward ==> answer is None && header is None,
        decision is NoClientAddress ==> header is None && (answer matches Some((status, body))
            && status == 403 && body@ == "Rate limiting requires client IP; request rejected."@),
        decision is TooManyRequests ==> header is Some && (answer matches Some((status, body))
            && status == 429 && body@ == "Rate limit exceeded. Please try again later."@),
        decision == (Decision::TooManyRequests { retry_after: secs }) ==> header->0@ == text@,
{
}

} // verus!
