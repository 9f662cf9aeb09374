use mediator::limiter::Wait;
use mediator::net::{IpAddress, IpNet};
use mediator::rate_limiter::{
    decide, ip_is_trusted, parse_hops, resolve_client_ip, retry_after_secs, walk_hops, Decision,
    RateLimiterState,
};

fn net(cidr: &str) -> (IpAddress, u8) {
    match cidr.parse::<ipnet::IpNet>().unwrap() {
        ipnet::IpNet::V4(n) => (IpAddress::V4(u32::from(n.addr())), n.prefix_len()),
        ipnet::IpNet::V6(n) => (IpAddress::V6(u128::from(n.addr())), n.prefix_len()),
    }
}

fn ip(s: &str) -> IpAddress {
    let width = if s.contains(':') { 128 } else { 32 };
    net(&format!("{s}/{width}")).0
}

fn nets(cidrs: &[&str]) -> Vec<IpNet> {
    cidrs
        .iter()
        .map(|c| {
            let (addr, prefix_len) = net(c);
            IpNet::new(addr, prefix_len).unwrap()
        })
        .collect()
}

#[test]
fn no_trusted_proxies_uses_peer_and_ignores_xff() {
    let trusted = nets(&[]);
    assert_eq!(
        resolve_client_ip(ip("203.0.113.9"), Some("1.2.3.4"), &trusted),
        ip("203.0.113.9"),
    );
}

#[test]
fn untrusted_peer_cannot_spoof_via_xff() {
    let trusted = nets(&["10.0.0.0/8"]);
    assert_eq!(
        resolve_client_ip(ip("203.0.113.9"), Some("198.51.100.7"), &trusted),
        ip("203.0.113.9"),
        "XFF from an untrusted peer must never be honored",
    );
}

#[test]
fn trusted_peer_takes_appended_client_ip() {
    let trusted = nets(&["10.0.0.0/8"]);
    assert_eq!(
        resolve_client_ip(ip("10.1.2.3"), Some("198.51.100.7"), &trusted),
        ip("198.51.100.7"),
    );
}

#[test]
fn trusted_peer_skips_trusted_hops_right_to_left() {
    let trusted = nets(&["10.0.0.0/8"]);
    assert_eq!(
        resolve_client_ip(ip("10.9.9.9"), Some("198.51.100.7, 10.0.0.1, 10.0.0.2"), &trusted),
        ip("198.51.100.7"),
    );
}

#[test]
fn attacker_prepended_value_is_never_reached() {
    let trusted = nets(&["10.0.0.0/8"]);
    assert_eq!(
        resolve_client_ip(ip("10.0.0.1"), Some("198.51.100.7, 203.0.113.42"), &trusted),
        ip("203.0.113.42"),
        "the appended (rightmost untrusted) client wins; spoofed left value ignored",
    );
}

#[test]
fn malformed_xff_fails_safe_to_peer() {
    let trusted = nets(&["10.0.0.0/8"]);
    assert_eq!(
        resolve_client_ip(ip("10.0.0.1"), Some("not-an-ip"), &trusted),
        ip("10.0.0.1"),
    );
}

#[test]
fn trusted_peer_no_xff_uses_peer() {
    let trusted = nets(&["10.0.0.0/8"]);
    assert_eq!(resolve_client_ip(ip("10.0.0.1"), None, &trusted), ip("10.0.0.1"));
}

#[test]
fn all_trusted_chain_falls_back_to_peer() {
    let trusted = nets(&["10.0.0.0/8"]);
    assert_eq!(
        resolve_client_ip(ip("10.0.0.1"), Some("10.0.0.2, 10.0.0.3"), &trusted),
        ip("10.0.0.1"),
    );
}

#[test]
fn ipv6_trusted_proxy_range_matches() {
    let trusted = nets(&["2001:db8::/32"]);
    assert_eq!(
        resolve_client_ip(ip("2001:db8::1"), Some("198.51.100.7"), &trusted),
        ip("198.51.100.7"),
    );
    assert_eq!(
        resolve_client_ip(ip("2001:dead::1"), Some("198.51.100.7"), &trusted),
        ip("2001:dead::1"),
    );
}

#[test]
fn malformed_hop_on_the_left_is_not_reached() {
    let trusted = nets(&["10.0.0.0/8"]);
    assert_eq!(
        resolve_client_ip(ip("10.0.0.1"), Some("junk, 203.0.113.42"), &trusted),
        ip("203.0.113.42"),
    );
    assert_eq!(
        resolve_client_ip(ip("10.0.0.1"), Some("203.0.113.42, junk"), &trusted),
        ip("10.0.0.1"),
    );
}

#[test]
fn empty_header_falls_back_to_peer() {
    let trusted = nets(&["10.0.0.0/8"]);
    assert_eq!(resolve_client_ip(ip("10.0.0.1"), Some(""), &trusted), ip("10.0.0.1"));
}

#[test]
fn hops_are_trimmed_and_parsed() {
    assert_eq!(
        parse_hops(" 1.2.3.4 ,x,\t2001:db8::1"),
        vec![Some(ip("1.2.3.4")), None, Some(ip("2001:db8::1"))],
    );
}

#[test]
fn hops_are_walked_from_the_right() {
    let trusted = nets(&["10.0.0.0/8"]);
    let hops = vec![Some(ip("1.1.1.1")), Some(ip("2.2.2.2")), Some(ip("10.0.0.9"))];
    assert_eq!(walk_hops(ip("10.0.0.1"), &hops, &trusted), ip("2.2.2.2"));
    assert_eq!(walk_hops(ip("10.0.0.1"), &vec![None], &trusted), ip("10.0.0.1"));
}

#[test]
fn networks_do_not_mix_families() {
    let trusted = nets(&["0.0.0.0/0"]);
    assert!(ip_is_trusted(ip("255.255.255.255"), &trusted));
    assert!(!ip_is_trusted(ip("::1"), &trusted));
    assert!(ip_is_trusted(ip("192.168.7.7"), &nets(&["192.168.7.7/32"])));
    assert!(!ip_is_trusted(ip("192.168.7.8"), &nets(&["192.168.7.7/32"])));
}

#[test]
fn prefix_longer_than_the_address_is_refused() {
    assert!(IpNet::new(IpAddress::V4(0), 33).is_none());
    assert!(IpNet::new(IpAddress::V6(0), 129).is_none());
    assert!(IpNet::new(IpAddress::V6(0), 128).is_some());
}

#[test]
fn waits_are_rounded_up_to_at_least_a_second() {
    assert_eq!(retry_after_secs(Wait { secs: 0, subsec_nanos: 0 }), 1);
    assert_eq!(retry_after_secs(Wait { secs: 0, subsec_nanos: 1 }), 1);
    assert_eq!(retry_after_secs(Wait { secs: 1, subsec_nanos: 0 }), 1);
    assert_eq!(retry_after_secs(Wait { secs: 1, subsec_nanos: 1 }), 2);
    assert_eq!(retry_after_secs(Wait { secs: u64::MAX, subsec_nanos: 1 }), u64::MAX);
}

#[test]
fn refusals_have_a_status_and_a_text() {
    assert_eq!(decide(Ok(())), Decision::Forward);
    let over = decide(Err(Wait { secs: 3, subsec_nanos: 5 }));
    assert_eq!(over, Decision::TooManyRequests { retry_after: 4 });
    assert_eq!(
        over.refusal(),
        Some((429, "Rate limit exceeded. Please try again later.")),
    );
    assert_eq!(over.retry_after_header(), Some("4".to_string()));
    assert_eq!(
        Decision::NoClientAddress.refusal(),
        Some((403, "Rate limiting requires client IP; request rejected.")),
    );
    assert_eq!(Decision::NoClientAddress.retry_after_header(), None);
    assert_eq!(Decision::Forward.refusal(), None);
}

#[test]
fn disabled_state_forwards_everything() {
    let mut state = RateLimiterState::new(0, 5, nets(&[]));
    for _ in 0..100 {
        assert_eq!(state.decide_request(Some(ip("1.2.3.4")), None), Decision::Forward);
    }
    assert_eq!(state.decide_request(None, None), Decision::Forward);
}

#[test]
fn enabled_state_needs_a_client_address() {
    let mut state = RateLimiterState::new(1, 5, nets(&[]));
    assert_eq!(state.decide_request(None, Some("1.2.3.4")), Decision::NoClientAddress);
}

#[test]
fn clients_behind_a_proxy_are_limited_one_by_one() {
    let mut state = RateLimiterState::new(1, 1, nets(&["10.0.0.0/8"]));
    let edge = Some(ip("10.0.0.1"));
    assert_eq!(state.decide_request(edge, Some("1.1.1.1")), Decision::Forward);
    assert_eq!(
        state.decide_request(edge, Some("1.1.1.1")),
        Decision::TooManyRequests { retry_after: 1 },
    );
    assert_eq!(state.decide_request(edge, Some("2.2.2.2")), Decision::Forward);
    // A spoofed value to the left does not buy another bucket.
    assert_eq!(
        state.decide_request(edge, Some("9.9.9.9, 2.2.2.2")),
        Decision::TooManyRequests { retry_after: 1 },
    );
}

#[test]
fn whatever_is_sent_before_the_appended_hops_is_ignored() {
    let trusted = nets(&["10.0.0.0/8"]);
    let peer = ip("10.0.0.1");
    for appended in ["203.0.113.42, 10.0.0.2", "junk, 10.0.0.2", "1.1.1.1, 203.0.113.42"] {
        let alone = resolve_client_ip(peer, Some(appended), &trusted);
        for sent in ["198.51.100.7", "junk", "", "10.0.0.3, 198.51.100.7"] {
            let header = format!("{sent},{appended}");
            assert_eq!(resolve_client_ip(peer, Some(&header), &trusted), alone);
        }
    }
}

#[test]
fn refused_clients_are_told_to_wait_a_second() {
    for per_second in [1, 3, 1000] {
        let mut state = RateLimiterState::new(per_second, 1, nets(&[]));
        let client = Some(ip("1.2.3.4"));
        assert_eq!(state.decide_request(client, None), Decision::Forward);
        for _ in 0..50 {
            match state.decide_request(client, None) {
                Decision::Forward => {}
                refused => assert_eq!(refused, Decision::TooManyRequests { retry_after: 1 }),
            }
        }
    }
}
