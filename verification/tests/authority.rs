use mediator::authority::{
    collect_authorities, compute_self_authorities_from, default_port_for, is_skipped,
    normalize_host, skipped_endpoints, wildcard_without_endpoints, SelfAuthorities, UrlParts,
};
use mediator::net::{IpAddress, SocketAddress};

fn strings(texts: &[&str]) -> Vec<String> {
    texts.iter().map(|t| t.to_string()).collect()
}

fn url(scheme: &str, host: Option<&str>, port: Option<u16>) -> UrlParts {
    UrlParts {
        href: String::new(),
        scheme: scheme.to_string(),
        host: host.map(|h| h.to_string()),
        port,
    }
}

#[test]
fn hosts_are_lower_cased_and_lose_their_brackets() {
    assert_eq!(normalize_host("Mediator.Example.COM"), "mediator.example.com");
    assert_eq!(normalize_host("[::1]"), "::1");
    assert_eq!(normalize_host("[2001:DB8::A]"), "2001:db8::a");
    assert_eq!(normalize_host("["), "[");
    assert_eq!(normalize_host("[]"), "");
    assert_eq!(normalize_host("[::1"), "[::1");
    assert_eq!(normalize_host(""), "");
}

#[test]
fn ports_default_by_scheme() {
    assert_eq!(default_port_for(&url("http", None, None)), Some(80));
    assert_eq!(default_port_for(&url("ws", None, None)), Some(80));
    assert_eq!(default_port_for(&url("https", None, None)), Some(443));
    assert_eq!(default_port_for(&url("wss", None, None)), Some(443));
    assert_eq!(default_port_for(&url("ftp", None, None)), None);
    assert_eq!(default_port_for(&url("ftp", None, Some(2121))), Some(2121));
}

#[test]
fn bind_address_is_always_included() {
    let set = compute_self_authorities_from("127.0.0.1:7037", &strings(&[]));
    assert_eq!(set.len(), 1);
    assert!(set.contains("127.0.0.1", 7037));
    let set = compute_self_authorities_from("0.0.0.0:80", &strings(&[]));
    assert!(set.contains("0.0.0.0", 80));
    let set = compute_self_authorities_from("[::1]:8080", &strings(&[]));
    assert!(set.contains("::1", 8080));
}

#[test]
fn endpoints_add_their_authorities() {
    let set = compute_self_authorities_from(
        "127.0.0.1:7037",
        &strings(&[
            "https://Mediator.Example.com/mediator/v1",
            "http://[::1]/",
            "wss://mediator.example.com:8443/ws",
        ]),
    );
    assert_eq!(set.len(), 4);
    assert!(set.contains("mediator.example.com", 443));
    assert!(set.contains("::1", 80));
    assert!(set.contains("mediator.example.com", 8443));
    assert!(!set.contains("mediator.example.com", 80));
}

#[test]
fn the_same_authority_counts_once() {
    let set = compute_self_authorities_from(
        "127.0.0.1:80",
        &strings(&["http://127.0.0.1/", "ws://127.0.0.1:80/x", "HTTP://127.0.0.1"]),
    );
    assert_eq!(set.len(), 1);
}

#[test]
fn malformed_entries_are_skipped() {
    let set = compute_self_authorities_from(
        "not an address",
        &strings(&["not a url", "mailto:someone@example.com", "ftp://example.com/"]),
    );
    assert_eq!(set.len(), 0);
}

#[test]
fn collected_without_parsing() {
    let bind = Some(SocketAddress { ip: IpAddress::V4(0x0a00_0001), port: 9, scope_id: 0 });
    let set = collect_authorities(
        bind,
        &vec![
            None,
            Some(url("https", Some("A.b"), None)),
            Some(url("https", None, None)),
            Some(url("gopher", Some("c"), None)),
        ],
    );
    assert_eq!(set.len(), 2);
    assert!(set.contains("10.0.0.1", 9));
    assert!(set.contains("a.b", 443));
}

#[test]
fn sets_grow_by_what_is_new() {
    let mut set = SelfAuthorities::new();
    assert_eq!(set.len(), 0);
    set.insert("a".to_string(), 1);
    set.insert("a".to_string(), 2);
    set.insert("a".to_string(), 1);
    assert_eq!(set.len(), 2);
    assert!(set.contains("a", 1) && set.contains("a", 2) && !set.contains("b", 1));
}

#[test]
fn wildcard_binds_need_endpoints() {
    assert!(wildcard_without_endpoints("0.0.0.0:80", &strings(&[])));
    assert!(wildcard_without_endpoints("[::]:80", &strings(&[])));
    assert!(!wildcard_without_endpoints("127.0.0.1:80", &strings(&[])));
    assert!(!wildcard_without_endpoints("0.0.0.0:80", &strings(&["https://a"])));
    assert!(!wildcard_without_endpoints("junk", &strings(&[])));
}

#[test]
fn skipped_entries_can_be_told() {
    assert_eq!(
        skipped_endpoints(&strings(&[
            "https://a.example",
            "not a url",
            "mailto:someone@example.com",
            "http://b.example:81/",
            "ftp://example.com/",
        ])),
        vec!["not a url", "mailto:someone@example.com", "ftp://example.com/"],
    );
    assert!(skipped_endpoints(&[]).is_empty());
    assert!(is_skipped(&None));
    assert!(is_skipped(&Some(url("https", None, None))));
    assert!(!is_skipped(&Some(url("https", Some("a"), None))));
}
