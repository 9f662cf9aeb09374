use mediator::endpoints::{
    endpoints_of, join_api_path, publish_endpoints, server_error, system_routes,
};
use mediator::error::MediatorError;
use mediator::net::{IpAddress, SocketAddress};

fn bound() -> SocketAddress {
    SocketAddress { ip: IpAddress::V4(0x7f00_0001), port: 54321, scope_id: 0 }
}

#[test]
fn endpoints_over_plain_http() {
    let urls = publish_endpoints(false, bound(), "/mediator/v1").unwrap();
    assert_eq!(urls.http.href, "http://127.0.0.1:54321/mediator/v1/");
    assert_eq!(urls.ws.href, "ws://127.0.0.1:54321/mediator/v1/ws");
    assert_eq!(urls.http.host.as_deref(), Some("127.0.0.1"));
    assert_eq!(urls.http.port, Some(54321));
    assert_eq!(urls.ws.scheme, "ws");
}

#[test]
fn endpoints_over_tls_without_a_prefix() {
    let v6 = SocketAddress { ip: IpAddress::V6(1), port: 443, scope_id: 0 };
    let urls = publish_endpoints(true, v6, "").unwrap();
    assert_eq!(urls.http.href, "https://[::1]/");
    assert_eq!(urls.ws.href, "wss://[::1]/ws");
    assert_eq!(urls.http.port, None);
}

#[test]
fn an_address_that_no_url_can_hold_is_an_error() {
    let scoped = SocketAddress { ip: IpAddress::V6(1), port: 80, scope_id: 7 };
    assert!(matches!(
        publish_endpoints(false, scoped, ""),
        Err(MediatorError::InternalError(17, _, text))
            if text.starts_with("Failed to build http endpoint URL: ")
    ));
}

#[test]
fn either_endpoint_can_fail() {
    let urls = publish_endpoints(false, bound(), "").unwrap();
    assert!(matches!(
        endpoints_of(Err("a".to_string()), Err("b".to_string())),
        Err(MediatorError::InternalError(17, _, t)) if t == "Failed to build http endpoint URL: a"
    ));
    assert!(matches!(
        endpoints_of(Ok(urls.http), Err("b".to_string())),
        Err(MediatorError::InternalError(17, _, t)) if t == "Failed to build ws endpoint URL: b"
    ));
}

#[test]
fn paths_are_joined_by_one_slash() {
    assert_eq!(join_api_path("", "ws"), "/ws");
    assert_eq!(join_api_path("/foo", "ws"), "/foo/ws");
    assert_eq!(join_api_path("/foo/", "/ws"), "/foo/ws");
    assert_eq!(join_api_path("/foo//", "//ws"), "/foo/ws");
}

#[test]
fn system_routes_stand_under_the_prefix() {
    assert_eq!(
        system_routes("/mediator/v1", true),
        vec![
            "/mediator/v1/healthchecker",
            "/mediator/v1/readyz",
            "/mediator/v1/livez",
            "/mediator/v1/admin/status",
            "/mediator/v1/metrics",
        ],
    );
    assert_eq!(system_routes("", false).len(), 4);
    assert_eq!(system_routes("", false)[0], "/healthchecker");
}

#[test]
fn server_errors_are_worded() {
    assert!(matches!(
        server_error(false, "gone"),
        MediatorError::InternalError(17, s, t) if s == "NA" && t == "HTTP server error: gone"
    ));
    assert!(matches!(
        server_error(true, "gone"),
        MediatorError::InternalError(17, _, t) if t == "HTTPS server error: gone"
    ));
}
