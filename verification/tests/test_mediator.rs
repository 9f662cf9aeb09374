use affinidi_secrets_resolver::secrets::Secret;
use mediator::authority::compute_self_authorities_from;
use mediator::endpoints::publish_endpoints;
use mediator::error::TestMediatorError;
use mediator::identity::did_hash;
use mediator::net::{IpAddress, SocketAddress};
use mediator::peer_services::{mediator_services, PeerServiceEndpoint};
use mediator::settings::{
    AccessListModeType, CleanupConfig, ForwardingConfig, LimitsConfig, MediatorACLSet,
    ProcessorsConfig, RelayMode, SecurityConfig,
};
use mediator::test_mediator::{
    listen_target, peer_keys, service_uri, AdminIdentity, KeyType, PeerKeyRole, Prepared,
    TestMediator, TestMediatorBuilder, TestMediatorHandle, TestMediatorUser,
};

type Builder = TestMediatorBuilder<&'static str, u64>;

fn security() -> SecurityConfig {
    SecurityConfig {
        mediator_acl_mode: AccessListModeType::ExplicitDeny,
        global_acl_default: MediatorACLSet { acl: 1 },
        local_direct_delivery_allowed: false,
        local_direct_delivery_allow_anon: false,
        use_ssl: true,
        ssl_certificate_file: None,
        ssl_key_file: None,
        jwt_access_expiry: 900,
        jwt_refresh_expiry: 86_400,
        block_anonymous_outer_envelope: false,
        force_session_did_match: false,
        block_remote_admin_msgs: false,
        enable_inter_mediator_relay: false,
    }
}

fn limits() -> LimitsConfig {
    LimitsConfig {
        http_size: 10,
        rate_limit_per_ip: 100,
        rate_limit_burst: 50,
        did_rate_limit_per_second: 0,
        did_rate_limit_burst: 10,
        max_websocket_connections_per_did: 100,
        trusted_proxies: vec![],
    }
}

fn processors() -> ProcessorsConfig {
    ProcessorsConfig {
        forwarding: ForwardingConfig {
            enabled: true,
            external_forwarding: true,
            relay_mode: RelayMode::Blind,
            relay_trusted_mediators: vec!["did:example:old".to_string()],
        },
        message_expiry_cleanup: CleanupConfig { enabled: true },
        session_expiry_cleanup: CleanupConfig { enabled: true },
    }
}

fn bound() -> SocketAddress {
    SocketAddress { ip: IpAddress::V4(0x7f00_0001), port: 54321, scope_id: 0 }
}

fn prepared(builder: Builder) -> Prepared<&'static str, u64> {
    builder.prepare(bound(), security(), limits(), processors())
}

fn builder() -> Builder {
    TestMediator::builder()
}

#[test]
fn a_default_mediator_keeps_the_defaults() {
    let p = prepared(builder());
    assert_eq!(p.service_uri, "http://127.0.0.1:54321/mediator/v1/");
    assert_eq!(p.api_prefix, "/mediator/v1/");
    assert!(p.local_endpoints.is_empty() && p.local_dids.is_empty());
    assert_eq!(p.listen_addr, bound());
    assert!(p.admin_did.starts_with("did:key:z6Mk") && p.admin_did.len() == 44);
    assert_eq!(p.security.mediator_acl_mode, AccessListModeType::ExplicitDeny);
    assert_eq!(p.security.global_acl_default, MediatorACLSet { acl: 1 });
    assert!(!p.security.use_ssl);
    assert_eq!((p.security.jwt_access_expiry, p.security.jwt_refresh_expiry), (900, 86_400));
    assert_eq!(p.limits.max_websocket_connections_per_did, 100);
    assert_eq!((p.limits.did_rate_limit_per_second, p.limits.did_rate_limit_burst), (0, 10));
    assert!(!p.processors.forwarding.enabled && p.processors.forwarding.external_forwarding);
    assert_eq!(p.processors.forwarding.relay_mode, RelayMode::Blind);
    assert!(p.processors.forwarding.relay_trusted_mediators.is_empty());
    assert!(!p.processors.message_expiry_cleanup.enabled);
    assert!(p.processors.session_expiry_cleanup.enabled);
    assert!(p.streaming_enabled && p.store.is_none() && p.clock.is_none());
}

#[test]
fn everything_can_be_overridden() {
    let p = prepared(
        builder()
            .store("store")
            .clock(7)
            .enable_forwarding(true)
            .enable_external_forwarding(false)
            .relay_mode(RelayMode::Rewrap)
            .relay_trusted_mediators(vec!["did:example:a".to_string()])
            .relay_trusted_mediators(vec!["did:example:b".to_string()])
            .enable_message_expiry(true)
            .enable_streaming(false)
            .local_did("did:example:c".to_string())
            .local_dids(vec!["did:example:d".to_string(), "did:example:e".to_string()])
            .acl_mode(AccessListModeType::ExplicitAllow)
            .global_acl_default(MediatorACLSet { acl: 2 })
            .enable_inter_mediator_relay(true)
            .max_websocket_connections_per_did(3)
            .did_rate_limit(4, 5)
            .local_direct_delivery(true, true)
            .block_anonymous_outer_envelope(true)
            .force_session_did_match(true)
            .block_remote_admin_msgs(true)
            .jwt_expiry(6, 60),
    );
    assert_eq!((p.store, p.clock), (Some("store"), Some(7)));
    assert!(p.processors.forwarding.enabled && !p.processors.forwarding.external_forwarding);
    assert_eq!(p.processors.forwarding.relay_mode, RelayMode::Rewrap);
    assert_eq!(
        p.processors.forwarding.relay_trusted_mediators,
        vec!["did:example:a", "did:example:b"],
    );
    assert!(p.processors.message_expiry_cleanup.enabled && !p.streaming_enabled);
    assert_eq!(p.local_dids, vec!["did:example:c", "did:example:d", "did:example:e"]);
    assert_eq!(p.security.mediator_acl_mode, AccessListModeType::ExplicitAllow);
    assert_eq!(p.security.global_acl_default, MediatorACLSet { acl: 2 });
    assert!(p.security.enable_inter_mediator_relay);
    assert!(p.security.local_direct_delivery_allowed);
    assert!(p.security.local_direct_delivery_allow_anon);
    assert!(p.security.block_anonymous_outer_envelope);
    assert!(p.security.force_session_did_match && p.security.block_remote_admin_msgs);
    assert_eq!((p.security.jwt_access_expiry, p.security.jwt_refresh_expiry), (6, 60));
    assert_eq!(p.limits.max_websocket_connections_per_did, 3);
    assert_eq!((p.limits.did_rate_limit_per_second, p.limits.did_rate_limit_burst), (4, 5));
    assert_eq!((p.limits.http_size, p.limits.rate_limit_per_ip), (10, 100));
}

#[test]
fn an_advertised_host_is_local() {
    let anywhere = SocketAddress { ip: IpAddress::V4(0), port: 54321, scope_id: 0 };
    let p = builder()
        .listen_addr(anywhere)
        .local_endpoints(vec!["https://mediator.example.com".to_string()])
        .advertise_host("host.docker.internal".to_string())
        .prepare(anywhere, security(), limits(), processors());
    assert_eq!(p.service_uri, "http://host.docker.internal:54321/mediator/v1/");
    assert_eq!(
        p.local_endpoints,
        vec![
            "https://mediator.example.com",
            "http://host.docker.internal:54321/mediator/v1/",
        ],
    );
    let set = compute_self_authorities_from("0.0.0.0:54321", &p.local_endpoints);
    assert!(set.contains("host.docker.internal", 54321));
    assert!(set.contains("mediator.example.com", 443));
    assert!(set.contains("0.0.0.0", 54321));
    // The bound address does not show in what the DID advertises.
    for service in mediator_services(&p.service_uri) {
        assert!(!format!("{service:?}").contains("0.0.0.0"));
    }
}

#[test]
fn service_uris_follow_the_bound_address() {
    let v6 = SocketAddress { ip: IpAddress::V6(1), port: 80, scope_id: 0 };
    assert_eq!(service_uri(v6, &None), "http://[::1]:80/mediator/v1/");
    assert_eq!(service_uri(v6, &Some("h".to_string())), "http://h:80/mediator/v1/");
}

#[test]
fn a_given_administrator_is_kept() {
    let identity = AdminIdentity { did: "did:peer:2.admin".to_string(), secrets: vec![] };
    let p = prepared(builder().admin_identity(identity));
    assert_eq!(p.admin_did, "did:peer:2.admin");
}

#[test]
fn the_loopback_address_is_the_default_target() {
    assert_eq!(
        listen_target(None),
        SocketAddress { ip: IpAddress::V4(0x7f00_0001), port: 0, scope_id: 0 },
    );
    assert_eq!(listen_target(Some(bound())), bound());
}

#[test]
fn generated_identities_become_users_and_administrators() {
    let secrets: Vec<Secret> = vec![Secret::generate_ed25519(None, None)];
    let user: Result<TestMediatorUser, TestMediatorError<()>> = TestMediatorUser::from_generated(
        "alice".to_string(),
        Ok(("did:peer:2.alice".to_string(), secrets.clone())),
    );
    let user = user.unwrap();
    assert_eq!((user.did.as_str(), user.alias.as_str()), ("did:peer:2.alice", "alice"));
    assert_eq!(user.secrets.len(), 1);
    assert_eq!(user.did_hash(), did_hash("did:peer:2.alice"));
    let admin: Result<AdminIdentity, TestMediatorError<()>> =
        TestMediator::random_admin_identity(Ok(("did:peer:2.admin".to_string(), secrets)));
    assert_eq!(admin.unwrap().did, "did:peer:2.admin");
}

#[test]
fn identities_that_were_not_generated_are_errors() {
    let user: Result<TestMediatorUser, TestMediatorError<()>> =
        TestMediatorUser::from_generated("alice".to_string(), Err("no".to_string()));
    assert!(matches!(user, Err(TestMediatorError::DidGeneration(t)) if t == "no"));
    let admin: Result<AdminIdentity, TestMediatorError<()>> =
        TestMediator::random_admin_identity(Err("no".to_string()));
    match admin {
        Err(e) => assert_eq!(e.message(""), "did:peer generation failed: no"),
        Ok(_) => panic!("generated"),
    }
}

#[test]
fn errors_have_a_text() {
    let text = || "x".to_string();
    let errors: Vec<(TestMediatorError<u8>, &str)> = vec![
        (TestMediatorError::DidGeneration(text()), "did:peer generation failed: x"),
        (TestMediatorError::Bind(text()), "listener bind failed: x"),
        (TestMediatorError::JwtKey(text()), "JWT key generation failed: x"),
        (TestMediatorError::Mediator(1), "inner"),
        (TestMediatorError::Acl(text()), "ACL operation failed: x"),
    ];
    for (error, expected) in errors {
        assert_eq!(error.message("inner"), expected);
    }
}

#[test]
fn identities_have_two_keys() {
    assert_eq!(
        peer_keys(),
        vec![
            (PeerKeyRole::Verification, KeyType::Ed25519),
            (PeerKeyRole::Encryption, KeyType::X25519),
        ],
    );
}

#[test]
fn services_of_the_bound_address() {
    let services = mediator_services("http://127.0.0.1:0/mediator/v1/");
    assert_eq!(services.len(), 2);
    assert_eq!(services[0].type_, "dm");
    assert_eq!(services[0].id, None);
    match &services[0].endpoint {
        PeerServiceEndpoint::Long(endpoints) => {
            assert_eq!(endpoints[0].uri, "http://127.0.0.1:0/mediator/v1");
            assert_eq!(endpoints[1].uri, "ws://127.0.0.1:0/mediator/v1/ws");
            assert_eq!(endpoints[0].accept, vec!["didcomm/v2"]);
            assert!(endpoints[1].routing_keys.is_empty());
        }
        PeerServiceEndpoint::Uri(uri) => panic!("{uri}"),
    }
    assert_eq!(services[1].type_, "Authentication");
    assert_eq!(services[1].id.as_deref(), Some("#auth"));
    match &services[1].endpoint {
        PeerServiceEndpoint::Uri(uri) => {
            assert_eq!(uri, "http://127.0.0.1:0/mediator/v1/authenticate");
        }
        PeerServiceEndpoint::Long(_) => panic!("long"),
    }
}

#[test]
fn handles_show_what_runs() {
    let handle = TestMediatorHandle {
        endpoints: publish_endpoints(false, bound(), "/mediator/v1").unwrap(),
        bound_addr: bound(),
        mediator_did: "did:peer:2.mediator".to_string(),
        admin_did: "did:peer:2.admin".to_string(),
        mediator_secrets: vec![],
    };
    assert_eq!(handle.endpoint().href, "http://127.0.0.1:54321/mediator/v1/");
    assert_eq!(handle.ws_endpoint().href, "ws://127.0.0.1:54321/mediator/v1/ws");
    assert_eq!(handle.bound_addr(), bound());
    assert_eq!(handle.did(), "did:peer:2.mediator");
    assert_eq!(handle.admin_did(), "did:peer:2.admin");
    assert!(handle.mediator_secrets().is_empty());
}
