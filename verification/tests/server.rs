use mediator::accounts::AccountType;
use mediator::error::MediatorError;
use mediator::net::{IpAddress, IpNet, SocketAddress};
use mediator::rate_limiter::Decision;
use mediator::server::{
    admin_account, compute_self_authorities, discover_protocols, limiters, plan_serve,
    program_options, serve_internal, start, sweep_time, Features, StartOpts,
};
use mediator::settings::{
    AccessListModeType, CleanupConfig, Config, DatabaseConfig, ForwardingConfig, LimitsConfig,
    MediatorACLSet, ProcessorsConfig, RelayMode, SecurityConfig, StorageConfig,
};
use mediator::startup::{Plan, Step, Task};

fn config() -> Config {
    Config {
        listen_address: "127.0.0.1:7037".to_string(),
        local_endpoints: vec![],
        api_prefix: "/mediator/v1".to_string(),
        mediator_did: "did:example:mediator".to_string(),
        mediator_did_hash: "hash".to_string(),
        admin_did: String::new(),
        security: SecurityConfig {
            mediator_acl_mode: AccessListModeType::ExplicitDeny,
            global_acl_default: MediatorACLSet { acl: 42 },
            local_direct_delivery_allowed: false,
            local_direct_delivery_allow_anon: false,
            use_ssl: false,
            ssl_certificate_file: None,
            ssl_key_file: None,
            jwt_access_expiry: 900,
            jwt_refresh_expiry: 86_400,
            block_anonymous_outer_envelope: false,
            force_session_did_match: true,
            block_remote_admin_msgs: true,
            enable_inter_mediator_relay: false,
        },
        limits: LimitsConfig {
            http_size: 10_485_760,
            rate_limit_per_ip: 100,
            rate_limit_burst: 50,
            did_rate_limit_per_second: 0,
            did_rate_limit_burst: 10,
            max_websocket_connections_per_did: 100,
            trusted_proxies: vec![],
        },
        processors: ProcessorsConfig {
            forwarding: ForwardingConfig {
                enabled: false,
                external_forwarding: true,
                relay_mode: RelayMode::Blind,
                relay_trusted_mediators: vec![],
            },
            message_expiry_cleanup: CleanupConfig { enabled: false },
            session_expiry_cleanup: CleanupConfig { enabled: false },
        },
        storage: None,
        database: DatabaseConfig {
            functions_file: Some("scripts.lua".to_string()),
            circuit_breaker_threshold: 5,
            circuit_breaker_recovery_secs: 30,
        },
        streaming_enabled: false,
        streaming_uuid: String::new(),
        vta_linked: false,
        has_did_document: false,
        mediator_did_doc: None,
    }
}

const ALL: Features = Features { redis: true, fjall: true, tsp: true };

const NONE: Features = Features { redis: false, fjall: false, tsp: false };

const QUIET: StartOpts =
    StartOpts { tls: false, install_tracing: false, install_signal_handlers: false };

fn storage(backend: &str, data_dir: Option<&str>) -> Option<StorageConfig> {
    Some(StorageConfig {
        backend: backend.to_string(),
        data_dir: data_dir.map(|d| d.to_string()),
    })
}

fn refusal(plan: &Plan) -> &str {
    match &plan.refusal {
        Some(MediatorError::ConfigError(12, session, text)) if session == "NA" => text,
        other => panic!("{other:?}"),
    }
}

fn bound() -> SocketAddress {
    SocketAddress { ip: IpAddress::V4(0x7f00_0001), port: 7037, scope_id: 0 }
}

#[test]
fn a_plain_program_serves_and_joins() {
    let plan = start(&config(), ALL);
    assert_eq!(plan.steps, vec![Step::Serve, Step::Join]);
    assert!(plan.refusal.is_none());
    let opts = program_options(&config());
    assert!(!opts.tls && !opts.install_tracing && opts.install_signal_handlers);
}

#[test]
fn tls_needs_a_certificate_and_a_key() {
    let mut c = config();
    c.security.use_ssl = true;
    let plan = start(&c, ALL);
    assert_eq!(plan.steps, vec![Step::InstallCryptoProvider]);
    assert_eq!(refusal(&plan), "SSL Certificate file must be specified in the config");
    c.security.ssl_certificate_file = Some("cert.pem".to_string());
    assert_eq!(
        refusal(&start(&c, ALL)),
        "SSL Certificate key file must be specified in the config",
    );
    c.security.ssl_key_file = Some("key.pem".to_string());
    assert_eq!(
        start(&c, ALL).steps,
        vec![Step::InstallCryptoProvider, Step::LoadTls, Step::Serve, Step::Join],
    );
    assert!(program_options(&c).tls);
}

#[test]
fn storage_backends_are_told_apart() {
    let mut c = config();
    c.storage = storage("redis", None);
    assert_eq!(start(&c, NONE).steps, vec![Step::Serve, Step::Join]);
    c.storage = storage("fjall", Some("/data"));
    assert_eq!(start(&c, ALL).steps, vec![Step::OpenFjall, Step::Serve, Step::Join]);
    assert_eq!(
        refusal(&start(&c, NONE)),
        "[storage] backend = \"fjall\" but the `fjall-backend` feature is not compiled in. \
         Rebuild the mediator with --features fjall-backend or switch to backend = \"redis\"",
    );
    c.storage = storage("fjall", None);
    assert_eq!(
        refusal(&start(&c, ALL)),
        "[storage] backend = \"fjall\" requires `data_dir`",
    );
    c.storage = storage("sled", None);
    assert_eq!(
        refusal(&start(&c, ALL)),
        "[storage] backend = \"sled\" is not supported. Use \"redis\" or \"fjall\".",
    );
}

#[test]
fn a_quiet_mediator_over_a_prebuilt_store() {
    let plan = serve_internal(&config(), QUIET, NONE, true);
    assert_eq!(
        plan.steps,
        vec![
            Step::InitializeStore,
            Step::InitMetrics,
            Step::Spawn(Task::Statistics),
            Step::CreateResolver,
            Step::BuildService,
            Step::Bind(bound()),
            Step::SetNonblocking,
            Step::ReadBoundAddress,
            Step::DrainOnShutdown,
            Step::ServeListener { tls: false },
            Step::PublishEndpoints,
        ],
    );
    assert!(plan.refusal.is_none());
}

#[test]
fn a_mediator_with_everything_turned_on() {
    let mut c = config();
    c.admin_did = "did:example:admin".to_string();
    c.processors.forwarding.enabled = true;
    c.processors.message_expiry_cleanup.enabled = true;
    c.processors.session_expiry_cleanup.enabled = true;
    c.vta_linked = true;
    c.streaming_enabled = true;
    c.has_did_document = true;
    c.mediator_did_doc = Some("{}".to_string());
    c.limits.did_rate_limit_per_second = 5;
    let opts = StartOpts { tls: true, install_tracing: true, install_signal_handlers: true };
    let plan = serve_internal(&c, opts, ALL, false);
    assert_eq!(
        plan.steps,
        vec![
            Step::InstallTracing,
            Step::OpenDatabase,
            Step::InitializeDatabase,
            Step::LoadScripts,
            Step::SetupAdmin,
            Step::HandleSignals,
            Step::InitMetrics,
            Step::Spawn(Task::Statistics),
            Step::Spawn(Task::ForwardingProcessor),
            Step::Spawn(Task::MessageExpirySweep),
            Step::Spawn(Task::SessionExpirySweep),
            Step::Spawn(Task::VtaRefresh),
            Step::StartStreaming,
            Step::CreateResolver,
            Step::AdvertiseTsp,
            Step::PreloadDocument,
            Step::BuildService,
            Step::Spawn(Task::DidRateLimitSweep),
            Step::Bind(bound()),
            Step::SetNonblocking,
            Step::ReadBoundAddress,
            Step::DrainOnShutdown,
            Step::ServeListener { tls: true },
            Step::PublishEndpoints,
        ],
    );
}

#[test]
fn forwarding_needs_both_switches() {
    let mut c = config();
    c.processors.forwarding.enabled = true;
    c.processors.forwarding.external_forwarding = false;
    let plan = serve_internal(&c, QUIET, ALL, true);
    assert!(!plan.steps.contains(&Step::Spawn(Task::ForwardingProcessor)));
    c.processors.forwarding.enabled = false;
    c.processors.forwarding.external_forwarding = true;
    let plan = serve_internal(&c, QUIET, ALL, true);
    assert!(!plan.steps.contains(&Step::Spawn(Task::ForwardingProcessor)));
}

#[test]
fn a_served_document_is_preloaded_where_no_parsed_one_is() {
    let mut c = config();
    c.mediator_did_doc = Some("{}".to_string());
    let plan = serve_internal(&c, QUIET, ALL, true);
    assert!(plan.steps.contains(&Step::PreloadServedDocument));
    assert!(!plan.steps.contains(&Step::PreloadDocument));
}

#[test]
fn the_database_needs_its_scripts() {
    let mut c = config();
    c.database.functions_file = None;
    let plan = serve_internal(&c, QUIET, ALL, false);
    assert_eq!(plan.steps, vec![Step::OpenDatabase, Step::InitializeDatabase]);
    assert_eq!(
        refusal(&plan),
        "LUA scripts file is required but not specified in the configuration",
    );
}

#[test]
fn some_store_is_needed() {
    let plan = serve_internal(&config(), QUIET, NONE, false);
    assert!(plan.steps.is_empty());
    assert_eq!(
        refusal(&plan),
        "no pre-built store supplied and `redis-backend` feature is disabled — \
         either enable `redis-backend` or pass MediatorBuilder::store(...)",
    );
}

#[test]
fn the_listen_address_must_parse() {
    let mut c = config();
    c.listen_address = "nowhere".to_string();
    let plan = serve_internal(&c, QUIET, ALL, true);
    assert_eq!(plan.steps.last(), Some(&Step::BuildService));
    assert_eq!(
        refusal(&plan),
        "Invalid listen_address 'nowhere': invalid socket address syntax",
    );
    let plan = plan_serve(&c, QUIET, ALL, true, &Err("odd".to_string()));
    assert_eq!(refusal(&plan), "Invalid listen_address 'nowhere': odd");
    let plan = plan_serve(&c, QUIET, ALL, true, &Ok(bound()));
    assert!(plan.steps.contains(&Step::Bind(bound())) && plan.refusal.is_none());
}

#[test]
fn the_administrator_is_known_by_a_hash() {
    assert!(admin_account(&config()).is_none());
    let mut c = config();
    c.admin_did = "hello".to_string();
    let account = admin_account(&c).unwrap();
    assert_eq!(
        account.did_hash,
        "2cf24dba5fb0a30e26e83b2ac5b9e29e1b161e5c1fa7425e73043362938b9824",
    );
    assert_eq!(account.account_type, AccountType::RootAdmin);
    assert_eq!(account.acls, MediatorACLSet { acl: 42 });
}

#[test]
fn own_authorities_come_from_the_configuration() {
    let mut c = config();
    c.local_endpoints = vec!["https://mediator.example.com".to_string()];
    let set = compute_self_authorities(&c);
    assert_eq!(set.len(), 2);
    assert!(set.contains("127.0.0.1", 7037) && set.contains("mediator.example.com", 443));
}

#[test]
fn sweeps_never_go_before_the_epoch() {
    assert_eq!(sweep_time(-1), 0);
    assert_eq!(sweep_time(0), 0);
    assert_eq!(sweep_time(1_700_000_000), 1_700_000_000);
    assert_eq!(sweep_time(i64::MAX), i64::MAX as u64);
}

#[test]
fn ten_protocols_are_disclosed() {
    let protocols = discover_protocols();
    assert_eq!(protocols.len(), 10);
    assert_eq!(protocols[1], "https://didcomm.org/routing/2.0");
    assert_eq!(protocols[5], "https://affinidi.com/atm/1.0/authenticate");
}

#[test]
fn limiters_come_from_the_configuration() {
    let mut c = config();
    c.limits.rate_limit_per_ip = 1;
    c.limits.rate_limit_burst = 1;
    c.limits.did_rate_limit_per_second = 1;
    c.limits.did_rate_limit_burst = 2;
    c.limits.trusted_proxies = vec![IpNet::new(IpAddress::V4(0x0a00_0000), 8).unwrap()];
    let (mut by_address, mut by_did) = limiters(&c);
    let proxy = Some(IpAddress::V4(0x0a01_0203));
    let stranger = Some(IpAddress::V4(0xcb00_7109));
    // The header counts from a configured proxy.
    assert_eq!(by_address.decide_request(proxy, Some("1.1.1.1")), Decision::Forward);
    assert_eq!(by_address.decide_request(proxy, Some("2.2.2.2")), Decision::Forward);
    assert_ne!(by_address.decide_request(proxy, Some("2.2.2.2")), Decision::Forward);
    // From anybody else it does not.
    assert_eq!(by_address.decide_request(stranger, Some("3.3.3.3")), Decision::Forward);
    assert_ne!(by_address.decide_request(stranger, Some("4.4.4.4")), Decision::Forward);
    assert!(by_did.check("did:example:a") && by_did.check("did:example:a"));
    assert!(!by_did.check("did:example:a"));
}

#[test]
fn limiters_can_be_turned_off() {
    let mut c = config();
    c.limits.rate_limit_per_ip = 0;
    let (mut by_address, mut by_did) = limiters(&c);
    for _ in 0..20 {
        assert_eq!(by_address.decide_request(None, None), Decision::Forward);
        assert!(by_did.check("did:example:a"));
    }
    assert!(by_did.is_empty());
}
