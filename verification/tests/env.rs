use mediator::config::{
    ConfigRaw, DatabaseConfigRaw, DidResolverConfigRaw, ForwardingConfigRaw,
    MessageExpiryCleanupConfigRaw, ProcessorsConfigRaw, SecretsConfigRaw, SecurityConfigRaw,
    ServerConfigRaw, SessionExpiryCleanupConfigRaw, StreamingConfigRaw,
};
use mediator::env::{apply_env_overrides, config_text, strip_comments, EnvVars};
use mediator::limits::{
    default_did_rate_limit_burst, default_did_rate_limit_per_second,
    default_max_websocket_connections, default_max_websocket_connections_per_did,
    default_rate_limit_burst, default_rate_limit_per_ip, default_trusted_proxies, LimitsConfigRaw,
};

fn f() -> String {
    "file".to_string()
}

fn config() -> ConfigRaw {
    ConfigRaw {
        log_level: f(),
        log_json: f(),
        mediator_did: f(),
        server: ServerConfigRaw {
            listen_address: f(),
            api_prefix: f(),
            admin_did: f(),
            did_web_self_hosted: None,
        },
        database: DatabaseConfigRaw {
            functions_file: f(),
            database_url: f(),
            database_timeout: f(),
        },
        security: SecurityConfigRaw {
            mediator_acl_mode: f(),
            global_acl_default: f(),
            local_direct_delivery_allowed: f(),
            local_direct_delivery_allow_anon: f(),
            use_ssl: f(),
            ssl_certificate_file: None,
            ssl_key_file: Some(f()),
            jwt_access_expiry: f(),
            jwt_refresh_expiry: f(),
            cors_allow_origin: None,
            block_anonymous_outer_envelope: f(),
            force_session_did_match: f(),
            block_remote_admin_msgs: f(),
            enable_inter_mediator_relay: f(),
            admin_messages_expiry: f(),
        },
        streaming: StreamingConfigRaw { enabled: f(), uuid: f() },
        did_resolver: DidResolverConfigRaw {
            address: None,
            cache_capacity: f(),
            cache_ttl: f(),
            network_timeout: f(),
            network_limit: f(),
        },
        limits: LimitsConfigRaw {
            attachments_max_count: f(),
            crypto_operations_per_message: f(),
            deleted_messages: f(),
            forward_task_queue: f(),
            http_size: f(),
            listed_messages: f(),
            local_max_acl: f(),
            message_expiry_seconds: f(),
            message_size: f(),
            queued_send_messages_soft: f(),
            queued_send_messages_hard: f(),
            queued_receive_messages_soft: f(),
            queued_receive_messages_hard: f(),
            to_keys_per_recipient: f(),
            to_recipients: f(),
            ws_size: f(),
            access_list_limit: f(),
            oob_invite_ttl: f(),
            rate_limit_per_ip: f(),
            rate_limit_burst: f(),
            max_websocket_connections: f(),
            max_websocket_connections_per_did: f(),
            did_rate_limit_per_second: f(),
            did_rate_limit_burst: f(),
            trusted_proxies: f(),
        },
        processors: ProcessorsConfigRaw {
            forwarding: ForwardingConfigRaw {
                enabled: f(),
                future_time_limit: f(),
                external_forwarding: f(),
                report_errors: f(),
                blocked_forwarding_dids: f(),
                rate_window_seconds: f(),
                ws_threshold_msgs_per_10s: f(),
                ws_idle_timeout_seconds: f(),
                batch_size: f(),
                max_retries: f(),
                initial_backoff_ms: f(),
                max_backoff_ms: f(),
                consumer_group: f(),
            },
            message_expiry_cleanup: MessageExpiryCleanupConfigRaw { enabled: f() },
            session_expiry_cleanup: SessionExpiryCleanupConfigRaw { enabled: f() },
        },
        secrets: SecretsConfigRaw { backend: f(), cache_ttl: None },
    }
}

fn env(vars: &[(&str, &str)]) -> EnvVars {
    let mut env = EnvVars::new();
    for (name, value) in vars {
        env.set(name.to_string(), value.to_string());
    }
    env
}

fn text(config: &ConfigRaw) -> String {
    format!("{config:?}")
}

#[test]
fn an_empty_environment_changes_nothing() {
    let mut c = config();
    apply_env_overrides(&mut c, &EnvVars::new());
    assert_eq!(text(&c), text(&config()));
}

#[test]
fn the_environment_wins_over_the_file() {
    let mut c = config();
    apply_env_overrides(
        &mut c,
        &env(&[
            ("LOG_LEVEL", "debug"),
            ("LISTEN_ADDRESS", "0.0.0.0:80"),
            ("ADMIN_DID", "did:example:admin"),
            ("LIMIT_TO_KEYS_PER_DID", "7"),
            ("PROCESSOR_FORWARDING_BATCH_SIZE", "9"),
            ("MEDIATOR_SECRETS_BACKEND", "keyring://x"),
        ]),
    );
    assert_eq!(c.log_level, "debug");
    assert_eq!(c.server.listen_address, "0.0.0.0:80");
    assert_eq!(c.server.admin_did, "did:example:admin");
    assert_eq!(c.limits.to_keys_per_recipient, "7");
    assert_eq!(c.processors.forwarding.batch_size, "9");
    assert_eq!(c.secrets.backend, "keyring://x");
    assert_eq!(c.log_json, "file");
    assert_eq!(c.limits.to_recipients, "file");
}

#[test]
fn optional_values_are_set_by_the_environment() {
    let mut c = config();
    apply_env_overrides(
        &mut c,
        &env(&[
            ("DID_WEB_SELF_HOSTED", "a"),
            ("SSL_CERTIFICATE_FILE", "b"),
            ("DID_RESOLVER_ADDRESS", "c"),
            ("MEDIATOR_SECRETS_CACHE_TTL", "d"),
        ]),
    );
    assert_eq!(c.server.did_web_self_hosted.as_deref(), Some("a"));
    assert_eq!(c.security.ssl_certificate_file.as_deref(), Some("b"));
    assert_eq!(c.did_resolver.address.as_deref(), Some("c"));
    assert_eq!(c.secrets.cache_ttl.as_deref(), Some("d"));
    assert_eq!(c.security.ssl_key_file.as_deref(), Some("file"));
    assert_eq!(c.security.cors_allow_origin, None);
}

#[test]
fn an_empty_value_still_wins() {
    let mut c = config();
    apply_env_overrides(&mut c, &env(&[("API_PREFIX", "")]));
    assert_eq!(c.server.api_prefix, "");
}

#[test]
fn a_pool_size_is_ignored() {
    let mut c = config();
    apply_env_overrides(&mut c, &env(&[("DATABASE_POOL_SIZE", "10"), ("log_level", "x")]));
    assert_eq!(text(&c), text(&config()));
}

#[test]
fn overriding_twice_is_overriding_once() {
    let vars = env(&[("DATABASE_URL", "redis://x"), ("USE_SSL", "true")]);
    let mut once = config();
    apply_env_overrides(&mut once, &vars);
    let mut twice = config();
    apply_env_overrides(&mut twice, &vars);
    apply_env_overrides(&mut twice, &vars);
    assert_eq!(text(&once), text(&twice));
}

#[test]
fn a_later_value_of_a_variable_replaces_the_earlier() {
    let mut vars = env(&[("A", "1"), ("B", "2")]);
    vars.set("A".to_string(), "3".to_string());
    assert_eq!(vars.get("A").map(|v| v.as_str()), Some("3"));
    assert_eq!(vars.get("B").map(|v| v.as_str()), Some("2"));
    assert_eq!(vars.get("C"), None);
}

#[test]
fn comment_lines_are_left_out() {
    let lines = || -> Vec<String> {
        ["# a comment", "[server]", "", " # kept", "key = \"#\"", "#"]
            .iter()
            .map(|l| l.to_string())
            .collect()
    };
    assert_eq!(strip_comments(lines()), vec!["[server]", "", " # kept", "key = \"#\""]);
    assert_eq!(config_text(lines()), "[server]\n\n # kept\nkey = \"#\"");
    assert_eq!(config_text(vec![]), "");
}

#[test]
fn limits_have_defaults() {
    assert_eq!(default_rate_limit_per_ip(), "100");
    assert_eq!(default_rate_limit_burst(), "50");
    assert_eq!(default_max_websocket_connections(), "10000");
    assert_eq!(default_max_websocket_connections_per_did(), "100");
    assert_eq!(default_did_rate_limit_per_second(), "0");
    assert_eq!(default_did_rate_limit_burst(), "10");
    assert_eq!(default_trusted_proxies(), "");
}

#[test]
fn two_environments_merge() {
    let mut one_by_one = config();
    apply_env_overrides(&mut one_by_one, &env(&[("LOG_LEVEL", "info"), ("USE_SSL", "true")]));
    apply_env_overrides(&mut one_by_one, &env(&[("LOG_LEVEL", "debug"), ("LOG_JSON", "x")]));
    let mut at_once = config();
    apply_env_overrides(
        &mut at_once,
        &env(&[("LOG_LEVEL", "debug"), ("USE_SSL", "true"), ("LOG_JSON", "x")]),
    );
    assert_eq!(text(&one_by_one), text(&at_once));
}
