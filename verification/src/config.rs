//! The raw configuration schema: every value is still the text that was written down.

use crate::limits::LimitsConfigRaw;
use vstd::prelude::*;

verus! {

/// The whole configuration file.
#[derive(Clone, Debug)]
pub struct ConfigRaw {
    pub log_level: String,
    pub log_json: String,
    pub mediator_did: String,
    pub server: ServerConfigRaw,
    pub database: DatabaseConfigRaw,
    pub security: SecurityConfigRaw,
    pub streaming: StreamingConfigRaw,
    pub did_resolver: DidResolverConfigRaw,
    pub limits: LimitsConfigRaw,
    pub processors: ProcessorsConfigRaw,
    pub secrets: SecretsConfigRaw,
}

/// The `[processors]` section.
#[derive(Clone, Debug)]
pub struct ProcessorsConfigRaw {
    pub forwarding: ForwardingConfigRaw,
    pub message_expiry_cleanup: MessageExpiryCleanupConfigRaw,
    pub session_expiry_cleanup: SessionExpiryCleanupConfigRaw,
}

/// The `[server]` section.
#[derive(Clone, Debug)]
pub struct ServerConfigRaw {
    pub listen_address: String,
    pub api_prefix: String,
    pub admin_did: String,
    pub did_web_self_hosted: Option<String>,
}

/// The `[database]` section.
#[derive(Clone, Debug)]
pub struct DatabaseConfigRaw {
    pub functions_file: String,
    pub database_url: String,
    pub database_timeout: String,
}

/// The `[security]` section.
#[derive(Clone, Debug)]
pub struct SecurityConfigRaw {
    pub mediator_acl_mode: String,
    pub global_acl_default: String,
    pub local_direct_delivery_allowed: String,
    pub local_direct_delivery_allow_anon: String,
    pub use_ssl: String,
    pub ssl_certificate_file: Option<String>,
    pub ssl_key_file: Option<String>,
    pub jwt_access_expiry: String,
    pub jwt_refresh_expiry: String,
    pub cors_allow_origin: Option<String>,
    pub block_anonymous_outer_envelope: String,
    pub force_session_did_match: String,
    pub block_remote_admin_msgs: String,
    pub enable_inter_mediator_relay: String,
    pub admin_messages_expiry: String,
}

/// The `[streaming]` section.
#[derive(Clone, Debug)]
pub struct StreamingConfigRaw {
    pub enabled: String,
    pub uuid: String,
}

/// The `[did_resolver]` section.
#[derive(Clone, Debug)]
pub struct DidResolverConfigRaw {
    pub address: Option<String>,
    pub cache_capacity: String,
    pub cache_ttl: String,
    pub network_timeout: String,
    pub network_limit: String,
}

/// The `[processors.forwarding]` section.
#[derive(Clone, Debug)]
pub struct ForwardingConfigRaw {
    pub enabled: String,
    pub future_time_limit: String,
    pub external_forwarding: String,
    pub report_errors: String,
    pub blocked_forwarding_dids: String,
    pub rate_window_seconds: String,
    pub ws_threshold_msgs_per_10s: String,
    pub ws_idle_timeout_seconds: String,
    pub batch_size: String,
    pub max_retries: String,
    pub initial_backoff_ms: String,
    pub max_backoff_ms: String,
    pub consumer_group: String,
}

/// The `[processors.message_expiry_cleanup]` section.
#[derive(Clone, Debug)]
pub struct MessageExpiryCleanupConfigRaw {
    pub enabled: String,
}

/// The `[processors.session_expiry_cleanup]` section.
#[derive(Clone, Debug)]
pub struct SessionExpiryCleanupConfigRaw {
    pub enabled: String,
}

/// The `[secrets]` section.
#[derive(Clone, Debug)]
pub struct SecretsConfigRaw {
    pub backend: String,
    pub cache_ttl: Option<String>,
}

impl ConfigRaw {
    /// Whether `self` is `before` with the variables of `env` laid over it.
    pub open spec fn overridden(self, before: ConfigRaw, env: Map<Seq<char>, Seq<char>>) -> bool {
        &&& self.log_level@ == crate::env::env_or(env, "LOG_LEVEL"@, before.log_level@)
        &&& self.log_json@ == crate::env::env_or(env, "LOG_JSON"@, before.log_json@)
        &&& self.mediator_did@ == crate::env::env_or(env, "MEDIATOR_DID"@, before.mediator_did@)
        &&& self.server.overridden(before.server, env)
        &&& self.database.overridden(before.database, env)
        &&& self.security.overridden(before.security, env)
        &&& self.streaming.overridden(before.streaming, env)
        &&& self.did_resolver.overridden(before.did_resolver, env)
        &&& self.limits.overridden(before.limits, env)
        &&& self.processors.overridden(before.processors, env)
        &&& self.secrets.overridden(before.secrets, env)
    }
}

impl ProcessorsConfigRaw {
    /// Whether `self` is `before` with the variables of `env` laid over it.
    pub open spec fn overridden(
        self,
        before: ProcessorsConfigRaw,
        env: Map<Seq<char>, Seq<char>>,
    ) -> bool {
        &&& self.forwarding.overridden(before.forwarding, env)
        &&& self.message_expiry_cleanup.overridden(before.message_expiry_cleanup, env)
        &&& self.session_expiry_cleanup.overridden(before.session_expiry_cleanup, env)
    }
}

impl ServerConfigRaw {
    /// Whether `self` is `before` with the variables of `env` laid over it.
    pub open spec fn overridden(
        self,
        before: ServerConfigRaw,
        env: Map<Seq<char>, Seq<char>>,
    ) -> bool {
        &&& self.listen_address@ == crate::env::env_or(
            env,
            "LISTEN_ADDRESS"@,
            before.listen_address@,
        )
        &&& self.api_prefix@ == crate::env::env_or(env, "API_PREFIX"@, before.api_prefix@)
        &&& self.admin_did@ == crate::env::env_or(env, "ADMIN_DID"@, before.admin_did@)
        &&& crate::text::opt_view(self.did_web_self_hosted) == crate::env::env_or_opt(
            env,
            "DID_WEB_SELF_HOSTED"@,
            crate::text::opt_view(before.did_web_self_hosted),
        )
    }
}

impl DatabaseConfigRaw {
    /// Whether `self` is `before` with the variables of `env` laid over it.
    pub open spec fn overridden(
        self,
        before: DatabaseConfigRaw,
        env: Map<Seq<char>, Seq<char>>,
    ) -> bool {
        &&& self.functions_file@ == crate::env::env_or(
            env,
            "DATABASE_FUNCTIONS_FILE"@,
            before.functions_file@,
        )
        &&& self.database_url@ == crate::env::env_or(env, "DATABASE_URL"@, before.database_url@)
        &&& self.database_timeout@ == crate::env::env_or(
            env,
            "DATABASE_TIMEOUT"@,
            before.database_timeout@,
        )
    }
}

impl SecurityConfigRaw {
    /// Whether `self` is `before` with the variables of `env` laid over it.
    pub open spec fn overridden(
        self,
        before: SecurityConfigRaw,
        env: Map<Seq<char>, Seq<char>>,
    ) -> bool {
        &&& self.mediator_acl_mode@ == crate::env::env_or(
            env,
            "MEDIATOR_ACL_MODE"@,
            before.mediator_acl_mode@,
        )
        &&& self.global_acl_default@ == crate::env::env_or(
            env,
            "GLOBAL_DEFAULT_ACL"@,
            before.global_acl_default@,
        )
        &&& self.local_direct_delivery_allowed@ == crate::env::env_or(
            env,
            "LOCAL_DIRECT_DELIVERY_ALLOWED"@,
            before.local_direct_delivery_allowed@,
        )
        &&& self.local_direct_delivery_allow_anon@ == crate::env::env_or(
            env,
            "LOCAL_DIRECT_DELIVERY_ALLOW_ANON"@,
            before.local_direct_delivery_allow_anon@,
        )
        &&& self.use_ssl@ == crate::env::env_or(env, "USE_SSL"@, before.use_ssl@)
        &&& crate::text::opt_view(self.ssl_certificate_file) == crate::env::env_or_opt(
            env,
            "SSL_CERTIFICATE_FILE"@,
            crate::text::opt_view(before.ssl_certificate_file),
        )
        &&& crate::text::opt_view(self.ssl_key_file) == crate::env::env_or_opt(
            env,
            "SSL_KEY_FILE"@,
            crate::text::opt_view(before.ssl_key_file),
        )
        &&& self.jwt_access_expiry@ == crate::env::env_or(
            env,
            "JWT_ACCESS_EXPIRY"@,
            before.jwt_access_expiry@,
        )
        &&& self.jwt_refresh_expiry@ == crate::env::env_or(
            env,
            "JWT_REFRESH_EXPIRY"@,
            before.jwt_refresh_expiry@,
        )
        &&& crate::text::opt_view(self.cors_allow_origin) == crate::env::env_or_opt(
            env,
            "CORS_ALLOW_ORIGIN"@,
            crate::text::opt_view(before.cors_allow_origin),
        )
        &&& self.block_anonymous_outer_envelope@ == crate::env::env_or(
            env,
            "BLOCK_ANONYMOUS_OUTER_ENVELOPE"@,
            before.block_anonymous_outer_envelope@,
        )
        &&& self.force_session_did_match@ == crate::env::env_or(
            env,
            "FORCE_SESSION_DID_MATCH"@,
            before.force_session_did_match@,
        )
        &&& self.block_remote_admin_msgs@ == crate::env::env_or(
            env,
            "BLOCK_REMOTE_ADMIN_MSGS"@,
            before.block_remote_admin_msgs@,
        )
        &&& self.enable_inter_mediator_relay@ == crate::env::env_or(
            env,
            "ENABLE_INTER_MEDIATOR_RELAY"@,
            before.enable_inter_mediator_relay@,
        )
        &&& self.admin_messages_expiry@ == crate::env::env_or(
            env,
            "ADMIN_MESSAGES_EXPIRY"@,
            before.admin_messages_expiry@,
        )
    }
}

impl StreamingConfigRaw {
    /// Whether `self` is `before` with the variables of `env` laid over it.
    pub open spec fn overridden(
        self,
        before: StreamingConfigRaw,
        env: Map<Seq<char>, Seq<char>>,
    ) -> bool {
        &&& self.enabled@ == crate::env::env_or(env, "STREAMING_ENABLED"@, before.enabled@)
        &&& self.uuid@ == crate::env::env_or(env, "STREAMING_UUID"@, before.uuid@)
    }
}

impl DidResolverConfigRaw {
    /// Whether `self` is `before` with the variables of `env` laid over it.
    pub open spec fn overridden(
        self,
        before: DidResolverConfigRaw,
        env: Map<Seq<char>, Seq<char>>,
    ) -> bool {
        &&& crate::text::opt_view(self.address) == crate::env::env_or_opt(
            env,
            "DID_RESOLVER_ADDRESS"@,
            crate::text::opt_view(before.address),
        )
        &&& self.cache_capacity@ == crate::env::env_or(
            env,
            "DID_RESOLVER_CACHE_CAPACITY"@,
            before.cache_capacity@,
        )
        &&& self.cache_ttl@ == crate::env::env_or(env, "DID_RESOLVER_CACHE_TTL"@, before.cache_ttl@)
        &&& self.network_timeout@ == crate::env::env_or(
            env,
            "DID_RESOLVER_NETWORK_TIMEOUT"@,
            before.network_timeout@,
        )
        &&& self.network_limit@ == crate::env::env_or(
            env,
            "DID_RESOLVER_NETWORK_LIMIT"@,
            before.network_limit@,
        )
    }
}

impl ForwardingConfigRaw {
    /// Whether `self` is `before` with the variables of `env` laid over it.
    pub open spec fn overridden(
        self,
        before: ForwardingConfigRaw,
        env: Map<Seq<char>, Seq<char>>,
    ) -> bool {
        &&& self.enabled@ == crate::env::env_or(
            env,
            "PROCESSOR_FORWARDING_ENABLED"@,
            before.enabled@,
        )
        &&& self.future_time_limit@ == crate::env::env_or(
            env,
            "PROCESSOR_FORWARDING_FUTURE_TIME_LIMIT"@,
            before.future_time_limit@,
        )
        &&& self.external_forwarding@ == crate::env::env_or(
            env,
            "PROCESSOR_FORWARDING_EXTERNAL"@,
            before.external_forwarding@,
        )
        &&& self.report_errors@ == crate::env::env_or(
            env,
            "PROCESSOR_FORWARDING_REPORT_ERRORS"@,
            before.report_errors@,
        )
        &&& self.blocked_forwarding_dids@ == crate::env::env_or(
            env,
            "PROCESSOR_FORWARDING_BLOCKED_DIDS"@,
            before.blocked_forwarding_dids@,
        )
        &&& self.rate_window_seconds@ == crate::env::env_or(
            env,
            "PROCESSOR_FORWARDING_RATE_WINDOW"@,
            before.rate_window_seconds@,
        )
        &&& self.ws_threshold_msgs_per_10s@ == crate::env::env_or(
            env,
            "PROCESSOR_FORWARDING_WS_THRESHOLD"@,
            before.ws_threshold_msgs_per_10s@,
        )
        &&& self.ws_idle_timeout_seconds@ == crate::env::env_or(
            env,
            "PROCESSOR_FORWARDING_WS_IDLE_TIMEOUT"@,
            before.ws_idle_timeout_seconds@,
        )
        &&& self.batch_size@ == crate::env::env_or(
            env,
            "PROCESSOR_FORWARDING_BATCH_SIZE"@,
            before.batch_size@,
        )
        &&& self.max_retries@ == crate::env::env_or(
            env,
            "PROCESSOR_FORWARDING_MAX_RETRIES"@,
            before.max_retries@,
        )
        &&& self.initial_backoff_ms@ == crate::env::env_or(
            env,
            "PROCESSOR_FORWARDING_INITIAL_BACKOFF_MS"@,
            before.initial_backoff_ms@,
        )
        &&& self.max_backoff_ms@ == crate::env::env_or(
            env,
            "PROCESSOR_FORWARDING_MAX_BACKOFF_MS"@,
            before.max_backoff_ms@,
        )
        &&& self.consumer_group@ == crate::env::env_or(
            env,
            "PROCESSOR_FORWARDING_CONSUMER_GROUP"@,
            before.consumer_group@,
        )
    }
}

impl MessageExpiryCleanupConfigRaw {
    /// Whether `self` is `before` with the variables of `env` laid over it.
    pub open spec fn overridden(
        self,
        before: MessageExpiryCleanupConfigRaw,
        env: Map<Seq<char>, Seq<char>>,
    ) -> bool {
        &&& self.enabled@ == crate::env::env_or(
            env,
            "PROCESSOR_MESSAGE_EXPIRY_CLEANUP_ENABLED"@,
            before.enabled@,
        )
    }
}

impl SessionExpiryCleanupConfigRaw {
    /// Whether `self` is `before` with the variables of `env` laid over it.
    pub open spec fn overridden(
        self,
        before: SessionExpiryCleanupConfigRaw,
        env: Map<Seq<char>, Seq<char>>,
    ) -> bool {
        &&& self.enabled@ == crate::env::env_or(
            env,
            "PROCESSOR_SESSION_EXPIRY_CLEANUP_ENABLED"@,
            before.enabled@,
        )
    }
}

impl SecretsConfigRaw {
    /// Whether `self` is `before` with the variables of `env` laid over it.
    pub open spec fn overridden(
        self,
        before: SecretsConfigRaw,
        env: Map<Seq<char>, Seq<char>>,
    ) -> bool {
        &&& self.backend@ == crate::env::env_or(env, "MEDIATOR_SECRETS_BACKEND"@, before.backend@)
        &&& crate::text::opt_view(self.cache_ttl) == crate::env::env_or_opt(
            env,
            "MEDIATOR_SECRETS_CACHE_TTL"@,
            crate::text::opt_view(before.cache_ttl),
        )
    }
}

} // verus!
