//! The resolved configuration of a mediator, as far as starting and serving depend on it.

use crate::net::IpNet;
use vstd::prelude::*;

verus! {

/// Who may use the mediator when no access list names them.
#[derive(Clone, Copy, PartialEq, Eq, Structural, Debug)]
pub enum AccessListModeType {
    /// Only those who are listed.
    ExplicitAllow,
    /// All but those who are listed.
    ExplicitDeny,
}

/// How forwards to another mediator are relayed.
#[derive(Clone, Copy, PartialEq, Eq, Structural, Debug)]
pub enum RelayMode {
    /// The inner envelope goes out as it came.
    Blind,
    /// Each hop is encrypted anew, from this mediator to the next.
    Rewrap,
}

/// The permissions of an account, packed into bits.
#[derive(Clone, Copy, PartialEq, Eq, Structural, Debug)]
pub struct MediatorACLSet {
    pub acl: u64,
}

/// Security settings.
#[derive(Clone, Debug)]
pub struct SecurityConfig {
    pub mediator_acl_mode: AccessListModeType,
    /// The permissions of an account that is created on first authentication.
    pub global_acl_default: MediatorACLSet,
    pub local_direct_delivery_allowed: bool,
    pub local_direct_delivery_allow_anon: bool,
    pub use_ssl: bool,
    pub ssl_certificate_file: Option<String>,
    pub ssl_key_file: Option<String>,
    /// Lifetime of an access token, in seconds.
    pub jwt_access_expiry: u64,
    /// Lifetime of a refresh token, in seconds.
    pub jwt_refresh_expiry: u64,
    pub block_anonymous_outer_envelope: bool,
    pub force_session_did_match: bool,
    pub block_remote_admin_msgs: bool,
    pub enable_inter_mediator_relay: bool,
}

/// Limits.
#[derive(Clone, Debug)]
pub struct LimitsConfig {
    pub http_size: usize,
    /// Requests per second and client address; 0 turns the limit off.
    pub rate_limit_per_ip: u32,
    pub rate_limit_burst: u32,
    /// Requests per second and DID; 0 turns the limit off.
    pub did_rate_limit_per_second: u32,
    pub did_rate_limit_burst: u32,
    pub max_websocket_connections_per_did: usize,
    /// The networks of the reverse proxies whose `X-Forwarded-For` is honoured. While there are
    /// none, the header is never looked at.
    pub trusted_proxies: Vec<IpNet>,
}

/// The forwarding processor.
#[derive(Clone, Debug)]
pub struct ForwardingConfig {
    pub enabled: bool,
    pub external_forwarding: bool,
    pub relay_mode: RelayMode,
    /// The mediators whose relays are accepted; empty accepts all.
    pub relay_trusted_mediators: Vec<String>,
}

/// A housekeeping processor.
#[derive(Clone, Copy, Debug)]
pub struct CleanupConfig {
    pub enabled: bool,
}

/// The background processors.
#[derive(Clone, Debug)]
pub struct ProcessorsConfig {
    pub forwarding: ForwardingConfig,
    pub message_expiry_cleanup: CleanupConfig,
    pub session_expiry_cleanup: CleanupConfig,
}

/// The storage that the operator chose.
#[derive(Clone, Debug)]
pub struct StorageConfig {
    pub backend: String,
    pub data_dir: Option<String>,
}

/// The database.
#[derive(Clone, Debug)]
pub struct DatabaseConfig {
    pub functions_file: Option<String>,
    pub circuit_breaker_threshold: u32,
    pub circuit_breaker_recovery_secs: u64,
}

/// The configuration of a mediator.
#[derive(Clone, Debug)]
pub struct Config {
    pub listen_address: String,
    /// The URLs at which this mediator can be reached, besides the address it binds.
    pub local_endpoints: Vec<String>,
    /// Empty, or a path that starts with a slash and does not end with one.
    pub api_prefix: String,
    pub mediator_did: String,
    pub mediator_did_hash: String,
    pub admin_did: String,
    pub security: SecurityConfig,
    pub limits: LimitsConfig,
    pub processors: ProcessorsConfig,
    pub storage: Option<StorageConfig>,
    pub database: DatabaseConfig,
    pub streaming_enabled: bool,
    pub streaming_uuid: String,
    /// Whether operating secrets are refreshed from a trust agent.
    pub vta_linked: bool,
    /// Whether the mediator's DID document was parsed while the configuration was loaded.
    pub has_did_document: bool,
    /// The mediator's DID document as it is served.
    pub mediator_did_doc: Option<String>,
}

} // verus!
