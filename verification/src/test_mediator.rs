//! A mediator for integration tests.
//!
//! The builder says how the mediator differs from one with default settings. It binds a free port
//! of the loopback address, takes a fresh identity, and keeps its store in memory, unless it is
//! told otherwise.

use crate::authority::UrlParts;
use crate::endpoints::Endpoints;
use crate::error::TestMediatorError;
use crate::identity::{did_hash, random_admin_did};
use crate::net::{format_socket, IpAddress, SocketAddress};
use crate::settings::{
    AccessListModeType, LimitsConfig, MediatorACLSet, ProcessorsConfig, RelayMode, SecurityConfig,
};
use crate::text::decimal;
use affinidi_secrets_resolver::secrets::Secret;
use vstd::prelude::*;

verus! {

/// An administrator whose secrets the caller holds.
#[derive(Clone, Debug)]
pub struct AdminIdentity {
    pub did: String,
    pub secrets: Vec<Secret>,
}

/// A participant with an identity of its own.
#[derive(Clone, Debug)]
pub struct TestMediatorUser {
    /// The DID, whose service endpoint is the mediator's DID.
    pub did: String,
    /// A name for people.
    pub alias: String,
    /// The secrets of the DID.
    pub secrets: Vec<Secret>,
}

impl TestMediatorUser {
    /// The hash by which accounts, permissions and queues know the user. It is never empty.
    pub fn did_hash(&self) -> (hash: String)
        ensures
            hash@ == crate::identity::sha256_hex(self.did@),
            crate::identity::is_hex(hash@, 64),
    {
        did_hash(self.did.as_str())
    }

    /// The user `alias` of a DID that was generated, or the error where none was.
    pub fn from_generated<E>(alias: String, generated: Result<(String, Vec<Secret>), String>) -> (user:
        Result<TestMediatorUser, TestMediatorError<E>>)
        ensures
            match generated {
                Ok(pair) => user == Ok::<TestMediatorUser, TestMediatorError<E>>(
                    TestMediatorUser { did: pair.0, alias, secrets: pair.1 },
                ),
                Err(text) => user == Err::<TestMediatorUser, TestMediatorError<E>>(
                    TestMediatorError::DidGeneration(text),
                ),
            },
    {
        match generated {
            Ok(pair) => Ok(TestMediatorUser { did: pair.0, alias, secrets: pair.1 }),
            Err(text) => Err(TestMediatorError::DidGeneration(text)),
        }
    }
}

/// What a key of a peer DID is for.
#[derive(Clone, Copy, PartialEq, Eq, Structural, Debug)]
pub enum PeerKeyRole {
    Verification,
    Encryption,
}

/// The kind of a key.
#[derive(Clone, Copy, PartialEq, Eq, Structural, Debug)]
pub enum KeyType {
    Ed25519,
    X25519,
}

/// The keys of every identity: one to verify, one to agree on keys.
pub fn peer_keys() -> (keys: Vec<(PeerKeyRole, KeyType)>)
    ensures
        keys@ == seq![
            (PeerKeyRole::Verification, KeyType::Ed25519),
            (PeerKeyRole::Encryption, KeyType::X25519),
        ],
{
    let mut keys: Vec<(PeerKeyRole, KeyType)> = Vec::new();
    keys.push((PeerKeyRole::Verification, KeyType::Ed25519));
    keys.push((PeerKeyRole::Encryption, KeyType::X25519));
    keys
}

/// Entry point.
pub struct TestMediator;

impl TestMediator {
    /// Begins to configure a test mediator.
    pub fn builder<S, C>() -> (builder: TestMediatorBuilder<S, C>)
        ensures
            builder.is_default(),
    {
        TestMediatorBuilder::default()
    }

    /// The administrator of a DID that was generated, or the error where none was.
    pub fn random_admin_identity<E>(generated: Result<(String, Vec<Secret>), String>) -> (identity:
        Result<AdminIdentity, TestMediatorError<E>>)
        ensures
            match generated {
                Ok(pair) => identity == Ok::<AdminIdentity, TestMediatorError<E>>(
                    AdminIdentity { did: pair.0, secrets: pair.1 },
                ),
                Err(text) => identity == Err::<AdminIdentity, TestMediatorError<E>>(
                    TestMediatorError::DidGeneration(text),
                ),
            },
    {
        match generated {
            Ok(pair) => Ok(AdminIdentity { did: pair.0, secrets: pair.1 }),
            Err(text) => Err(TestMediatorError::DidGeneration(text)),
        }
    }
}

/// How a test mediator differs from one with default settings. `S` is the store, `C` the clock.
pub struct TestMediatorBuilder<S, C> {
    pub store: Option<S>,
    pub listen_addr: Option<SocketAddress>,
    pub enable_forwarding: bool,
    pub enable_external_forwarding: bool,
    pub relay_mode: RelayMode,
    pub relay_trusted_mediators: Vec<String>,
    pub enable_message_expiry: bool,
    pub enable_streaming: bool,
    pub local_dids: Vec<String>,
    pub local_endpoints: Vec<String>,
    pub advertise_host: Option<String>,
    pub acl_mode: Option<AccessListModeType>,
    pub global_acl_default: Option<MediatorACLSet>,
    pub local_direct_delivery_allowed: Option<bool>,
    pub local_direct_delivery_allow_anon: Option<bool>,
    pub block_anonymous_outer_envelope: Option<bool>,
    pub force_session_did_match: Option<bool>,
    pub block_remote_admin_msgs: Option<bool>,
    pub enable_inter_mediator_relay: Option<bool>,
    pub jwt_access_expiry_secs: Option<u64>,
    pub jwt_refresh_expiry_secs: Option<u64>,
    pub max_websocket_connections_per_did: Option<usize>,
    pub did_rate_limit: Option<(u32, u32)>,
    pub admin_identity: Option<AdminIdentity>,
    pub clock: Option<C>,
}

impl<S, C> TestMediatorBuilder<S, C> {
    /// Whether nothing was overridden: live delivery is on, forwarding is off (but would reach
    /// other mediators), and messages do not expire.
    pub open spec fn is_default(self) -> bool {
        &&& self.store is None
        &&& self.listen_addr is None
        &&& !self.enable_forwarding
        &&& self.enable_external_forwarding
        &&& self.relay_mode is Blind
        &&& self.relay_trusted_mediators@.len() == 0
        &&& !self.enable_message_expiry
        &&& self.enable_streaming
        &&& self.local_dids@.len() == 0
        &&& self.local_endpoints@.len() == 0
        &&& self.advertise_host is None
        &&& self.acl_mode is None
        &&& self.global_acl_default is None
        &&& self.local_direct_delivery_allowed is None
        &&& self.local_direct_delivery_allow_anon is None
        &&& self.block_anonymous_outer_envelope is None
        &&& self.force_session_did_match is None
        &&& self.block_remote_admin_msgs is None
        &&& self.enable_inter_mediator_relay is None
        &&& self.jwt_access_expiry_secs is None
        &&& self.jwt_refresh_expiry_secs is None
        &&& self.max_websocket_connections_per_did is None
        &&& self.did_rate_limit is None
        &&& self.admin_identity is None
        &&& self.clock is None
    }
}

impl<S, C> Default for TestMediatorBuilder<S, C> {
    fn default() -> (builder: Self)
        ensures
            builder.is_default(),
    {
        TestMediatorBuilder {
            store: None,
            listen_addr: None,
            enable_forwarding: false,
            enable_external_forwarding: true,
            relay_mode: RelayMode::Blind,
            relay_trusted_mediators: Vec::new(),
            enable_message_expiry: false,
            enable_streaming: true,
            local_dids: Vec::new(),
            local_endpoints: Vec::new(),
            advertise_host: None,
            acl_mode: None,
            global_acl_default: None,
            local_direct_delivery_allowed: None,
            local_direct_delivery_allow_anon: None,
            block_anonymous_outer_envelope: None,
            force_session_did_match: None,
            block_remote_admin_msgs: None,
            enable_inter_mediator_relay: None,
            jwt_access_expiry_secs: None,
            jwt_refresh_expiry_secs: None,
            max_websocket_connections_per_did: None,
            did_rate_limit: None,
            admin_identity: None,
            clock: None,
        }
    }
}

impl<S, C> TestMediatorBuilder<S, C> {
    /// Whether the forwarding processor runs. Off by default.
    pub fn enable_forwarding(self, enabled: bool) -> (builder: Self)
        ensures
            builder == (TestMediatorBuilder { enable_forwarding: enabled, ..self }),
    {
        let mut builder = self;
        builder.enable_forwarding = enabled;
        builder
    }

    /// Whether messages are forwarded to other mediators, where the forwarding processor runs. On
    /// by default.
    pub fn enable_external_forwarding(self, enabled: bool) -> (builder: Self)
        ensures
            builder == (TestMediatorBuilder { enable_external_forwarding: enabled, ..self }),
    {
        let mut builder = self;
        builder.enable_external_forwarding = enabled;
        builder
    }

    /// How forwards to another mediator are relayed. Both mediators of a pair must use the same
    /// mode.
    pub fn relay_mode(self, mode: RelayMode) -> (builder: Self)
        ensures
            builder == (TestMediatorBuilder { relay_mode: mode, ..self }),
    {
        let mut builder = self;
        builder.relay_mode = mode;
        builder
    }

    /// Whether expired messages are removed. Off by default.
    pub fn enable_message_expiry(self, enabled: bool) -> (builder: Self)
        ensures
            builder == (TestMediatorBuilder { enable_message_expiry: enabled, ..self }),
    {
        let mut builder = self;
        builder.enable_message_expiry = enabled;
        builder
    }

    /// Whether messages are delivered live. On by default.
    pub fn enable_streaming(self, enabled: bool) -> (builder: Self)
        ensures
            builder == (TestMediatorBuilder { enable_streaming: enabled, ..self }),
    {
        let mut builder = self;
        builder.enable_streaming = enabled;
        builder
    }

    /// The store to use. By default a fresh one in memory is made.
    pub fn store(self, store: S) -> (builder: Self)
        ensures
            builder == (TestMediatorBuilder { store: Some(store), ..self }),
    {
        let mut builder = self;
        builder.store = Some(store);
        builder
    }

    /// The address to bind. By default a free port of the loopback address is taken.
    pub fn listen_addr(self, addr: SocketAddress) -> (builder: Self)
        ensures
            builder == (TestMediatorBuilder { listen_addr: Some(addr), ..self }),
    {
        let mut builder = self;
        builder.listen_addr = Some(addr);
        builder
    }

    /// Overrides who may use the mediator when no access list names them.
    pub fn acl_mode(self, mode: AccessListModeType) -> (builder: Self)
        ensures
            builder == (TestMediatorBuilder { acl_mode: Some(mode), ..self }),
    {
        let mut builder = self;
        builder.acl_mode = Some(mode);
        builder
    }

    /// Overrides the permissions of an account that is created on first authentication.
    pub fn global_acl_default(self, acls: MediatorACLSet) -> (builder: Self)
        ensures
            builder == (TestMediatorBuilder { global_acl_default: Some(acls), ..self }),
    {
        let mut builder = self;
        builder.global_acl_default = Some(acls);
        builder
    }

    /// Overrides whether anonymous forwards between mediators are accepted.
    pub fn enable_inter_mediator_relay(self, enabled: bool) -> (builder: Self)
        ensures
            builder == (TestMediatorBuilder { enable_inter_mediator_relay: Some(enabled), ..self }),
    {
        let mut builder = self;
        builder.enable_inter_mediator_relay = Some(enabled);
        builder
    }

    /// Overrides how many WebSocket connections a DID may hold at once.
    pub fn max_websocket_connections_per_did(self, max: usize) -> (builder: Self)
        ensures
            builder == (TestMediatorBuilder {
                max_websocket_connections_per_did: Some(max),
                ..self
            }),
    {
        let mut builder = self;
        builder.max_websocket_connections_per_did = Some(max);
        builder
    }

    /// Overrides whether anonymous outer envelopes are blocked.
    pub fn block_anonymous_outer_envelope(self, block: bool) -> (builder: Self)
        ensures
            builder == (TestMediatorBuilder {
                block_anonymous_outer_envelope: Some(block),
                ..self
            }),
    {
        let mut builder = self;
        builder.block_anonymous_outer_envelope = Some(block);
        builder
    }

    /// Overrides whether a session's DID must match the sender's.
    pub fn force_session_did_match(self, force: bool) -> (builder: Self)
        ensures
            builder == (TestMediatorBuilder { force_session_did_match: Some(force), ..self }),
    {
        let mut builder = self;
        builder.force_session_did_match = Some(force);
        builder
    }

    /// Overrides whether administrative messages from remote mediators are blocked.
    pub fn block_remote_admin_msgs(self, block: bool) -> (builder: Self)
        ensures
            builder == (TestMediatorBuilder { block_remote_admin_msgs: Some(block), ..self }),
    {
        let mut builder = self;
        builder.block_remote_admin_msgs = Some(block);
        builder
    }

    /// The clock by which tokens, messages and sessions expire. By default that of the system.
    pub fn clock(self, clock: C) -> (builder: Self)
        ensures
            builder == (TestMediatorBuilder { clock: Some(clock), ..self }),
    {
        let mut builder = self;
        builder.clock = Some(clock);
        builder
    }

    /// The administrator. By default one who never signs anything. The secrets stay with the
    /// caller: they are not handed to the mediator.
    pub fn admin_identity(self, identity: AdminIdentity) -> (builder: Self)
        ensures
            builder == (TestMediatorBuilder { admin_identity: Some(identity), ..self }),
    {
        let mut builder = self;
        builder.admin_identity = Some(identity);
        builder
    }

    /// The host to advertise, with the bound port, in the mediator's DID in place of the bound
    /// address. The advertised endpoint counts as local, so that what is meant for clients behind
    /// it is not forwarded away. Which interfaces are bound does not change.
    pub fn advertise_host(self, host: String) -> (builder: Self)
        ensures
            builder == (TestMediatorBuilder { advertise_host: Some(host), ..self }),
    {
        let mut builder = self;
        builder.advertise_host = Some(host);
        builder
    }

    /// Adds mediators whose relays are accepted. While there are none, all are.
    pub fn relay_trusted_mediators(self, dids: Vec<String>) -> (builder: Self)
        ensures
            builder.relay_trusted_mediators@ == self.relay_trusted_mediators@ + dids@,
            builder == (TestMediatorBuilder {
                relay_trusted_mediators: builder.relay_trusted_mediators,
                ..self
            }),
    {
        let mut builder = self;
        let mut more = dids;
        builder.relay_trusted_mediators.append(&mut more);
        builder
    }

    /// Adds DIDs to register as local accounts.
    pub fn local_dids(self, dids: Vec<String>) -> (builder: Self)
        ensures
            builder.local_dids@ == self.local_dids@ + dids@,
            builder == (TestMediatorBuilder { local_dids: builder.local_dids, ..self }),
    {
        let mut builder = self;
        let mut more = dids;
        builder.local_dids.append(&mut more);
        builder
    }

    /// Adds URLs at which the mediator can be reached, besides the address it binds.
    pub fn local_endpoints(self, endpoints: Vec<String>) -> (builder: Self)
        ensures
            builder.local_endpoints@ == self.local_endpoints@ + endpoints@,
            builder == (TestMediatorBuilder { local_endpoints: builder.local_endpoints, ..self }),
    {
        let mut builder = self;
        let mut more = endpoints;
        builder.local_endpoints.append(&mut more);
        builder
    }

    /// Adds a DID to register as a local account. Without one, a client that is not an
    /// administrator cannot open a WebSocket.
    pub fn local_did(self, did: String) -> (builder: Self)
        ensures
            builder.local_dids@ == self.local_dids@.push(did),
            builder == (TestMediatorBuilder { local_dids: builder.local_dids, ..self }),
    {
        let mut builder = self;
        builder.local_dids.push(did);
        builder
    }

    /// Overrides the rate limit per DID, and its burst. A limit of 0 turns it off.
    pub fn did_rate_limit(self, per_second: u32, burst: u32) -> (builder: Self)
        ensures
            builder == (TestMediatorBuilder { did_rate_limit: Some((per_second, burst)), ..self }),
    {
        let mut builder = self;
        builder.did_rate_limit = Some((per_second, burst));
        builder
    }

    /// Overrides whether messages may be delivered directly to local DIDs, and whether anonymous
    /// ones may.
    pub fn local_direct_delivery(self, allowed: bool, allow_anon: bool) -> (builder: Self)
        ensures
            builder == (TestMediatorBuilder {
                local_direct_delivery_allowed: Some(allowed),
                local_direct_delivery_allow_anon: Some(allow_anon),
                ..self
            }),
    {
        let mut builder = self;
        builder.local_direct_delivery_allowed = Some(allowed);
        builder.local_direct_delivery_allow_anon = Some(allow_anon);
        builder
    }

    /// Overrides the lifetimes of access and refresh tokens, in seconds.
    pub fn jwt_expiry(self, access_secs: u64, refresh_secs: u64) -> (builder: Self)
        ensures
            builder == (TestMediatorBuilder {
                jwt_access_expiry_secs: Some(access_secs),
                jwt_refresh_expiry_secs: Some(refresh_secs),
                ..self
            }),
    {
        let mut builder = self;
        builder.jwt_access_expiry_secs = Some(access_secs);
        builder.jwt_refresh_expiry_secs = Some(refresh_secs);
        builder
    }

    /// The administrator's DID: that of the identity that was given, or a fresh one.
    pub fn admin_did(&self) -> (did: String)
        ensures
            self.admin_identity matches Some(id) ==> did@ == id.did@,
            self.admin_identity is None ==> crate::identity::is_opaque_admin_did(did@),
    {
        match &self.admin_identity {
            Some(identity) => identity.did.as_str().to_owned(),
            None => random_admin_did(),
        }
    }
}

/// `over` where it is given, else `default`.
pub open spec fn or_default<T>(over: Option<T>, default: T) -> T {
    match over {
        Some(v) => v,
        None => default,
    }
}

/// `over` where it is given, else `default`.
fn overridden<T: Copy>(over: Option<T>, default: T) -> (value: T)
    ensures
        value == or_default(over, default),
{
    match over {
        Some(v) => v,
        None => default,
    }
}

/// The security settings of a test mediator: the defaults with what was overridden, without TLS.
pub open spec fn secured<S, C>(
    builder: TestMediatorBuilder<S, C>,
    defaults: SecurityConfig,
) -> SecurityConfig {
    SecurityConfig {
        mediator_acl_mode: or_default(builder.acl_mode, defaults.mediator_acl_mode),
        global_acl_default: or_default(builder.global_acl_default, defaults.global_acl_default),
        local_direct_delivery_allowed: or_default(
            builder.local_direct_delivery_allowed,
            defaults.local_direct_delivery_allowed,
        ),
        local_direct_delivery_allow_anon: or_default(
            builder.local_direct_delivery_allow_anon,
            defaults.local_direct_delivery_allow_anon,
        ),
        use_ssl: false,
        jwt_access_expiry: or_default(builder.jwt_access_expiry_secs, defaults.jwt_access_expiry),
        jwt_refresh_expiry: or_default(
            builder.jwt_refresh_expiry_secs,
            defaults.jwt_refresh_expiry,
        ),
        block_anonymous_outer_envelope: or_default(
            builder.block_anonymous_outer_envelope,
            defaults.block_anonymous_outer_envelope,
        ),
        force_session_did_match: or_default(
            builder.force_session_did_match,
            defaults.force_session_did_match,
        ),
        block_remote_admin_msgs: or_default(
            builder.block_remote_admin_msgs,
            defaults.block_remote_admin_msgs,
        ),
        enable_inter_mediator_relay: or_default(
            builder.enable_inter_mediator_relay,
            defaults.enable_inter_mediator_relay,
        ),
        ..defaults
    }
}

/// The limits of a test mediator: the defaults with what was overridden.
pub open spec fn limited<S, C>(
    builder: TestMediatorBuilder<S, C>,
    defaults: LimitsConfig,
) -> LimitsConfig {
    LimitsConfig {
        max_websocket_connections_per_did: or_default(
            builder.max_websocket_connections_per_did,
            defaults.max_websocket_connections_per_did,
        ),
        did_rate_limit_per_second: match builder.did_rate_limit {
            Some(limit) => limit.0,
            None => defaults.did_rate_limit_per_second,
        },
        did_rate_limit_burst: match builder.did_rate_limit {
            Some(limit) => limit.1,
            None => defaults.did_rate_limit_burst,
        },
        ..defaults
    }
}

/// The processors of a test mediator: what the builder says of forwarding and message expiry, and
/// the defaults of the rest.
pub open spec fn processing<S, C>(
    builder: TestMediatorBuilder<S, C>,
    defaults: ProcessorsConfig,
) -> ProcessorsConfig {
    ProcessorsConfig {
        forwarding: crate::settings::ForwardingConfig {
            enabled: builder.enable_forwarding,
            external_forwarding: builder.enable_external_forwarding,
            relay_mode: builder.relay_mode,
            relay_trusted_mediators: builder.relay_trusted_mediators,
        },
        message_expiry_cleanup: crate::settings::CleanupConfig {
            enabled: builder.enable_message_expiry,
        },
        session_expiry_cleanup: defaults.session_expiry_cleanup,
    }
}

/// The address that a test mediator binds: the one that was asked for, or a free port of the
/// loopback address.
pub fn listen_target(requested: Option<SocketAddress>) -> (target: SocketAddress)
    ensures
        target == or_default(
            requested,
            SocketAddress { ip: IpAddress::V4(0x7f00_0001), port: 0, scope_id: 0 },
        ),
{
    match requested {
        Some(addr) => addr,
        None => SocketAddress { ip: IpAddress::V4(0x7f00_0001), port: 0, scope_id: 0 },
    }
}

/// The path under which a test mediator serves.
pub const API_PREFIX: &'static str = "/mediator/v1/";

/// The host and port under which clients find a test mediator that is bound to `bound`.
pub open spec fn advertised(bound: SocketAddress, host: Option<Seq<char>>) -> Seq<char> {
    match host {
        Some(h) => h + ":"@ + crate::text::decimal_text(bound.port as nat),
        None => crate::net::socket_text(bound),
    }
}

/// The URI of the service of a test mediator that is bound to `bound`.
pub open spec fn service_text(bound: SocketAddress, host: Option<Seq<char>>) -> Seq<char> {
    "http://"@ + advertised(bound, host) + "/mediator/v1/"@
}

/// The URI of the service of a test mediator that is bound to `bound`. A host that is advertised
/// stands in place of the bound address.
pub fn service_uri(bound: SocketAddress, advertise_host: &Option<String>) -> (uri: String)
    ensures
        uri@ == service_text(bound, crate::text::opt_view(*advertise_host)),
{
    let mut uri = "http://".to_owned();
    match advertise_host {
        Some(host) => {
            uri.append(host.as_str());
            uri.append(":");
            uri.append(decimal(bound.port as u64).as_str());
        },
        None => {
            uri.append(format_socket(bound).as_str());
        },
    }
    uri.append("/mediator/v1/");
    proof {
        let host = crate::text::opt_view(*advertise_host);
        assert(uri@ =~= service_text(bound, host));
    }
    uri
}

/// A test mediator that is ready to be started.
pub struct Prepared<S, C> {
    /// The URI of the service, for the mediator's DID.
    pub service_uri: String,
    /// The path under which it serves.
    pub api_prefix: String,
    /// The URLs that count as local, besides the bound address.
    pub local_endpoints: Vec<String>,
    pub listen_addr: SocketAddress,
    pub admin_did: String,
    pub security: SecurityConfig,
    pub limits: LimitsConfig,
    pub processors: ProcessorsConfig,
    pub streaming_enabled: bool,
    /// The DIDs to register once the mediator runs.
    pub local_dids: Vec<String>,
    pub store: Option<S>,
    pub clock: Option<C>,
}

/// The URLs that count as local: those that were declared, and the one that is advertised.
pub open spec fn local_urls(
    declared: Seq<Seq<char>>,
    bound: SocketAddress,
    host: Option<Seq<char>>,
) -> Seq<Seq<char>> {
    match host {
        Some(_) => declared.push(service_text(bound, host)),
        None => declared,
    }
}

impl<S, C> TestMediatorBuilder<S, C> {
    /// The security settings: the defaults with what was overridden, without TLS.
    pub fn security(&self, defaults: SecurityConfig) -> (security: SecurityConfig)
        ensures
            security == secured(*self, defaults),
    {
        SecurityConfig {
            mediator_acl_mode: overridden(self.acl_mode, defaults.mediator_acl_mode),
            global_acl_default: overridden(self.global_acl_default, defaults.global_acl_default),
            local_direct_delivery_allowed: overridden(
                self.local_direct_delivery_allowed,
                defaults.local_direct_delivery_allowed,
            ),
            local_direct_delivery_allow_anon: overridden(
                self.local_direct_delivery_allow_anon,
                defaults.local_direct_delivery_allow_anon,
            ),
            use_ssl: false,
            ssl_certificate_file: defaults.ssl_certificate_file,
            ssl_key_file: defaults.ssl_key_file,
            jwt_access_expiry: overridden(self.jwt_access_expiry_secs, defaults.jwt_access_expiry),
            jwt_refresh_expiry: overridden(
                self.jwt_refresh_expiry_secs,
                defaults.jwt_refresh_expiry,
            ),
            block_anonymous_outer_envelope: overridden(
                self.block_anonymous_outer_envelope,
                defaults.block_anonymous_outer_envelope,
            ),
            force_session_did_match: overridden(
                self.force_session_did_match,
                defaults.force_session_did_match,
            ),
            block_remote_admin_msgs: overridden(
                self.block_remote_admin_msgs,
                defaults.block_remote_admin_msgs,
            ),
            enable_inter_mediator_relay: overridden(
                self.enable_inter_mediator_relay,
                defaults.enable_inter_mediator_relay,
            ),
        }
    }

    /// The limits: the defaults with what was overridden.
    pub fn limits(&self, defaults: LimitsConfig) -> (limits: LimitsConfig)
        ensures
            limits == limited(*self, defaults),
    {
        let mut limits = defaults;
        if let Some(max) = self.max_websocket_connections_per_did {
            limits.max_websocket_connections_per_did = max;
        }
        if let Some(limit) = self.did_rate_limit {
            limits.did_rate_limit_per_second = limit.0;
            limits.did_rate_limit_burst = limit.1;
        }
        limits
    }

    /// What to start, once a listener was bound to `bound`. The three defaults are those of a
    /// mediator in production.
    pub fn prepare(
        self,
        bound: SocketAddress,
        security: SecurityConfig,
        limits: LimitsConfig,
        processors: ProcessorsConfig,
    ) -> (prepared: Prepared<S, C>)
        ensures
            prepared.service_uri@ == service_text(
                bound,
                crate::text::opt_view(self.advertise_host),
            ),
            prepared.api_prefix@ == "/mediator/v1/"@,
            crate::text::views(prepared.local_endpoints@) == local_urls(
                crate::text::views(self.local_endpoints@),
                bound,
                crate::text::opt_view(self.advertise_host),
            ),
            prepared.listen_addr == bound,
            self.admin_identity matches Some(id) ==> prepared.admin_did@ == id.did@,
            self.admin_identity is None ==> crate::identity::is_opaque_admin_did(
                prepared.admin_did@,
            ),
            prepared.security == secured(self, security),
            prepared.limits == limited(self, limits),
            prepared.processors == processing(self, processors),
            prepared.streaming_enabled == self.enable_streaming,
            prepared.local_dids == self.local_dids,
            prepared.store == self.store,
            prepared.clock == self.clock,
    {
        let uri = service_uri(bound, &self.advertise_host);
        let admin_did = self.admin_did();
        let security = self.security(security);
        let limits = self.limits(limits);
        let mut local_endpoints = self.local_endpoints;
        if self.advertise_host.is_some() {
            local_endpoints.push(uri.as_str().to_owned());
        }
        proof {
            assert(crate::text::views(local_endpoints@) =~= local_urls(
                crate::text::views(self.local_endpoints@),
                bound,
                crate::text::opt_view(self.advertise_host),
            ));
        }
        let mut processors = processors;
        processors.forwarding.enabled = self.enable_forwarding;
        processors.forwarding.external_forwarding = self.enable_external_forwarding;
        processors.forwarding.relay_mode = self.relay_mode;
        processors.forwarding.relay_trusted_mediators = self.relay_trusted_mediators;
        processors.message_expiry_cleanup.enabled = self.enable_message_expiry;
        Prepared {
            service_uri: uri,
            api_prefix: API_PREFIX.to_owned(),
            local_endpoints,
            listen_addr: bound,
            admin_did,
            security,
            limits,
            processors,
            streaming_enabled: self.enable_streaming,
            local_dids: self.local_dids,
            store: self.store,
            clock: self.clock,
        }
    }
}

/// Where nothing was overridden, the defaults stay: only TLS is off.
pub proof fn law_defaults_are_kept<S, C>(
    builder: TestMediatorBuilder<S, C>,
    security: SecurityConfig,
    limits: LimitsConfig,
)
    requires
        builder.is_default(),
    ensures
        secured(builder, security) == (SecurityConfig { use_ssl: false, ..security }),
        limited(builder, limits) == limits,
{
}

/// A test mediator is never started with TLS, so its DID can advertise plain HTTP.
pub proof fn law_tls_is_always_off<S, C>(
    builder: TestMediatorBuilder<S, C>,
    security: SecurityConfig,
)
    ensures
        !secured(builder, security).use_ssl,
{
}

/// What is advertised under a host does not give away the bound address: only its port shows.
pub proof fn law_advertised_host_hides_the_bound_address(
    host: Seq<char>,
    one: SocketAddress,
    other: SocketAddress,
)
    requires
        one.port == other.port,
    ensures
        service_text(one, Some(host)) == service_text(other, Some(host)),
{
}

/// The endpoint that is advertised counts as local, so that what is meant for clients behind it is
/// delivered here and not forwarded away.
pub proof fn law_advertised_endpoint_is_local(
    listen_address: Seq<char>,
    declared: Seq<Seq<char>>,
    bound: SocketAddress,
    host: Seq<char>,
    url: crate::authority::UrlView,
    authority: crate::authority::Authority,
)
    requires
        crate::authority::url_of(service_text(bound, Some(host))) == Some(url),
        crate::authority::url_authority(url) == Some(authority),
    ensures
        crate::authority::self_authorities(
            listen_address,
            local_urls(declared, bound, Some(host)),
        ).contains(authority),
{
    let urls = local_urls(declared, bound, Some(host));
    assert(urls[urls.len() - 1] == service_text(bound, Some(host)));
    crate::authority::law_declared_endpoint_is_local(
        listen_address,
        urls,
        urls.len() - 1,
        url,
        authority,
    );
}

/// An endpoint that was declared stays local, whatever is advertised.
pub proof fn law_declared_endpoints_stay_local(
    listen_address: Seq<char>,
    declared: Seq<Seq<char>>,
    bound: SocketAddress,
    host: Option<Seq<char>>,
    authority: crate::authority::Authority,
)
    requires
        crate::authority::self_authorities(listen_address, declared).contains(authority),
    ensures
        crate::authority::self_authorities(
            listen_address,
            local_urls(declared, bound, host),
        ).contains(authority),
{
    let before = crate::authority::urls_of(declared);
    let after = crate::authority::urls_of(local_urls(declared, bound, host));
    let bind = crate::authority::bind_of(listen_address);
    if !(bind matches Some(b) && authority == crate::authority::bind_authority(b)) {
        let i = choose|i: int|
            0 <= i < before.len() && ((#[trigger] before[i]) matches Some(u)
                && crate::authority::url_authority(u) == Some(authority));
        assert(after[i] == before[i]);
    }
}

/// A number in decimal begins with a digit.
proof fn lemma_decimal_begins(n: nat)
    ensures
        crate::text::decimal_text(n).len() > 0,
        '0' <= crate::text::decimal_text(n)[0] <= '9',
    decreases n,
{
    if n >= 10 {
        lemma_decimal_begins(n / 10);
    }
}

/// A socket address begins with a digit or a bracket.
proof fn lemma_socket_begins(bound: SocketAddress)
    ensures
        crate::net::socket_text(bound).len() > 0,
        '0' <= crate::net::socket_text(bound)[0] <= '9' || crate::net::socket_text(bound)[0] == '[',
{
    reveal_strlit("[");
    match bound.ip {
        IpAddress::V4(b) => {
            lemma_decimal_begins((b / 0x100_0000) as nat);
        },
        IpAddress::V6(_) => {},
    }
}

/// The DID of a test mediator that advertises its bound address leads clients there: messages go
/// to `http://<bound>/mediator/v1`, and live delivery is at `ws://<bound>/mediator/v1/ws`.
pub proof fn law_did_leads_to_the_bound_address(bound: SocketAddress)
    ensures
        crate::peer_services::base_uri(service_text(bound, None)) == "http://"@
            + crate::net::socket_text(bound) + "/mediator/v1"@,
        crate::peer_services::ws_uri(service_text(bound, None)) == "ws://"@
            + crate::net::socket_text(bound) + "/mediator/v1/ws"@,
        crate::peer_services::auth_uri(service_text(bound, None)) == "http://"@
            + crate::net::socket_text(bound) + "/mediator/v1/authenticate"@,
{
    let authority = crate::net::socket_text(bound);
    reveal_strlit("http://");
    lemma_socket_begins(bound);
    let rest = authority + "/mediator/v1"@;
    assert(rest[0] == authority[0]);
    if "http://"@.is_prefix_of(rest) {
        assert(rest.subrange(0, 7)[0] == rest[0]);
    }
    crate::peer_services::law_uris_of_a_served_authority(authority);
}

/// The DID of a test mediator that advertises a host leads clients to that host, at the bound
/// port.
pub proof fn law_did_leads_to_the_advertised_host(bound: SocketAddress, host: Seq<char>)
    requires
        !"http://"@.is_prefix_of(advertised(bound, Some(host)) + "/mediator/v1"@),
    ensures
        crate::peer_services::base_uri(service_text(bound, Some(host))) == "http://"@ + host + ":"@
            + crate::text::decimal_text(bound.port as nat) + "/mediator/v1"@,
        crate::peer_services::ws_uri(service_text(bound, Some(host))) == "ws://"@ + host + ":"@
            + crate::text::decimal_text(bound.port as nat) + "/mediator/v1/ws"@,
{
    let authority = advertised(bound, Some(host));
    crate::peer_services::law_uris_of_a_served_authority(authority);
    assert("http://"@ + host + ":"@ + crate::text::decimal_text(bound.port as nat)
        + "/mediator/v1"@ =~= "http://"@ + authority + "/mediator/v1"@);
    assert("ws://"@ + host + ":"@ + crate::text::decimal_text(bound.port as nat)
        + "/mediator/v1/ws"@ =~= "ws://"@ + authority + "/mediator/v1/ws"@);
}

/// A running test mediator, as its clients see it.
pub struct TestMediatorHandle {
    pub endpoints: Endpoints,
    pub bound_addr: SocketAddress,
    pub mediator_did: String,
    pub admin_did: String,
    pub mediator_secrets: Vec<Secret>,
}

impl TestMediatorHandle {
    /// The URL at which the mediator serves HTTP.
    pub fn endpoint(&self) -> (url: &UrlParts)
        ensures
            *url == self.endpoints.http,
    {
        &self.endpoints.http
    }

    /// The URL at which the mediator delivers live.
    pub fn ws_endpoint(&self) -> (url: &UrlParts)
        ensures
            *url == self.endpoints.ws,
    {
        &self.endpoints.ws
    }

    /// The address that is bound.
    pub fn bound_addr(&self) -> (addr: SocketAddress)
        ensures
            addr == self.bound_addr,
    {
        self.bound_addr
    }

    /// The mediator's DID.
    pub fn did(&self) -> (did: &str)
        ensures
            did@ == self.mediator_did@,
    {
        self.mediator_did.as_str()
    }

    /// The administrator's DID.
    pub fn admin_did(&self) -> (did: &str)
        ensures
            did@ == self.admin_did@,
    {
        self.admin_did.as_str()
    }

    /// The mediator's secrets.
    pub fn mediator_secrets(&self) -> (secrets: &Vec<Secret>)
        ensures
            *secrets == self.mediator_secrets,
    {
        &self.mediator_secrets
    }
}

} // verus!
