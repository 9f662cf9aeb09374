//! What the builder of a test mediator comes to.

use crate::authority::UrlParts;
use crate::error::TestMediatorError;
use crate::net::{format_socket, IpAddress, SocketAddress};
use crate::settings::{
    AccessListModeType, CleanupConfig, ForwardingConfig, LimitsConfig, MediatorACLSet,
    ProcessorsConfig, RelayMode, SecurityConfig,
};
use crate::test_mediator::{
    listen_target, peer_keys, service_uri, AdminIdentity, KeyType, PeerKeyRole, Prepared,
    TestMediator, TestMediatorBuilder, TestMediatorHandle, TestMediatorUser,
};
use crate::text::decimal;
use affinidi_secrets_resolver::secrets::Secret;
use vstd::prelude::*;

verus! {

/// Whether two mediators that are ready to be started agree in everything but their administrator.
pub open spec fn alike<S, C>(one: Prepared<S, C>, other: Prepared<S, C>) -> bool {
    &&& one.service_uri@ == other.service_uri@
    &&& one.api_prefix@ == other.api_prefix@
    &&& crate::text::views(one.local_endpoints@) == crate::text::views(other.local_endpoints@)
    &&& one.listen_addr == other.listen_addr
    &&& one.security == other.security
    &&& one.limits == other.limits
    &&& one.processors == other.processors
    &&& one.streaming_enabled == other.streaming_enabled
    &&& one.local_dids == other.local_dids
    &&& one.store == other.store
    &&& one.clock == other.clock
}

/// The mode that is given is the access list mode, whatever else was set, and nothing else changes.
pub proof fn law_acl_mode_sets_what_it_names<S, C>(
    builder: TestMediatorBuilder<S, C>,
    mode: AccessListModeType,
    next: TestMediatorBuilder<S, C>,
    bound: SocketAddress,
    security: SecurityConfig,
    limits: LimitsConfig,
    processors: ProcessorsConfig,
    before: Prepared<S, C>,
    after: Prepared<S, C>,
)
    requires
        call_ensures(TestMediatorBuilder::<S, C>::acl_mode, (builder, mode), next),
        call_ensures(
            TestMediatorBuilder::<S, C>::prepare,
            (builder, bound, security, limits, processors),
            before,
        ),
        call_ensures(
            TestMediatorBuilder::<S, C>::prepare,
            (next, bound, security, limits, processors),
            after,
        ),
    ensures
        alike(
            after,
            Prepared {
                security: SecurityConfig { mediator_acl_mode: mode, ..before.security },
                ..before
            },
        ),
        next.listen_addr == builder.listen_addr,
        next.admin_identity == builder.admin_identity,
        builder.admin_identity is Some ==> after.admin_did@ == before.admin_did@,
{
}

/// The permissions that are given are the default permissions, whatever else was set, and nothing
/// else changes.
pub proof fn law_global_acl_default_sets_what_it_names<S, C>(
    builder: TestMediatorBuilder<S, C>,
    acls: MediatorACLSet,
    next: TestMediatorBuilder<S, C>,
    bound: SocketAddress,
    security: SecurityConfig,
    limits: LimitsConfig,
    processors: ProcessorsConfig,
    before: Prepared<S, C>,
    after: Prepared<S, C>,
)
    requires
        call_ensures(TestMediatorBuilder::<S, C>::global_acl_default, (builder, acls), next),
        call_ensures(
            TestMediatorBuilder::<S, C>::prepare,
            (builder, bound, security, limits, processors),
            before,
        ),
        call_ensures(
            TestMediatorBuilder::<S, C>::prepare,
            (next, bound, security, limits, processors),
            after,
        ),
    ensures
        alike(
            after,
            Prepared {
                security: SecurityConfig { global_acl_default: acls, ..before.security },
                ..before
            },
        ),
        next.listen_addr == builder.listen_addr,
        next.admin_identity == builder.admin_identity,
        builder.admin_identity is Some ==> after.admin_did@ == before.admin_did@,
{
}

/// The first value says whether messages may be delivered directly, and the second whether
/// anonymous ones may, whatever else was set, and nothing else changes.
pub proof fn law_local_direct_delivery_sets_what_it_names<S, C>(
    builder: TestMediatorBuilder<S, C>,
    allowed: bool,
    allow_anon: bool,
    next: TestMediatorBuilder<S, C>,
    bound: SocketAddress,
    security: SecurityConfig,
    limits: LimitsConfig,
    processors: ProcessorsConfig,
    before: Prepared<S, C>,
    after: Prepared<S, C>,
)
    requires
        call_ensures(
            TestMediatorBuilder::<S, C>::local_direct_delivery,
            (builder, allowed, allow_anon),
            next,
        ),
        call_ensures(
            TestMediatorBuilder::<S, C>::prepare,
            (builder, bound, security, limits, processors),
            before,
        ),
        call_ensures(
            TestMediatorBuilder::<S, C>::prepare,
            (next, bound, security, limits, processors),
            after,
        ),
    ensures
        alike(
            after,
            Prepared {
                security: SecurityConfig {
                    local_direct_delivery_allowed: allowed,
                    local_direct_delivery_allow_anon: allow_anon,
                    ..before.security
                },
                ..before
            },
        ),
        next.listen_addr == builder.listen_addr,
        next.admin_identity == builder.admin_identity,
        builder.admin_identity is Some ==> after.admin_did@ == before.admin_did@,
{
}

/// The value says whether anonymous outer envelopes are blocked, whatever else was set, and nothing
/// else changes.
pub proof fn law_block_anonymous_outer_envelope_sets_what_it_names<S, C>(
    builder: TestMediatorBuilder<S, C>,
    block: bool,
    next: TestMediatorBuilder<S, C>,
    bound: SocketAddress,
    security: SecurityConfig,
    limits: LimitsConfig,
    processors: ProcessorsConfig,
    before: Prepared<S, C>,
    after: Prepared<S, C>,
)
    requires
        call_ensures(
            TestMediatorBuilder::<S, C>::block_anonymous_outer_envelope,
            (builder, block),
            next,
        ),
        call_ensures(
            TestMediatorBuilder::<S, C>::prepare,
            (builder, bound, security, limits, processors),
            before,
        ),
        call_ensures(
            TestMediatorBuilder::<S, C>::prepare,
            (next, bound, security, limits, processors),
            after,
        ),
    ensures
        alike(
            after,
            Prepared {
                security: SecurityConfig { block_anonymous_outer_envelope: block, ..before.security },
                ..before
            },
        ),
        next.listen_addr == builder.listen_addr,
        next.admin_identity == builder.admin_identity,
        builder.admin_identity is Some ==> after.admin_did@ == before.admin_did@,
{
}

/// The value says whether a session's DID must match the sender's, whatever else was set, and
/// nothing else changes.
pub proof fn law_force_session_did_match_sets_what_it_names<S, C>(
    builder: TestMediatorBuilder<S, C>,
    force: bool,
    next: TestMediatorBuilder<S, C>,
    bound: SocketAddress,
    security: SecurityConfig,
    limits: LimitsConfig,
    processors: ProcessorsConfig,
    before: Prepared<S, C>,
    after: Prepared<S, C>,
)
    requires
        call_ensures(TestMediatorBuilder::<S, C>::force_session_did_match, (builder, force), next),
        call_ensures(
            TestMediatorBuilder::<S, C>::prepare,
            (builder, bound, security, limits, processors),
            before,
        ),
        call_ensures(
            TestMediatorBuilder::<S, C>::prepare,
            (next, bound, security, limits, processors),
            after,
        ),
    ensures
        alike(
            after,
            Prepared {
                security: SecurityConfig { force_session_did_match: force, ..before.security },
                ..before
            },
        ),
        next.listen_addr == builder.listen_addr,
        next.admin_identity == builder.admin_identity,
        builder.admin_identity is Some ==> after.admin_did@ == before.admin_did@,
{
}

/// The value says whether administrative messages from remote mediators are blocked, whatever else
/// was set, and nothing else changes.
pub proof fn law_block_remote_admin_msgs_sets_what_it_names<S, C>(
    builder: TestMediatorBuilder<S, C>,
    block: bool,
    next: TestMediatorBuilder<S, C>,
    bound: SocketAddress,
    security: SecurityConfig,
    limits: LimitsConfig,
    processors: ProcessorsConfig,
    before: Prepared<S, C>,
    after: Prepared<S, C>,
)
    requires
        call_ensures(TestMediatorBuilder::<S, C>::block_remote_admin_msgs, (builder, block), next),
        call_ensures(
            TestMediatorBuilder::<S, C>::prepare,
            (builder, bound, security, limits, processors),
            before,
        ),
        call_ensures(
            TestMediatorBuilder::<S, C>::prepare,
            (next, bound, security, limits, processors),
            after,
        ),
    ensures
        alike(
            after,
            Prepared {
                security: SecurityConfig { block_remote_admin_msgs: block, ..before.security },
                ..before
            },
        ),
        next.listen_addr == builder.listen_addr,
        next.admin_identity == builder.admin_identity,
        builder.admin_identity is Some ==> after.admin_did@ == before.admin_did@,
{
}

/// The value says whether anonymous forwards between mediators are accepted, whatever else was set,
/// and nothing else changes.
pub proof fn law_enable_inter_mediator_relay_sets_what_it_names<S, C>(
    builder: TestMediatorBuilder<S, C>,
    enabled: bool,
    next: TestMediatorBuilder<S, C>,
    bound: SocketAddress,
    security: SecurityConfig,
    limits: LimitsConfig,
    processors: ProcessorsConfig,
    before: Prepared<S, C>,
    after: Prepared<S, C>,
)
    requires
        call_ensures(
            TestMediatorBuilder::<S, C>::enable_inter_mediator_relay,
            (builder, enabled),
            next,
        ),
        call_ensures(
            TestMediatorBuilder::<S, C>::prepare,
            (builder, bound, security, limits, processors),
            before,
        ),
        call_ensures(
            TestMediatorBuilder::<S, C>::prepare,
            (next, bound, security, limits, processors),
            after,
        ),
    ensures
        alike(
            after,
            Prepared {
                security: SecurityConfig { enable_inter_mediator_relay: enabled, ..before.security },
                ..before
            },
        ),
        next.listen_addr == builder.listen_addr,
        next.admin_identity == builder.admin_identity,
        builder.admin_identity is Some ==> after.admin_did@ == before.admin_did@,
{
}

/// The first value is the lifetime of access tokens, and the second that of refresh tokens,
/// whatever else was set, and nothing else changes.
pub proof fn law_jwt_expiry_sets_what_it_names<S, C>(
    builder: TestMediatorBuilder<S, C>,
    access_secs: u64,
    refresh_secs: u64,
    next: TestMediatorBuilder<S, C>,
    bound: SocketAddress,
    security: SecurityConfig,
    limits: LimitsConfig,
    processors: ProcessorsConfig,
    before: Prepared<S, C>,
    after: Prepared<S, C>,
)
    requires
        call_ensures(
            TestMediatorBuilder::<S, C>::jwt_expiry,
            (builder, access_secs, refresh_secs),
            next,
        ),
        call_ensures(
            TestMediatorBuilder::<S, C>::prepare,
            (builder, bound, security, limits, processors),
            before,
        ),
        call_ensures(
            TestMediatorBuilder::<S, C>::prepare,
            (next, bound, security, limits, processors),
            after,
        ),
    ensures
        alike(
            after,
            Prepared {
                security: SecurityConfig {
                    jwt_access_expiry: access_secs,
                    jwt_refresh_expiry: refresh_secs,
                    ..before.security
                },
                ..before
            },
        ),
        next.listen_addr == builder.listen_addr,
        next.admin_identity == builder.admin_identity,
        builder.admin_identity is Some ==> after.admin_did@ == before.admin_did@,
{
}

/// The value is the number of connections that a DID may hold, whatever else was set, and nothing
/// else changes.
pub proof fn law_max_websocket_connections_per_did_sets_what_it_names<S, C>(
    builder: TestMediatorBuilder<S, C>,
    max: usize,
    next: TestMediatorBuilder<S, C>,
    bound: SocketAddress,
    security: SecurityConfig,
    limits: LimitsConfig,
    processors: ProcessorsConfig,
    before: Prepared<S, C>,
    after: Prepared<S, C>,
)
    requires
        call_ensures(
            TestMediatorBuilder::<S, C>::max_websocket_connections_per_did,
            (builder, max),
            next,
        ),
        call_ensures(
            TestMediatorBuilder::<S, C>::prepare,
            (builder, bound, security, limits, processors),
            before,
        ),
        call_ensures(
            TestMediatorBuilder::<S, C>::prepare,
            (next, bound, security, limits, processors),
            after,
        ),
    ensures
        alike(
            after,
            Prepared {
                limits: LimitsConfig { max_websocket_connections_per_did: max, ..before.limits },
                ..before
            },
        ),
        next.listen_addr == builder.listen_addr,
        next.admin_identity == builder.admin_identity,
        builder.admin_identity is Some ==> after.admin_did@ == before.admin_did@,
{
}

/// The first value is the rate per DID, and the second its burst, whatever else was set, and
/// nothing else changes.
pub proof fn law_did_rate_limit_sets_what_it_names<S, C>(
    builder: TestMediatorBuilder<S, C>,
    per_second: u32,
    burst: u32,
    next: TestMediatorBuilder<S, C>,
    bound: SocketAddress,
    security: SecurityConfig,
    limits: LimitsConfig,
    processors: ProcessorsConfig,
    before: Prepared<S, C>,
    after: Prepared<S, C>,
)
    requires
        call_ensures(
            TestMediatorBuilder::<S, C>::did_rate_limit,
            (builder, per_second, burst),
            next,
        ),
        call_ensures(
            TestMediatorBuilder::<S, C>::prepare,
            (builder, bound, security, limits, processors),
            before,
        ),
        call_ensures(
            TestMediatorBuilder::<S, C>::prepare,
            (next, bound, security, limits, processors),
            after,
        ),
    ensures
        alike(
            after,
            Prepared {
                limits: LimitsConfig {
                    did_rate_limit_per_second: per_second,
                    did_rate_limit_burst: burst,
                    ..before.limits
                },
                ..before
            },
        ),
        next.listen_addr == builder.listen_addr,
        next.admin_identity == builder.admin_identity,
        builder.admin_identity is Some ==> after.admin_did@ == before.admin_did@,
{
}

/// The value says whether the forwarding processor runs, whatever else was set, and nothing else
/// changes.
pub proof fn law_enable_forwarding_sets_what_it_names<S, C>(
    builder: TestMediatorBuilder<S, C>,
    enabled: bool,
    next: TestMediatorBuilder<S, C>,
    bound: SocketAddress,
    security: SecurityConfig,
    limits: LimitsConfig,
    processors: ProcessorsConfig,
    before: Prepared<S, C>,
    after: Prepared<S, C>,
)
    requires
        call_ensures(TestMediatorBuilder::<S, C>::enable_forwarding, (builder, enabled), next),
        call_ensures(
            TestMediatorBuilder::<S, C>::prepare,
            (builder, bound, security, limits, processors),
            before,
        ),
        call_ensures(
            TestMediatorBuilder::<S, C>::prepare,
            (next, bound, security, limits, processors),
            after,
        ),
    ensures
        alike(
            after,
            Prepared {
                processors: ProcessorsConfig {
                    forwarding: ForwardingConfig { enabled, ..before.processors.forwarding },
                    ..before.processors
                },
                ..before
            },
        ),
        next.listen_addr == builder.listen_addr,
        next.admin_identity == builder.admin_identity,
        builder.admin_identity is Some ==> after.admin_did@ == before.admin_did@,
{
}

/// The value says whether messages are forwarded to other mediators, whatever else was set, and
/// nothing else changes.
pub proof fn law_enable_external_forwarding_sets_what_it_names<S, C>(
    builder: TestMediatorBuilder<S, C>,
    enabled: bool,
    next: TestMediatorBuilder<S, C>,
    bound: SocketAddress,
    security: SecurityConfig,
    limits: LimitsConfig,
    processors: ProcessorsConfig,
    before: Prepared<S, C>,
    after: Prepared<S, C>,
)
    requires
        call_ensures(
            TestMediatorBuilder::<S, C>::enable_external_forwarding,
            (builder, enabled),
            next,
        ),
        call_ensures(
            TestMediatorBuilder::<S, C>::prepare,
            (builder, bound, security, limits, processors),
            before,
        ),
        call_ensures(
            TestMediatorBuilder::<S, C>::prepare,
            (next, bound, security, limits, processors),
            after,
        ),
    ensures
        alike(
            after,
            Prepared {
                processors: ProcessorsConfig {
                    forwarding: ForwardingConfig {
                        external_forwarding: enabled,
                        ..before.processors.forwarding
                    },
                    ..before.processors
                },
                ..before
            },
        ),
        next.listen_addr == builder.listen_addr,
        next.admin_identity == builder.admin_identity,
        builder.admin_identity is Some ==> after.admin_did@ == before.admin_did@,
{
}

/// The mode that is given is the relay mode, whatever else was set, and nothing else changes.
pub proof fn law_relay_mode_sets_what_it_names<S, C>(
    builder: TestMediatorBuilder<S, C>,
    mode: RelayMode,
    next: TestMediatorBuilder<S, C>,
    bound: SocketAddress,
    security: SecurityConfig,
    limits: LimitsConfig,
    processors: ProcessorsConfig,
    before: Prepared<S, C>,
    after: Prepared<S, C>,
)
    requires
        call_ensures(TestMediatorBuilder::<S, C>::relay_mode, (builder, mode), next),
        call_ensures(
            TestMediatorBuilder::<S, C>::prepare,
            (builder, bound, security, limits, processors),
            before,
        ),
        call_ensures(
            TestMediatorBuilder::<S, C>::prepare,
            (next, bound, security, limits, processors),
            after,
        ),
    ensures
        alike(
            after,
            Prepared {
                processors: ProcessorsConfig {
                    forwarding: ForwardingConfig { relay_mode: mode, ..before.processors.forwarding },
                    ..before.processors
                },
                ..before
            },
        ),
        next.listen_addr == builder.listen_addr,
        next.admin_identity == builder.admin_identity,
        builder.admin_identity is Some ==> after.admin_did@ == before.admin_did@,
{
}

/// The mediators that are given are trusted after those that already were, whatever else was set,
/// and nothing else changes.
pub proof fn law_relay_trusted_mediators_sets_what_it_names<S, C>(
    builder: TestMediatorBuilder<S, C>,
    dids: Vec<String>,
    next: TestMediatorBuilder<S, C>,
    bound: SocketAddress,
    security: SecurityConfig,
    limits: LimitsConfig,
    processors: ProcessorsConfig,
    before: Prepared<S, C>,
    after: Prepared<S, C>,
)
    requires
        call_ensures(TestMediatorBuilder::<S, C>::relay_trusted_mediators, (builder, dids), next),
        call_ensures(
            TestMediatorBuilder::<S, C>::prepare,
            (builder, bound, security, limits, processors),
            before,
        ),
        call_ensures(
            TestMediatorBuilder::<S, C>::prepare,
            (next, bound, security, limits, processors),
            after,
        ),
    ensures
        alike(
            after,
            Prepared {
                processors: ProcessorsConfig {
                    forwarding: ForwardingConfig {
                        relay_trusted_mediators: after.processors.forwarding.relay_trusted_mediators,
                        ..before.processors.forwarding
                    },
                    ..before.processors
                },
                ..before
            },
        ),
        after.processors.forwarding.relay_trusted_mediators@
            == before.processors.forwarding.relay_trusted_mediators@ + dids@,
        next.listen_addr == builder.listen_addr,
        next.admin_identity == builder.admin_identity,
        builder.admin_identity is Some ==> after.admin_did@ == before.admin_did@,
{
}

/// The value says whether expired messages are removed, whatever else was set, and nothing else
/// changes.
pub proof fn law_enable_message_expiry_sets_what_it_names<S, C>(
    builder: TestMediatorBuilder<S, C>,
    enabled: bool,
    next: TestMediatorBuilder<S, C>,
    bound: SocketAddress,
    security: SecurityConfig,
    limits: LimitsConfig,
    processors: ProcessorsConfig,
    before: Prepared<S, C>,
    after: Prepared<S, C>,
)
    requires
        call_ensures(TestMediatorBuilder::<S, C>::enable_message_expiry, (builder, enabled), next),
        call_ensures(
            TestMediatorBuilder::<S, C>::prepare,
            (builder, bound, security, limits, processors),
            before,
        ),
        call_ensures(
            TestMediatorBuilder::<S, C>::prepare,
            (next, bound, security, limits, processors),
            after,
        ),
    ensures
        alike(
            after,
            Prepared {
                processors: ProcessorsConfig {
                    message_expiry_cleanup: CleanupConfig { enabled },
                    ..before.processors
                },
                ..before
            },
        ),
        next.listen_addr == builder.listen_addr,
        next.admin_identity == builder.admin_identity,
        builder.admin_identity is Some ==> after.admin_did@ == before.admin_did@,
{
}

/// The value says whether messages are delivered live, whatever else was set, and nothing else
/// changes.
pub proof fn law_enable_streaming_sets_what_it_names<S, C>(
    builder: TestMediatorBuilder<S, C>,
    enabled: bool,
    next: TestMediatorBuilder<S, C>,
    bound: SocketAddress,
    security: SecurityConfig,
    limits: LimitsConfig,
    processors: ProcessorsConfig,
    before: Prepared<S, C>,
    after: Prepared<S, C>,
)
    requires
        call_ensures(TestMediatorBuilder::<S, C>::enable_streaming, (builder, enabled), next),
        call_ensures(
            TestMediatorBuilder::<S, C>::prepare,
            (builder, bound, security, limits, processors),
            before,
        ),
        call_ensures(
            TestMediatorBuilder::<S, C>::prepare,
            (next, bound, security, limits, processors),
            after,
        ),
    ensures
        alike(after, Prepared { streaming_enabled: enabled, ..before }),
        next.listen_addr == builder.listen_addr,
        next.admin_identity == builder.admin_identity,
        builder.admin_identity is Some ==> after.admin_did@ == before.admin_did@,
{
}

/// The store that is given is used, whatever else was set, and nothing else changes.
pub proof fn law_store_sets_what_it_names<S, C>(
    builder: TestMediatorBuilder<S, C>,
    store: S,
    next: TestMediatorBuilder<S, C>,
    bound: SocketAddress,
    security: SecurityConfig,
    limits: LimitsConfig,
    processors: ProcessorsConfig,
    before: Prepared<S, C>,
    after: Prepared<S, C>,
)
    requires
        call_ensures(TestMediatorBuilder::<S, C>::store, (builder, store), next),
        call_ensures(
            TestMediatorBuilder::<S, C>::prepare,
            (builder, bound, security, limits, processors),
            before,
        ),
        call_ensures(
            TestMediatorBuilder::<S, C>::prepare,
            (next, bound, security, limits, processors),
            after,
        ),
    ensures
        alike(after, Prepared { store: Some(store), ..before }),
        next.listen_addr == builder.listen_addr,
        next.admin_identity == builder.admin_identity,
        builder.admin_identity is Some ==> after.admin_did@ == before.admin_did@,
{
}

/// The clock that is given is used, whatever else was set, and nothing else changes.
pub proof fn law_clock_sets_what_it_names<S, C>(
    builder: TestMediatorBuilder<S, C>,
    clock: C,
    next: TestMediatorBuilder<S, C>,
    bound: SocketAddress,
    security: SecurityConfig,
    limits: LimitsConfig,
    processors: ProcessorsConfig,
    before: Prepared<S, C>,
    after: Prepared<S, C>,
)
    requires
        call_ensures(TestMediatorBuilder::<S, C>::clock, (builder, clock), next),
        call_ensures(
            TestMediatorBuilder::<S, C>::prepare,
            (builder, bound, security, limits, processors),
            before,
        ),
        call_ensures(
            TestMediatorBuilder::<S, C>::prepare,
            (next, bound, security, limits, processors),
            after,
        ),
    ensures
        alike(after, Prepared { clock: Some(clock), ..before }),
        next.listen_addr == builder.listen_addr,
        next.admin_identity == builder.admin_identity,
        builder.admin_identity is Some ==> after.admin_did@ == before.admin_did@,
{
}

/// The DIDs that are given are registered after those that already were to be, whatever else was
/// set, and nothing else changes.
pub proof fn law_local_dids_sets_what_it_names<S, C>(
    builder: TestMediatorBuilder<S, C>,
    dids: Vec<String>,
    next: TestMediatorBuilder<S, C>,
    bound: SocketAddress,
    security: SecurityConfig,
    limits: LimitsConfig,
    processors: ProcessorsConfig,
    before: Prepared<S, C>,
    after: Prepared<S, C>,
)
    requires
        call_ensures(TestMediatorBuilder::<S, C>::local_dids, (builder, dids), next),
        call_ensures(
            TestMediatorBuilder::<S, C>::prepare,
            (builder, bound, security, limits, processors),
            before,
        ),
        call_ensures(
            TestMediatorBuilder::<S, C>::prepare,
            (next, bound, security, limits, processors),
            after,
        ),
    ensures
        alike(after, Prepared { local_dids: after.local_dids, ..before }),
        after.local_dids@ == before.local_dids@ + dids@,
        next.listen_addr == builder.listen_addr,
        next.admin_identity == builder.admin_identity,
        builder.admin_identity is Some ==> after.admin_did@ == before.admin_did@,
{
}

/// The DID that is given is registered after those that already were to be, whatever else was set,
/// and nothing else changes.
pub proof fn law_local_did_sets_what_it_names<S, C>(
    builder: TestMediatorBuilder<S, C>,
    did: String,
    next: TestMediatorBuilder<S, C>,
    bound: SocketAddress,
    security: SecurityConfig,
    limits: LimitsConfig,
    processors: ProcessorsConfig,
    before: Prepared<S, C>,
    after: Prepared<S, C>,
)
    requires
        call_ensures(TestMediatorBuilder::<S, C>::local_did, (builder, did), next),
        call_ensures(
            TestMediatorBuilder::<S, C>::prepare,
            (builder, bound, security, limits, processors),
            before,
        ),
        call_ensures(
            TestMediatorBuilder::<S, C>::prepare,
            (next, bound, security, limits, processors),
            after,
        ),
    ensures
        alike(after, Prepared { local_dids: after.local_dids, ..before }),
        after.local_dids@ == before.local_dids@.push(did),
        next.listen_addr == builder.listen_addr,
        next.admin_identity == builder.admin_identity,
        builder.admin_identity is Some ==> after.admin_did@ == before.admin_did@,
{
}

/// The address that is given is the one to bind, whatever else was set, and nothing else changes.
pub proof fn law_listen_addr_sets_what_it_names<S, C>(
    builder: TestMediatorBuilder<S, C>,
    addr: SocketAddress,
    next: TestMediatorBuilder<S, C>,
    bound: SocketAddress,
    security: SecurityConfig,
    limits: LimitsConfig,
    processors: ProcessorsConfig,
    before: Prepared<S, C>,
    after: Prepared<S, C>,
)
    requires
        call_ensures(TestMediatorBuilder::<S, C>::listen_addr, (builder, addr), next),
        call_ensures(
            TestMediatorBuilder::<S, C>::prepare,
            (builder, bound, security, limits, processors),
            before,
        ),
        call_ensures(
            TestMediatorBuilder::<S, C>::prepare,
            (next, bound, security, limits, processors),
            after,
        ),
    ensures
        alike(after, before),
        next.listen_addr == Some(addr),
        next.admin_identity == builder.admin_identity,
        builder.admin_identity is Some ==> after.admin_did@ == before.admin_did@,
{
}

/// The identity that is given is the administrator, whatever else was set, and nothing else
/// changes.
pub proof fn law_admin_identity_sets_what_it_names<S, C>(
    builder: TestMediatorBuilder<S, C>,
    identity: AdminIdentity,
    next: TestMediatorBuilder<S, C>,
    bound: SocketAddress,
    security: SecurityConfig,
    limits: LimitsConfig,
    processors: ProcessorsConfig,
    before: Prepared<S, C>,
    after: Prepared<S, C>,
)
    requires
        call_ensures(TestMediatorBuilder::<S, C>::admin_identity, (builder, identity), next),
        call_ensures(
            TestMediatorBuilder::<S, C>::prepare,
            (builder, bound, security, limits, processors),
            before,
        ),
        call_ensures(
            TestMediatorBuilder::<S, C>::prepare,
            (next, bound, security, limits, processors),
            after,
        ),
    ensures
        alike(after, before),
        after.admin_did@ == identity.did@,
        next.listen_addr == builder.listen_addr,
{
}

/// The URLs that are given count as local after those that were declared before, and before the
/// one that is advertised. Nothing else changes.
pub proof fn law_local_endpoints_sets_what_it_names<S, C>(
    builder: TestMediatorBuilder<S, C>,
    endpoints: Vec<String>,
    next: TestMediatorBuilder<S, C>,
    bound: SocketAddress,
    security: SecurityConfig,
    limits: LimitsConfig,
    processors: ProcessorsConfig,
    before: Prepared<S, C>,
    after: Prepared<S, C>,
)
    requires
        call_ensures(TestMediatorBuilder::<S, C>::local_endpoints, (builder, endpoints), next),
        call_ensures(
            TestMediatorBuilder::<S, C>::prepare,
            (builder, bound, security, limits, processors),
            before,
        ),
        call_ensures(
            TestMediatorBuilder::<S, C>::prepare,
            (next, bound, security, limits, processors),
            after,
        ),
    ensures
        alike(after, Prepared { local_endpoints: after.local_endpoints, ..before }),
        builder.advertise_host is None ==> crate::text::views(after.local_endpoints@)
            == crate::text::views(before.local_endpoints@) + crate::text::views(endpoints@),
        builder.advertise_host is Some ==> crate::text::views(after.local_endpoints@)
            == crate::text::views(before.local_endpoints@).drop_last() + crate::text::views(
            endpoints@,
        ) + seq![before.service_uri@],
        next.listen_addr == builder.listen_addr,
        next.admin_identity == builder.admin_identity,
        builder.admin_identity is Some ==> after.admin_did@ == before.admin_did@,
{
    let declared = crate::text::views(builder.local_endpoints@);
    let more = crate::text::views(endpoints@);
    assert(crate::text::views(next.local_endpoints@) =~= declared + more);
    if builder.advertise_host is Some {
        assert(crate::text::views(before.local_endpoints@).drop_last() =~= declared);
        assert(crate::text::views(after.local_endpoints@) =~= declared + more
            + seq![before.service_uri@]);
    }
}

/// The host that is given is advertised with the bound port, in place of the bound address, and
/// what is advertised counts as local besides what was declared. Nothing else changes.
pub proof fn law_advertise_host_sets_what_it_names<S, C>(
    builder: TestMediatorBuilder<S, C>,
    host: String,
    next: TestMediatorBuilder<S, C>,
    bound: SocketAddress,
    port: String,
    security: SecurityConfig,
    limits: LimitsConfig,
    processors: ProcessorsConfig,
    before: Prepared<S, C>,
    after: Prepared<S, C>,
)
    requires
        call_ensures(TestMediatorBuilder::<S, C>::advertise_host, (builder, host), next),
        call_ensures(decimal, (bound.port as u64,), port),
        call_ensures(
            TestMediatorBuilder::<S, C>::prepare,
            (builder, bound, security, limits, processors),
            before,
        ),
        call_ensures(
            TestMediatorBuilder::<S, C>::prepare,
            (next, bound, security, limits, processors),
            after,
        ),
    ensures
        after.service_uri@ == "http://"@ + host@ + ":"@ + port@ + "/mediator/v1/"@,
        crate::text::views(after.local_endpoints@) == crate::text::views(
            builder.local_endpoints@,
        ).push(after.service_uri@),
        alike(
            after,
            Prepared {
                service_uri: after.service_uri,
                local_endpoints: after.local_endpoints,
                ..before
            },
        ),
        next.listen_addr == builder.listen_addr,
        next.admin_identity == builder.admin_identity,
        builder.admin_identity is Some ==> after.admin_did@ == before.admin_did@,
{
    assert("http://"@ + host@ + ":"@ + port@ + "/mediator/v1/"@ =~= "http://"@ + (host@ + ":"@
        + port@) + "/mediator/v1/"@);
}

/// A mediator that nothing was overridden for has the default settings, without TLS. It forwards
/// nothing, though it would to other mediators, blindly and for all; messages do not expire and are
/// delivered live. It advertises the address that is bound, serves under `/mediator/v1/`, has no
/// further URLs and DIDs, and brings neither store nor clock.
pub proof fn law_builders_begin_with_the_defaults<S, C>(
    builder: TestMediatorBuilder<S, C>,
    bound: SocketAddress,
    address: String,
    security: SecurityConfig,
    limits: LimitsConfig,
    processors: ProcessorsConfig,
    prepared: Prepared<S, C>,
)
    requires
        call_ensures(TestMediator::builder::<S, C>, (), builder),
        call_ensures(format_socket, (bound,), address),
        call_ensures(
            TestMediatorBuilder::<S, C>::prepare,
            (builder, bound, security, limits, processors),
            prepared,
        ),
    ensures
        prepared.security == (SecurityConfig { use_ssl: false, ..security }),
        prepared.limits == limits,
        !prepared.processors.forwarding.enabled,
        prepared.processors.forwarding.external_forwarding,
        prepared.processors.forwarding.relay_mode == RelayMode::Blind,
        prepared.processors.forwarding.relay_trusted_mediators@.len() == 0,
        !prepared.processors.message_expiry_cleanup.enabled,
        prepared.processors.session_expiry_cleanup == processors.session_expiry_cleanup,
        prepared.streaming_enabled,
        prepared.service_uri@ == "http://"@ + address@ + "/mediator/v1/"@,
        prepared.api_prefix@ == "/mediator/v1/"@,
        prepared.local_endpoints@.len() == 0,
        prepared.local_dids@.len() == 0,
        prepared.listen_addr == bound,
        prepared.store is None,
        prepared.clock is None,
        builder.listen_addr is None,
        builder.admin_identity is None,
        builder.advertise_host is None,
{
    assert(crate::text::views(prepared.local_endpoints@).len() == prepared.local_endpoints@.len());
}

/// Each setting of a mediator that is ready to be started is the one that the builder has for it,
/// where it has one, and the default where it has none.
pub proof fn law_each_setting_has_its_own_override<S, C>(
    builder: TestMediatorBuilder<S, C>,
    bound: SocketAddress,
    security: SecurityConfig,
    limits: LimitsConfig,
    processors: ProcessorsConfig,
    prepared: Prepared<S, C>,
    secured: SecurityConfig,
    limited: LimitsConfig,
)
    requires
        call_ensures(
            TestMediatorBuilder::<S, C>::prepare,
            (builder, bound, security, limits, processors),
            prepared,
        ),
        call_ensures(TestMediatorBuilder::<S, C>::security, (&builder, security), secured),
        call_ensures(TestMediatorBuilder::<S, C>::limits, (&builder, limits), limited),
    ensures
        prepared.security == secured,
        prepared.limits == limited,
        secured.mediator_acl_mode == match builder.acl_mode {
            Some(mode) => mode,
            None => security.mediator_acl_mode,
        },
        secured.global_acl_default == match builder.global_acl_default {
            Some(acls) => acls,
            None => security.global_acl_default,
        },
        secured.local_direct_delivery_allowed == match builder.local_direct_delivery_allowed {
            Some(allowed) => allowed,
            None => security.local_direct_delivery_allowed,
        },
        secured.local_direct_delivery_allow_anon == match builder.local_direct_delivery_allow_anon {
            Some(allow_anon) => allow_anon,
            None => security.local_direct_delivery_allow_anon,
        },
        !secured.use_ssl,
        secured.ssl_certificate_file == security.ssl_certificate_file,
        secured.ssl_key_file == security.ssl_key_file,
        secured.jwt_access_expiry == match builder.jwt_access_expiry_secs {
            Some(secs) => secs,
            None => security.jwt_access_expiry,
        },
        secured.jwt_refresh_expiry == match builder.jwt_refresh_expiry_secs {
            Some(secs) => secs,
            None => security.jwt_refresh_expiry,
        },
        secured.block_anonymous_outer_envelope == match builder.block_anonymous_outer_envelope {
            Some(block) => block,
            None => security.block_anonymous_outer_envelope,
        },
        secured.force_session_did_match == match builder.force_session_did_match {
            Some(force) => force,
            None => security.force_session_did_match,
        },
        secured.block_remote_admin_msgs == match builder.block_remote_admin_msgs {
            Some(block) => block,
            None => security.block_remote_admin_msgs,
        },
        secured.enable_inter_mediator_relay == match builder.enable_inter_mediator_relay {
            Some(enabled) => enabled,
            None => security.enable_inter_mediator_relay,
        },
        builder.max_websocket_connections_per_did matches Some(max)
            ==> limited.max_websocket_connections_per_did == max,
        builder.max_websocket_connections_per_did is None
            ==> limited.max_websocket_connections_per_did
            == limits.max_websocket_connections_per_did,
        builder.did_rate_limit matches Some((per_second, burst)) ==> limited
            == (LimitsConfig {
            did_rate_limit_per_second: per_second,
            did_rate_limit_burst: burst,
            max_websocket_connections_per_did: limited.max_websocket_connections_per_did,
            ..limits
        }),
        builder.did_rate_limit is None ==> limited == (LimitsConfig {
            max_websocket_connections_per_did: limited.max_websocket_connections_per_did,
            ..limits
        }),
        prepared.processors.forwarding.enabled == builder.enable_forwarding,
        prepared.processors.forwarding.external_forwarding == builder.enable_external_forwarding,
        prepared.processors.forwarding.relay_mode == builder.relay_mode,
        prepared.processors.forwarding.relay_trusted_mediators == builder.relay_trusted_mediators,
        prepared.processors.message_expiry_cleanup.enabled == builder.enable_message_expiry,
        prepared.processors.session_expiry_cleanup == processors.session_expiry_cleanup,
        prepared.streaming_enabled == builder.enable_streaming,
        prepared.local_dids == builder.local_dids,
        prepared.store == builder.store,
        prepared.clock == builder.clock,
        prepared.listen_addr == bound,
{
}

/// The administrator is the identity that was given; without one it is a fresh DID of a random
/// identifier, which no one holds the key of.
pub proof fn law_administrators_are_given_or_fresh<S, C>(
    builder: TestMediatorBuilder<S, C>,
    did: String,
)
    requires
        call_ensures(TestMediatorBuilder::<S, C>::admin_did, (&builder,), did),
    ensures
        builder.admin_identity matches Some(identity) ==> did@ == identity.did@,
        builder.admin_identity is None ==> did@.len() == 44 && did@.take(12) == "did:key:z6Mk"@,
{
    reveal_strlit("did:key:z6Mk");
    if builder.admin_identity is None {
        let id = choose|id: Seq<char>| #[trigger]
            crate::identity::is_random_id(id) && did@ == "did:key:z6Mk"@ + id;
        assert(did@.take(12) =~= "did:key:z6Mk"@);
    }
}

/// The address that is asked for is bound; without one, any free port of `127.0.0.1` is.
pub proof fn law_loopback_is_bound_by_default(
    requested: Option<SocketAddress>,
    target: SocketAddress,
)
    requires
        call_ensures(listen_target, (requested,), target),
    ensures
        requested matches Some(addr) ==> target == addr,
        requested is None ==> target.port == 0 && target.scope_id == 0 && target.ip
            == IpAddress::V4((127 * 0x100_0000 + 1) as u32),
{
}

/// The service is found at the bound address, or at the advertised host with the bound port.
pub proof fn law_service_is_found_where_it_is_advertised(
    bound: SocketAddress,
    host: Option<String>,
    uri: String,
    address: String,
    port: String,
)
    requires
        call_ensures(service_uri, (bound, &host), uri),
        call_ensures(format_socket, (bound,), address),
        call_ensures(decimal, (bound.port as u64,), port),
    ensures
        host is None ==> uri@ == "http://"@ + address@ + "/mediator/v1/"@,
        host matches Some(h) ==> uri@ == "http://"@ + h@ + ":"@ + port@ + "/mediator/v1/"@,
{
    if let Some(h) = host {
        let authority = h@ + ":"@ + port@;
        assert("http://"@ + h@ + ":"@ + port@ + "/mediator/v1/"@ =~= "http://"@ + authority
            + "/mediator/v1/"@);
    }
}

/// A running mediator gives back what it was started with.
pub proof fn law_handles_give_back_what_they_hold(
    handle: TestMediatorHandle,
    http: &UrlParts,
    ws: &UrlParts,
    bound: SocketAddress,
    did: &str,
    admin: &str,
    secrets: &Vec<Secret>,
)
    requires
        call_ensures(TestMediatorHandle::endpoint, (&handle,), http),
        call_ensures(TestMediatorHandle::ws_endpoint, (&handle,), ws),
        call_ensures(TestMediatorHandle::bound_addr, (&handle,), bound),
        call_ensures(TestMediatorHandle::did, (&handle,), did),
        call_ensures(TestMediatorHandle::admin_did, (&handle,), admin),
        call_ensures(TestMediatorHandle::mediator_secrets, (&handle,), secrets),
    ensures
        *http == handle.endpoints.http,
        *ws == handle.endpoints.ws,
        bound == handle.bound_addr,
        did@ == handle.mediator_did@,
        admin@ == handle.admin_did@,
        *secrets == handle.mediator_secrets,
{
}

/// A participant has the DID and the secrets that were generated, and the given name; an
/// administrator likewise. Where nothing was generated, that is the error.
pub proof fn law_identities_are_those_that_were_generated<E>(
    alias: String,
    did: String,
    secrets: Vec<Secret>,
    failure: String,
    user: Result<TestMediatorUser, TestMediatorError<E>>,
    admin: Result<AdminIdentity, TestMediatorError<E>>,
    no_user: Result<TestMediatorUser, TestMediatorError<E>>,
    no_admin: Result<AdminIdentity, TestMediatorError<E>>,
)
    requires
        call_ensures(TestMediatorUser::from_generated::<E>, (alias, Ok((did, secrets))), user),
        call_ensures(TestMediator::random_admin_identity::<E>, (Ok((did, secrets)),), admin),
        call_ensures(TestMediatorUser::from_generated::<E>, (alias, Err(failure)), no_user),
        call_ensures(TestMediator::random_admin_identity::<E>, (Err(failure),), no_admin),
    ensures
        user matches Ok(u) && u.did == did && u.alias == alias && u.secrets == secrets,
        admin matches Ok(a) && a.did == did && a.secrets == secrets,
        no_user == Err::<TestMediatorUser, TestMediatorError<E>>(
            TestMediatorError::DidGeneration(failure),
        ),
        no_admin == Err::<AdminIdentity, TestMediatorError<E>>(
            TestMediatorError::DidGeneration(failure),
        ),
{
}

/// A participant is known by the hash of its DID, 64 digits long.
pub proof fn law_users_are_known_by_their_hash(user: TestMediatorUser, hash: String)
    requires
        call_ensures(TestMediatorUser::did_hash, (&user,), hash),
    ensures
        hash@ == crate::identity::sha256_hex(user.did@),
        hash@.len() == 64,
{
}

/// Every identity has a key to verify, of the kind Ed25519, and one to agree on keys, of the kind
/// X25519.
pub proof fn law_identities_have_two_keys(keys: Vec<(PeerKeyRole, KeyType)>)
    requires
        call_ensures(peer_keys, (), keys),
    ensures
        keys@.len() == 2,
        keys@[0] == (PeerKeyRole::Verification, KeyType::Ed25519),
        keys@[1] == (PeerKeyRole::Encryption, KeyType::X25519),
{
}

/// Each error of the test mediator says what failed, and why; a mediator's own error is passed on.
pub proof fn law_errors_say_what_failed<E>(reason: String, inner: &str, failure: E, text: String)
    ensures
        call_ensures(
            TestMediatorError::<E>::message,
            (&TestMediatorError::DidGeneration(reason), inner),
            text,
        ) ==> text@ == "did:peer generation failed: "@ + reason@,
        call_ensures(
            TestMediatorError::<E>::message,
            (&TestMediatorError::Bind(reason), inner),
            text,
        ) ==> text@ == "listener bind failed: "@ + reason@,
        call_ensures(
            TestMediatorError::<E>::message,
            (&TestMediatorError::JwtKey(reason), inner),
            text,
        ) ==> text@ == "JWT key generation failed: "@ + reason@,
        call_ensures(
            TestMediatorError::<E>::message,
            (&TestMediatorError::Acl(reason), inner),
            text,
        ) ==> text@ == "ACL operation failed: "@ + reason@,
        call_ensures(
            TestMediatorError::<E>::message,
            (&TestMediatorError::Mediator(failure), inner),
            text,
        ) ==> text@ == inner@,
{
}

} // verus!
