//! Reading the configuration text and laying the environment over it.
//!
//! The environment wins over the file. Resolving the texts into numbers, secrets and identities
//! happens later.

use crate::config::{
    ConfigRaw, DatabaseConfigRaw, DidResolverConfigRaw, ForwardingConfigRaw,
    MessageExpiryCleanupConfigRaw, SecretsConfigRaw, SecurityConfigRaw, ServerConfigRaw,
    SessionExpiryCleanupConfigRaw, StreamingConfigRaw,
};
use crate::limits::LimitsConfigRaw;
use crate::text::{chars_of, join, same_text};
use vstd::prelude::*;

verus! {

/// The environment variables that were set, by name.
pub struct EnvVars {
    vars: Vec<(String, String)>,
}

/// The map that a list of settings amounts to; a later setting of a name replaces an earlier one.
spec fn settings_map(vars: Seq<(String, String)>) -> Map<Seq<char>, Seq<char>>
    decreases vars.len(),
{
    if vars.len() == 0 {
        Map::empty()
    } else {
        settings_map(vars.drop_last()).insert(vars.last().0@, vars.last().1@)
    }
}

impl View for EnvVars {
    type V = Map<Seq<char>, Seq<char>>;

    closed spec fn view(&self) -> Map<Seq<char>, Seq<char>> {
        settings_map(self.vars@)
    }
}

impl EnvVars {
    /// No variable set.
    pub fn new() -> (env: EnvVars)
        ensures
            env@ == Map::<Seq<char>, Seq<char>>::empty(),
    {
        EnvVars { vars: Vec::new() }
    }

    /// Sets `name` to `value`.
    pub fn set(&mut self, name: String, value: String)
        ensures
            final(self)@ == old(self)@.insert(name@, value@),
    {
        self.vars.push((name, value));
        assert(self.vars@.drop_last() =~= old(self).vars@);
    }

    /// The value of `name`, where it is set.
    pub fn get(&self, name: &str) -> (value: Option<&String>)
        ensures
            value is Some <==> self@.contains_key(name@),
            value matches Some(v) ==> v@ == self@[name@],
    {
        let mut n: usize = self.vars.len();
        assert(self.vars@.take(n as int) =~= self.vars@);
        while n > 0
            invariant
                n <= self.vars@.len(),
                self@.contains_key(name@) <==> settings_map(
                    self.vars@.take(n as int),
                ).contains_key(name@),
                self@.contains_key(name@) ==> self@[name@] == settings_map(
                    self.vars@.take(n as int),
                )[name@],
            decreases n,
        {
            assert(self.vars@.take(n as int).drop_last() =~= self.vars@.take(n as int - 1));
            let entry = &self.vars[n - 1];
            if same_text(entry.0.as_str(), name) {
                return Some(&entry.1);
            }
            n -= 1;
        }
        None
    }
}

/// The value of `name` in `env`, or `value` where the variable is not set.
pub open spec fn env_or(
    env: Map<Seq<char>, Seq<char>>,
    name: Seq<char>,
    value: Seq<char>,
) -> Seq<char> {
    if env.contains_key(name) {
        env[name]
    } else {
        value
    }
}

/// The value of `name` in `env`, or `value` where the variable is not set.
pub open spec fn env_or_opt(
    env: Map<Seq<char>, Seq<char>>,
    name: Seq<char>,
    value: Option<Seq<char>>,
) -> Option<Seq<char>> {
    if env.contains_key(name) {
        Some(env[name])
    } else {
        value
    }
}

/// Replaces `field` by the variable `name`, where it is set.
fn override_text(field: &mut String, env: &EnvVars, name: &str)
    ensures
        final(field)@ == env_or(env@, name@, old(field)@),
{
    if let Some(value) = env.get(name) {
        *field = value.clone();
    }
}

/// Replaces `field` by the variable `name`, where it is set.
fn override_opt(field: &mut Option<String>, env: &EnvVars, name: &str)
    ensures
        crate::text::opt_view(*final(field)) == env_or_opt(
            env@,
            name@,
            crate::text::opt_view(*old(field)),
        ),
{
    if let Some(value) = env.get(name) {
        *field = Some(value.clone());
    }
}

/// Lays the environment over the `[server]` section.
fn override_server(c: &mut ServerConfigRaw, env: &EnvVars)
    ensures
        final(c).overridden(*old(c), env@),
{
    override_text(&mut c.listen_address, env, "LISTEN_ADDRESS");
    override_text(&mut c.api_prefix, env, "API_PREFIX");
    override_text(&mut c.admin_did, env, "ADMIN_DID");
    override_opt(&mut c.did_web_self_hosted, env, "DID_WEB_SELF_HOSTED");
}

/// Lays the environment over the `[database]` section.
fn override_database(c: &mut DatabaseConfigRaw, env: &EnvVars)
    ensures
        final(c).overridden(*old(c), env@),
{
    override_text(&mut c.functions_file, env, "DATABASE_FUNCTIONS_FILE");
    override_text(&mut c.database_url, env, "DATABASE_URL");
    override_text(&mut c.database_timeout, env, "DATABASE_TIMEOUT");
}

/// Lays the environment over the `[security]` section.
fn override_security(c: &mut SecurityConfigRaw, env: &EnvVars)
    ensures
        final(c).overridden(*old(c), env@),
{
    override_text(&mut c.mediator_acl_mode, env, "MEDIATOR_ACL_MODE");
    override_text(&mut c.global_acl_default, env, "GLOBAL_DEFAULT_ACL");
    override_text(&mut c.local_direct_delivery_allowed, env, "LOCAL_DIRECT_DELIVERY_ALLOWED");
    override_text(&mut c.local_direct_delivery_allow_anon, env, "LOCAL_DIRECT_DELIVERY_ALLOW_ANON");
    override_text(&mut c.use_ssl, env, "USE_SSL");
    override_opt(&mut c.ssl_certificate_file, env, "SSL_CERTIFICATE_FILE");
    override_opt(&mut c.ssl_key_file, env, "SSL_KEY_FILE");
    override_text(&mut c.jwt_access_expiry, env, "JWT_ACCESS_EXPIRY");
    override_text(&mut c.jwt_refresh_expiry, env, "JWT_REFRESH_EXPIRY");
    override_opt(&mut c.cors_allow_origin, env, "CORS_ALLOW_ORIGIN");
    override_text(&mut c.block_anonymous_outer_envelope, env, "BLOCK_ANONYMOUS_OUTER_ENVELOPE");
    override_text(&mut c.force_session_did_match, env, "FORCE_SESSION_DID_MATCH");
    override_text(&mut c.block_remote_admin_msgs, env, "BLOCK_REMOTE_ADMIN_MSGS");
    override_text(&mut c.enable_inter_mediator_relay, env, "ENABLE_INTER_MEDIATOR_RELAY");
    override_text(&mut c.admin_messages_expiry, env, "ADMIN_MESSAGES_EXPIRY");
}

/// Lays the environment over the `[streaming]` section.
fn override_streaming(c: &mut StreamingConfigRaw, env: &EnvVars)
    ensures
        final(c).overridden(*old(c), env@),
{
    override_text(&mut c.enabled, env, "STREAMING_ENABLED");
    override_text(&mut c.uuid, env, "STREAMING_UUID");
}

/// Lays the environment over the `[did_resolver]` section.
fn override_did_resolver(c: &mut DidResolverConfigRaw, env: &EnvVars)
    ensures
        final(c).overridden(*old(c), env@),
{
    override_opt(&mut c.address, env, "DID_RESOLVER_ADDRESS");
    override_text(&mut c.cache_capacity, env, "DID_RESOLVER_CACHE_CAPACITY");
    override_text(&mut c.cache_ttl, env, "DID_RESOLVER_CACHE_TTL");
    override_text(&mut c.network_timeout, env, "DID_RESOLVER_NETWORK_TIMEOUT");
    override_text(&mut c.network_limit, env, "DID_RESOLVER_NETWORK_LIMIT");
}

/// Lays the environment over the `[limits]` section.
fn override_limits(c: &mut LimitsConfigRaw, env: &EnvVars)
    ensures
        final(c).overridden(*old(c), env@),
{
    override_text(&mut c.attachments_max_count, env, "LIMIT_ATTACHMENTS_MAX_COUNT");
    override_text(&mut c.crypto_operations_per_message, env, "LIMIT_CRYPTO_OPERATIONS_PER_MESSAGE");
    override_text(&mut c.deleted_messages, env, "LIMIT_DELETED_MESSAGES");
    override_text(&mut c.forward_task_queue, env, "LIMIT_FORWARD_TASK_QUEUE");
    override_text(&mut c.http_size, env, "LIMIT_HTTP_SIZE");
    override_text(&mut c.listed_messages, env, "LIMIT_LISTED_MESSAGES");
    override_text(&mut c.local_max_acl, env, "LIMIT_LOCAL_MAX_ACL");
    override_text(&mut c.message_expiry_seconds, env, "LIMIT_MESSAGE_EXPIRY_SECONDS");
    override_text(&mut c.message_size, env, "LIMIT_MESSAGE_SIZE");
    override_text(&mut c.queued_send_messages_soft, env, "LIMIT_QUEUED_SEND_MESSAGES_SOFT");
    override_text(&mut c.queued_send_messages_hard, env, "LIMIT_QUEUED_SEND_MESSAGES_HARD");
    override_text(&mut c.queued_receive_messages_soft, env, "LIMIT_QUEUED_RECEIVE_MESSAGES_SOFT");
    override_text(&mut c.queued_receive_messages_hard, env, "LIMIT_QUEUED_RECEIVE_MESSAGES_HARD");
    override_text(&mut c.to_keys_per_recipient, env, "LIMIT_TO_KEYS_PER_DID");
    override_text(&mut c.to_recipients, env, "LIMIT_TO_RECIPIENTS");
    override_text(&mut c.ws_size, env, "LIMIT_WS_SIZE");
    override_text(&mut c.access_list_limit, env, "ACCESS_LIST_LIMIT");
    override_text(&mut c.oob_invite_ttl, env, "OOB_INVITE_TTL");
    override_text(&mut c.rate_limit_per_ip, env, "LIMIT_RATE_LIMIT_PER_IP");
    override_text(&mut c.rate_limit_burst, env, "LIMIT_RATE_LIMIT_BURST");
    override_text(&mut c.max_websocket_connections, env, "LIMIT_MAX_WEBSOCKET_CONNECTIONS");
    override_text(&mut c.max_websocket_connections_per_did, env, "LIMIT_MAX_WEBSOCKET_CONNECTIONS_PER_DID");
    override_text(&mut c.did_rate_limit_per_second, env, "LIMIT_DID_RATE_LIMIT_PER_SECOND");
    override_text(&mut c.did_rate_limit_burst, env, "LIMIT_DID_RATE_LIMIT_BURST");
    override_text(&mut c.trusted_proxies, env, "LIMIT_TRUSTED_PROXIES");
}

/// Lays the environment over the `[processors.forwarding]` section.
fn override_forwarding(c: &mut ForwardingConfigRaw, env: &EnvVars)
    ensures
        final(c).overridden(*old(c), env@),
{
    override_text(&mut c.enabled, env, "PROCESSOR_FORWARDING_ENABLED");
    override_text(&mut c.future_time_limit, env, "PROCESSOR_FORWARDING_FUTURE_TIME_LIMIT");
    override_text(&mut c.external_forwarding, env, "PROCESSOR_FORWARDING_EXTERNAL");
    override_text(&mut c.report_errors, env, "PROCESSOR_FORWARDING_REPORT_ERRORS");
    override_text(&mut c.blocked_forwarding_dids, env, "PROCESSOR_FORWARDING_BLOCKED_DIDS");
    override_text(&mut c.rate_window_seconds, env, "PROCESSOR_FORWARDING_RATE_WINDOW");
    override_text(&mut c.ws_threshold_msgs_per_10s, env, "PROCESSOR_FORWARDING_WS_THRESHOLD");
    override_text(&mut c.ws_idle_timeout_seconds, env, "PROCESSOR_FORWARDING_WS_IDLE_TIMEOUT");
    override_text(&mut c.batch_size, env, "PROCESSOR_FORWARDING_BATCH_SIZE");
    override_text(&mut c.max_retries, env, "PROCESSOR_FORWARDING_MAX_RETRIES");
    override_text(&mut c.initial_backoff_ms, env, "PROCESSOR_FORWARDING_INITIAL_BACKOFF_MS");
    override_text(&mut c.max_backoff_ms, env, "PROCESSOR_FORWARDING_MAX_BACKOFF_MS");
    override_text(&mut c.consumer_group, env, "PROCESSOR_FORWARDING_CONSUMER_GROUP");
}

/// Lays the environment over the `[processors.message_expiry_cleanup]` section.
fn override_message_expiry_cleanup(c: &mut MessageExpiryCleanupConfigRaw, env: &EnvVars)
    ensures
        final(c).overridden(*old(c), env@),
{
    override_text(&mut c.enabled, env, "PROCESSOR_MESSAGE_EXPIRY_CLEANUP_ENABLED");
}

/// Lays the environment over the `[processors.session_expiry_cleanup]` section.
fn override_session_expiry_cleanup(c: &mut SessionExpiryCleanupConfigRaw, env: &EnvVars)
    ensures
        final(c).overridden(*old(c), env@),
{
    override_text(&mut c.enabled, env, "PROCESSOR_SESSION_EXPIRY_CLEANUP_ENABLED");
}

/// Lays the environment over the `[secrets]` section.
fn override_secrets(c: &mut SecretsConfigRaw, env: &EnvVars)
    ensures
        final(c).overridden(*old(c), env@),
{
    override_text(&mut c.backend, env, "MEDIATOR_SECRETS_BACKEND");
    override_opt(&mut c.cache_ttl, env, "MEDIATOR_SECRETS_CACHE_TTL");
}

/// Lays the environment over the configuration: a variable that is set wins over the value in the
/// file, and a value without a variable stays as it is.
pub fn apply_env_overrides(config: &mut ConfigRaw, env: &EnvVars)
    ensures
        final(config).overridden(*old(config), env@),
{
    override_text(&mut config.log_level, env, "LOG_LEVEL");
    override_text(&mut config.log_json, env, "LOG_JSON");
    override_text(&mut config.mediator_did, env, "MEDIATOR_DID");
    override_server(&mut config.server, env);
    override_database(&mut config.database, env);
    override_security(&mut config.security, env);
    override_streaming(&mut config.streaming, env);
    override_did_resolver(&mut config.did_resolver, env);
    override_limits(&mut config.limits, env);
    override_forwarding(&mut config.processors.forwarding, env);
    override_message_expiry_cleanup(&mut config.processors.message_expiry_cleanup, env);
    override_session_expiry_cleanup(&mut config.processors.session_expiry_cleanup, env);
    override_secrets(&mut config.secrets, env);
}

/// Laying one environment over another's result is laying the two merged, the later one winning.
pub proof fn law_environments_merge(
    file: ConfigRaw,
    once: ConfigRaw,
    twice: ConfigRaw,
    first: Map<Seq<char>, Seq<char>>,
    second: Map<Seq<char>, Seq<char>>,
)
    requires
        once.overridden(file, first),
        twice.overridden(once, second),
    ensures
        twice.overridden(file, first.union_prefer_right(second)),
{
}

/// Laying the same environment over a configuration again changes nothing.
pub proof fn law_override_is_idempotent(
    file: ConfigRaw,
    once: ConfigRaw,
    twice: ConfigRaw,
    env: Map<Seq<char>, Seq<char>>,
)
    requires
        once.overridden(file, env),
        twice.overridden(once, env),
    ensures
        twice.overridden(once, Map::empty()),
{
}

/// The names of the variables that some setting reads.
pub open spec fn is_override_name(name: Seq<char>) -> bool {
    ||| name == "LOG_LEVEL"@
    ||| name == "LOG_JSON"@
    ||| name == "MEDIATOR_DID"@
    ||| name == "LISTEN_ADDRESS"@
    ||| name == "API_PREFIX"@
    ||| name == "ADMIN_DID"@
    ||| name == "DID_WEB_SELF_HOSTED"@
    ||| name == "DATABASE_FUNCTIONS_FILE"@
    ||| name == "DATABASE_URL"@
    ||| name == "DATABASE_TIMEOUT"@
    ||| name == "MEDIATOR_ACL_MODE"@
    ||| name == "GLOBAL_DEFAULT_ACL"@
    ||| name == "LOCAL_DIRECT_DELIVERY_ALLOWED"@
    ||| name == "LOCAL_DIRECT_DELIVERY_ALLOW_ANON"@
    ||| name == "USE_SSL"@
    ||| name == "SSL_CERTIFICATE_FILE"@
    ||| name == "SSL_KEY_FILE"@
    ||| name == "JWT_ACCESS_EXPIRY"@
    ||| name == "JWT_REFRESH_EXPIRY"@
    ||| name == "CORS_ALLOW_ORIGIN"@
    ||| name == "BLOCK_ANONYMOUS_OUTER_ENVELOPE"@
    ||| name == "FORCE_SESSION_DID_MATCH"@
    ||| name == "BLOCK_REMOTE_ADMIN_MSGS"@
    ||| name == "ENABLE_INTER_MEDIATOR_RELAY"@
    ||| name == "ADMIN_MESSAGES_EXPIRY"@
    ||| name == "STREAMING_ENABLED"@
    ||| name == "STREAMING_UUID"@
    ||| name == "DID_RESOLVER_ADDRESS"@
    ||| name == "DID_RESOLVER_CACHE_CAPACITY"@
    ||| name == "DID_RESOLVER_CACHE_TTL"@
    ||| name == "DID_RESOLVER_NETWORK_TIMEOUT"@
    ||| name == "DID_RESOLVER_NETWORK_LIMIT"@
    ||| name == "LIMIT_ATTACHMENTS_MAX_COUNT"@
    ||| name == "LIMIT_CRYPTO_OPERATIONS_PER_MESSAGE"@
    ||| name == "LIMIT_DELETED_MESSAGES"@
    ||| name == "LIMIT_FORWARD_TASK_QUEUE"@
    ||| name == "LIMIT_HTTP_SIZE"@
    ||| name == "LIMIT_LISTED_MESSAGES"@
    ||| name == "LIMIT_LOCAL_MAX_ACL"@
    ||| name == "LIMIT_MESSAGE_EXPIRY_SECONDS"@
    ||| name == "LIMIT_MESSAGE_SIZE"@
    ||| name == "LIMIT_QUEUED_SEND_MESSAGES_SOFT"@
    ||| name == "LIMIT_QUEUED_SEND_MESSAGES_HARD"@
    ||| name == "LIMIT_QUEUED_RECEIVE_MESSAGES_SOFT"@
    ||| name == "LIMIT_QUEUED_RECEIVE_MESSAGES_HARD"@
    ||| name == "LIMIT_TO_KEYS_PER_DID"@
    ||| name == "LIMIT_TO_RECIPIENTS"@
    ||| name == "LIMIT_WS_SIZE"@
    ||| name == "ACCESS_LIST_LIMIT"@
    ||| name == "OOB_INVITE_TTL"@
    ||| name == "LIMIT_RATE_LIMIT_PER_IP"@
    ||| name == "LIMIT_RATE_LIMIT_BURST"@
    ||| name == "LIMIT_MAX_WEBSOCKET_CONNECTIONS"@
    ||| name == "LIMIT_MAX_WEBSOCKET_CONNECTIONS_PER_DID"@
    ||| name == "LIMIT_DID_RATE_LIMIT_PER_SECOND"@
    ||| name == "LIMIT_DID_RATE_LIMIT_BURST"@
    ||| name == "LIMIT_TRUSTED_PROXIES"@
    ||| name == "PROCESSOR_FORWARDING_ENABLED"@
    ||| name == "PROCESSOR_FORWARDING_FUTURE_TIME_LIMIT"@
    ||| name == "PROCESSOR_FORWARDING_EXTERNAL"@
    ||| name == "PROCESSOR_FORWARDING_REPORT_ERRORS"@
    ||| name == "PROCESSOR_FORWARDING_BLOCKED_DIDS"@
    ||| name == "PROCESSOR_FORWARDING_RATE_WINDOW"@
    ||| name == "PROCESSOR_FORWARDING_WS_THRESHOLD"@
    ||| name == "PROCESSOR_FORWARDING_WS_IDLE_TIMEOUT"@
    ||| name == "PROCESSOR_FORWARDING_BATCH_SIZE"@
    ||| name == "PROCESSOR_FORWARDING_MAX_RETRIES"@
    ||| name == "PROCESSOR_FORWARDING_INITIAL_BACKOFF_MS"@
    ||| name == "PROCESSOR_FORWARDING_MAX_BACKOFF_MS"@
    ||| name == "PROCESSOR_FORWARDING_CONSUMER_GROUP"@
    ||| name == "PROCESSOR_MESSAGE_EXPIRY_CLEANUP_ENABLED"@
    ||| name == "PROCESSOR_SESSION_EXPIRY_CLEANUP_ENABLED"@
    ||| name == "MEDIATOR_SECRETS_BACKEND"@
    ||| name == "MEDIATOR_SECRETS_CACHE_TTL"@
}

/// A variable that no setting reads has no effect on the configuration.
pub proof fn law_other_variables_are_ignored(
    before: ConfigRaw,
    after: ConfigRaw,
    env: Map<Seq<char>, Seq<char>>,
    name: Seq<char>,
    value: Seq<char>,
)
    requires
        !is_override_name(name),
    ensures
        after.overridden(before, env.insert(name, value)) <==> after.overridden(before, env),
{
}

/// A comment line starts with `#`.
pub open spec fn is_comment(line: Seq<char>) -> bool {
    line.len() > 0 && line[0] == '#'
}

/// The lines that are not comments, in order.
pub open spec fn without_comments(lines: Seq<Seq<char>>) -> Seq<Seq<char>> {
    lines.filter(|line: Seq<char>| !is_comment(line))
}

/// Drops the lines that start with `#`.
pub fn strip_comments(lines: Vec<String>) -> (kept: Vec<String>)
    ensures
        crate::text::views(kept@) == without_comments(crate::text::views(lines@)),
{
    let mut kept: Vec<String> = Vec::new();
    let ghost all = crate::text::views(lines@);
    let ghost keep = |line: Seq<char>| !is_comment(line);
    let mut i: usize = 0;
    proof {
        reveal(Seq::filter);
        assert(all.take(0).filter(keep) =~= crate::text::views(kept@));
    }
    while i < lines.len()
        invariant
            i <= lines@.len(),
            all == crate::text::views(lines@),
            keep == (|line: Seq<char>| !is_comment(line)),
            crate::text::views(kept@) == all.take(i as int).filter(keep),
        decreases lines.len() - i,
    {
        let chars = chars_of(lines[i].as_str());
        let ghost before = crate::text::views(kept@);
        proof {
            reveal(Seq::filter);
            assert(all.take(i as int + 1).drop_last() =~= all.take(i as int));
            assert(all.take(i as int + 1).last() == lines@[i as int]@);
        }
        if !(chars.len() > 0 && chars[0] == '#') {
            kept.push(lines[i].clone());
            assert(crate::text::views(kept@) =~= before.push(lines@[i as int]@));
        }
        i += 1;
    }
    assert(all.take(i as int) =~= all);
    kept
}

/// The configuration text that a file's lines amount to: the lines that are not comments, joined
/// by line feeds.
pub fn config_text(lines: Vec<String>) -> (text: String)
    ensures
        text@ == crate::text::joined(without_comments(crate::text::views(lines@)), "\n"@),
{
    join(&strip_comments(lines), "\n")
}

} // verus!
