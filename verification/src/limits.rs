//! The raw `[limits]` section and its defaults.

use vstd::prelude::*;

verus! {

/// The `[limits]` section, every limit still as text.
#[derive(Clone, Debug)]
pub struct LimitsConfigRaw {
    pub attachments_max_count: String,
    pub crypto_operations_per_message: String,
    pub deleted_messages: String,
    pub forward_task_queue: String,
    pub http_size: String,
    pub listed_messages: String,
    pub local_max_acl: String,
    pub message_expiry_seconds: String,
    pub message_size: String,
    pub queued_send_messages_soft: String,
    pub queued_send_messages_hard: String,
    pub queued_receive_messages_soft: String,
    pub queued_receive_messages_hard: String,
    pub to_keys_per_recipient: String,
    pub to_recipients: String,
    pub ws_size: String,
    pub access_list_limit: String,
    pub oob_invite_ttl: String,
    pub rate_limit_per_ip: String,
    pub rate_limit_burst: String,
    pub max_websocket_connections: String,
    pub max_websocket_connections_per_did: String,
    pub did_rate_limit_per_second: String,
    pub did_rate_limit_burst: String,
    /// Comma- or white-space-separated CIDR list of trusted reverse proxies. `X-Forwarded-For` is
    /// honoured for per-IP rate limiting only where the socket peer is inside one of these ranges.
    /// Empty by default, so that the header is never trusted blindly.
    pub trusted_proxies: String,
}

impl LimitsConfigRaw {
    /// Whether `self` is `before` with the variables of `env` laid over it.
    pub open spec fn overridden(
        self,
        before: LimitsConfigRaw,
        env: Map<Seq<char>, Seq<char>>,
    ) -> bool {
        &&& self.attachments_max_count@ == crate::env::env_or(
            env,
            "LIMIT_ATTACHMENTS_MAX_COUNT"@,
            before.attachments_max_count@,
        )
        &&& self.crypto_operations_per_message@ == crate::env::env_or(
            env,
            "LIMIT_CRYPTO_OPERATIONS_PER_MESSAGE"@,
            before.crypto_operations_per_message@,
        )
        &&& self.deleted_messages@ == crate::env::env_or(
            env,
            "LIMIT_DELETED_MESSAGES"@,
            before.deleted_messages@,
        )
        &&& self.forward_task_queue@ == crate::env::env_or(
            env,
            "LIMIT_FORWARD_TASK_QUEUE"@,
            before.forward_task_queue@,
        )
        &&& self.http_size@ == crate::env::env_or(env, "LIMIT_HTTP_SIZE"@, before.http_size@)
        &&& self.listed_messages@ == crate::env::env_or(
            env,
            "LIMIT_LISTED_MESSAGES"@,
            before.listed_messages@,
        )
        &&& self.local_max_acl@ == crate::env::env_or(
            env,
            "LIMIT_LOCAL_MAX_ACL"@,
            before.local_max_acl@,
        )
        &&& self.message_expiry_seconds@ == crate::env::env_or(
            env,
            "LIMIT_MESSAGE_EXPIRY_SECONDS"@,
            before.message_expiry_seconds@,
        )
        &&& self.message_size@ == crate::env::env_or(
            env,
            "LIMIT_MESSAGE_SIZE"@,
            before.message_size@,
        )
        &&& self.queued_send_messages_soft@ == crate::env::env_or(
            env,
            "LIMIT_QUEUED_SEND_MESSAGES_SOFT"@,
            before.queued_send_messages_soft@,
        )
        &&& self.queued_send_messages_hard@ == crate::env::env_or(
            env,
            "LIMIT_QUEUED_SEND_MESSAGES_HARD"@,
            before.queued_send_messages_hard@,
        )
        &&& self.queued_receive_messages_soft@ == crate::env::env_or(
            env,
            "LIMIT_QUEUED_RECEIVE_MESSAGES_SOFT"@,
            before.queued_receive_messages_soft@,
        )
        &&& self.queued_receive_messages_hard@ == crate::env::env_or(
            env,
            "LIMIT_QUEUED_RECEIVE_MESSAGES_HARD"@,
            before.queued_receive_messages_hard@,
        )
        &&& self.to_keys_per_recipient@ == crate::env::env_or(
            env,
            "LIMIT_TO_KEYS_PER_DID"@,
            before.to_keys_per_recipient@,
        )
        &&& self.to_recipients@ == crate::env::env_or(
            env,
            "LIMIT_TO_RECIPIENTS"@,
            before.to_recipients@,
        )
        &&& self.ws_size@ == crate::env::env_or(env, "LIMIT_WS_SIZE"@, before.ws_size@)
        &&& self.access_list_limit@ == crate::env::env_or(
            env,
            "ACCESS_LIST_LIMIT"@,
            before.access_list_limit@,
        )
        &&& self.oob_invite_ttl@ == crate::env::env_or(
            env,
            "OOB_INVITE_TTL"@,
            before.oob_invite_ttl@,
        )
        &&& self.rate_limit_per_ip@ == crate::env::env_or(
            env,
            "LIMIT_RATE_LIMIT_PER_IP"@,
            before.rate_limit_per_ip@,
        )
        &&& self.rate_limit_burst@ == crate::env::env_or(
            env,
            "LIMIT_RATE_LIMIT_BURST"@,
            before.rate_limit_burst@,
        )
        &&& self.max_websocket_connections@ == crate::env::env_or(
            env,
            "LIMIT_MAX_WEBSOCKET_CONNECTIONS"@,
            before.max_websocket_connections@,
        )
        &&& self.max_websocket_connections_per_did@ == crate::env::env_or(
            env,
            "LIMIT_MAX_WEBSOCKET_CONNECTIONS_PER_DID"@,
            before.max_websocket_connections_per_did@,
        )
        &&& self.did_rate_limit_per_second@ == crate::env::env_or(
            env,
            "LIMIT_DID_RATE_LIMIT_PER_SECOND"@,
            before.did_rate_limit_per_second@,
        )
        &&& self.did_rate_limit_burst@ == crate::env::env_or(
            env,
            "LIMIT_DID_RATE_LIMIT_BURST"@,
            before.did_rate_limit_burst@,
        )
        &&& self.trusted_proxies@ == crate::env::env_or(
            env,
            "LIMIT_TRUSTED_PROXIES"@,
            before.trusted_proxies@,
        )
    }
}

/// The value of `rate_limit_per_ip` where the file gives none.
pub fn default_rate_limit_per_ip() -> (text: String)
    ensures
        text@ == "100"@,
{
    "100".to_owned()
}

/// The value of `rate_limit_burst` where the file gives none.
pub fn default_rate_limit_burst() -> (text: String)
    ensures
        text@ == "50"@,
{
    "50".to_owned()
}

/// The value of `max_websocket_connections` where the file gives none.
pub fn default_max_websocket_connections() -> (text: String)
    ensures
        text@ == "10000"@,
{
    "10000".to_owned()
}

/// The value of `max_websocket_connections_per_did` where the file gives none.
pub fn default_max_websocket_connections_per_did() -> (text: String)
    ensures
        text@ == "100"@,
{
    "100".to_owned()
}

/// The value of `did_rate_limit_per_second` where the file gives none.
pub fn default_did_rate_limit_per_second() -> (text: String)
    ensures
        text@ == "0"@,
{
    "0".to_owned()
}

/// The value of `did_rate_limit_burst` where the file gives none.
pub fn default_did_rate_limit_burst() -> (text: String)
    ensures
        text@ == "10"@,
{
    "10".to_owned()
}

/// The value of `trusted_proxies` where the file gives none.
pub fn default_trusted_proxies() -> (text: String)
    ensures
        text@ == ""@,
{
    "".to_owned()
}

} // verus!
