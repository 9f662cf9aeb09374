//! What the environment and the configuration file come to.

use crate::config::ConfigRaw;
use crate::env::{apply_env_overrides, config_text, strip_comments, EnvVars};
use crate::limits::{
    default_did_rate_limit_burst, default_did_rate_limit_per_second,
    default_max_websocket_connections, default_max_websocket_connections_per_did,
    default_rate_limit_burst, default_rate_limit_per_ip, default_trusted_proxies,
};
use vstd::prelude::*;

verus! {

/// In an environment that sets one variable and no other, the setting that is named after it takes
/// its value, and every other setting stays as the file has it. A variable that no setting is named
/// after, and an empty environment, change nothing.
pub proof fn law_each_variable_sets_its_own_setting(env: EnvVars, name: Seq<char>)
    requires
        forall|other: Seq<char>| #[trigger] env@.contains_key(other) ==> other == name,
    ensures
        forall|config: &mut ConfigRaw| #[trigger]
            call_ensures(apply_env_overrides, (config, &env), ()) ==> {
                let before = *config;
                let after = *final(config);
                let set = env@.contains_key(name);
                let value = env@[name];
                &&& after.log_level@ == if set && name == "LOG_LEVEL"@ {
                    value
                } else {
                    before.log_level@
                }
                &&& after.log_json@ == if set && name == "LOG_JSON"@ {
                    value
                } else {
                    before.log_json@
                }
                &&& after.mediator_did@ == if set && name == "MEDIATOR_DID"@ {
                    value
                } else {
                    before.mediator_did@
                }
                &&& after.server.listen_address@ == if set && name == "LISTEN_ADDRESS"@ {
                    value
                } else {
                    before.server.listen_address@
                }
                &&& after.server.api_prefix@ == if set && name == "API_PREFIX"@ {
                    value
                } else {
                    before.server.api_prefix@
                }
                &&& after.server.admin_did@ == if set && name == "ADMIN_DID"@ {
                    value
                } else {
                    before.server.admin_did@
                }
                &&& crate::text::opt_view(after.server.did_web_self_hosted)
                    == if set && name == "DID_WEB_SELF_HOSTED"@ {
                    Some(value)
                } else {
                    crate::text::opt_view(before.server.did_web_self_hosted)
                }
                &&& after.database.functions_file@ == if set && name == "DATABASE_FUNCTIONS_FILE"@ {
                    value
                } else {
                    before.database.functions_file@
                }
                &&& after.database.database_url@ == if set && name == "DATABASE_URL"@ {
                    value
                } else {
                    before.database.database_url@
                }
                &&& after.database.database_timeout@ == if set && name == "DATABASE_TIMEOUT"@ {
                    value
                } else {
                    before.database.database_timeout@
                }
                &&& after.security.mediator_acl_mode@ == if set && name == "MEDIATOR_ACL_MODE"@ {
                    value
                } else {
                    before.security.mediator_acl_mode@
                }
                &&& after.security.global_acl_default@ == if set && name == "GLOBAL_DEFAULT_ACL"@ {
                    value
                } else {
                    before.security.global_acl_default@
                }
                &&& after.security.local_direct_delivery_allowed@
                    == if set && name == "LOCAL_DIRECT_DELIVERY_ALLOWED"@ {
                    value
                } else {
                    before.security.local_direct_delivery_allowed@
                }
                &&& after.security.local_direct_delivery_allow_anon@
                    == if set && name == "LOCAL_DIRECT_DELIVERY_ALLOW_ANON"@ {
                    value
                } else {
                    before.security.local_direct_delivery_allow_anon@
                }
                &&& after.security.use_ssl@ == if set && name == "USE_SSL"@ {
                    value
                } else {
                    before.security.use_ssl@
                }
                &&& crate::text::opt_view(after.security.ssl_certificate_file)
                    == if set && name == "SSL_CERTIFICATE_FILE"@ {
                    Some(value)
                } else {
                    crate::text::opt_view(before.security.ssl_certificate_file)
                }
                &&& crate::text::opt_view(after.security.ssl_key_file)
                    == if set && name == "SSL_KEY_FILE"@ {
                    Some(value)
                } else {
                    crate::text::opt_view(before.security.ssl_key_file)
                }
                &&& after.security.jwt_access_expiry@ == if set && name == "JWT_ACCESS_EXPIRY"@ {
                    value
                } else {
                    before.security.jwt_access_expiry@
                }
                &&& after.security.jwt_refresh_expiry@ == if set && name == "JWT_REFRESH_EXPIRY"@ {
                    value
                } else {
                    before.security.jwt_refresh_expiry@
                }
                &&& crate::text::opt_view(after.security.cors_allow_origin)
                    == if set && name == "CORS_ALLOW_ORIGIN"@ {
                    Some(value)
                } else {
                    crate::text::opt_view(before.security.cors_allow_origin)
                }
                &&& after.security.block_anonymous_outer_envelope@
                    == if set && name == "BLOCK_ANONYMOUS_OUTER_ENVELOPE"@ {
                    value
                } else {
                    before.security.block_anonymous_outer_envelope@
                }
                &&& after.security.force_session_did_match@
                    == if set && name == "FORCE_SESSION_DID_MATCH"@ {
                    value
                } else {
                    before.security.force_session_did_match@
                }
                &&& after.security.block_remote_admin_msgs@
                    == if set && name == "BLOCK_REMOTE_ADMIN_MSGS"@ {
                    value
                } else {
                    before.security.block_remote_admin_msgs@
                }
                &&& after.security.enable_inter_mediator_relay@
                    == if set && name == "ENABLE_INTER_MEDIATOR_RELAY"@ {
                    value
                } else {
                    before.security.enable_inter_mediator_relay@
                }
                &&& after.security.admin_messages_expiry@
                    == if set && name == "ADMIN_MESSAGES_EXPIRY"@ {
                    value
                } else {
                    before.security.admin_messages_expiry@
                }
                &&& after.streaming.enabled@ == if set && name == "STREAMING_ENABLED"@ {
                    value
                } else {
                    before.streaming.enabled@
                }
                &&& after.streaming.uuid@ == if set && name == "STREAMING_UUID"@ {
                    value
                } else {
                    before.streaming.uuid@
                }
                &&& crate::text::opt_view(after.did_resolver.address)
                    == if set && name == "DID_RESOLVER_ADDRESS"@ {
                    Some(value)
                } else {
                    crate::text::opt_view(before.did_resolver.address)
                }
                &&& after.did_resolver.cache_capacity@
                    == if set && name == "DID_RESOLVER_CACHE_CAPACITY"@ {
                    value
                } else {
                    before.did_resolver.cache_capacity@
                }
                &&& after.did_resolver.cache_ttl@ == if set && name == "DID_RESOLVER_CACHE_TTL"@ {
                    value
                } else {
                    before.did_resolver.cache_ttl@
                }
                &&& after.did_resolver.network_timeout@
                    == if set && name == "DID_RESOLVER_NETWORK_TIMEOUT"@ {
                    value
                } else {
                    before.did_resolver.network_timeout@
                }
                &&& after.did_resolver.network_limit@
                    == if set && name == "DID_RESOLVER_NETWORK_LIMIT"@ {
                    value
                } else {
                    before.did_resolver.network_limit@
                }
                &&& after.limits.attachments_max_count@
                    == if set && name == "LIMIT_ATTACHMENTS_MAX_COUNT"@ {
                    value
                } else {
                    before.limits.attachments_max_count@
                }
                &&& after.limits.crypto_operations_per_message@
                    == if set && name == "LIMIT_CRYPTO_OPERATIONS_PER_MESSAGE"@ {
                    value
                } else {
                    before.limits.crypto_operations_per_message@
                }
                &&& after.limits.deleted_messages@ == if set && name == "LIMIT_DELETED_MESSAGES"@ {
                    value
                } else {
                    before.limits.deleted_messages@
                }
                &&& after.limits.forward_task_queue@
                    == if set && name == "LIMIT_FORWARD_TASK_QUEUE"@ {
                    value
                } else {
                    before.limits.forward_task_queue@
                }
                &&& after.limits.http_size@ == if set && name == "LIMIT_HTTP_SIZE"@ {
                    value
                } else {
                    before.limits.http_size@
                }
                &&& after.limits.listed_messages@ == if set && name == "LIMIT_LISTED_MESSAGES"@ {
                    value
                } else {
                    before.limits.listed_messages@
                }
                &&& after.limits.local_max_acl@ == if set && name == "LIMIT_LOCAL_MAX_ACL"@ {
                    value
                } else {
                    before.limits.local_max_acl@
                }
                &&& after.limits.message_expiry_seconds@
                    == if set && name == "LIMIT_MESSAGE_EXPIRY_SECONDS"@ {
                    value
                } else {
                    before.limits.message_expiry_seconds@
                }
                &&& after.limits.message_size@ == if set && name == "LIMIT_MESSAGE_SIZE"@ {
                    value
                } else {
                    before.limits.message_size@
                }
                &&& after.limits.queued_send_messages_soft@
                    == if set && name == "LIMIT_QUEUED_SEND_MESSAGES_SOFT"@ {
                    value
                } else {
                    before.limits.queued_send_messages_soft@
                }
                &&& after.limits.queued_send_messages_hard@
                    == if set && name == "LIMIT_QUEUED_SEND_MESSAGES_HARD"@ {
                    value
                } else {
                    before.limits.queued_send_messages_hard@
                }
                &&& after.limits.queued_receive_messages_soft@
                    == if set && name == "LIMIT_QUEUED_RECEIVE_MESSAGES_SOFT"@ {
                    value
                } else {
                    before.limits.queued_receive_messages_soft@
                }
                &&& after.limits.queued_receive_messages_hard@
                    == if set && name == "LIMIT_QUEUED_RECEIVE_MESSAGES_HARD"@ {
                    value
                } else {
                    before.limits.queued_receive_messages_hard@
                }
                &&& after.limits.to_keys_per_recipient@
                    == if set && name == "LIMIT_TO_KEYS_PER_DID"@ {
                    value
                } else {
                    before.limits.to_keys_per_recipient@
                }
                &&& after.limits.to_recipients@ == if set && name == "LIMIT_TO_RECIPIENTS"@ {
                    value
                } else {
                    before.limits.to_recipients@
                }
                &&& after.limits.ws_size@ == if set && name == "LIMIT_WS_SIZE"@ {
                    value
                } else {
                    before.limits.ws_size@
                }
                &&& after.limits.access_list_limit@ == if set && name == "ACCESS_LIST_LIMIT"@ {
                    value
                } else {
                    before.limits.access_list_limit@
                }
                &&& after.limits.oob_invite_ttl@ == if set && name == "OOB_INVITE_TTL"@ {
                    value
                } else {
                    before.limits.oob_invite_ttl@
                }
                &&& after.limits.rate_limit_per_ip@
                    == if set && name == "LIMIT_RATE_LIMIT_PER_IP"@ {
                    value
                } else {
                    before.limits.rate_limit_per_ip@
                }
                &&& after.limits.rate_limit_burst@ == if set && name == "LIMIT_RATE_LIMIT_BURST"@ {
                    value
                } else {
                    before.limits.rate_limit_burst@
                }
                &&& after.limits.max_websocket_connections@
                    == if set && name == "LIMIT_MAX_WEBSOCKET_CONNECTIONS"@ {
                    value
                } else {
                    before.limits.max_websocket_connections@
                }
                &&& after.limits.max_websocket_connections_per_did@
                    == if set && name == "LIMIT_MAX_WEBSOCKET_CONNECTIONS_PER_DID"@ {
                    value
                } else {
                    before.limits.max_websocket_connections_per_did@
                }
                &&& after.limits.did_rate_limit_per_second@
                    == if set && name == "LIMIT_DID_RATE_LIMIT_PER_SECOND"@ {
                    value
                } else {
                    before.limits.did_rate_limit_per_second@
                }
                &&& after.limits.did_rate_limit_burst@
                    == if set && name == "LIMIT_DID_RATE_LIMIT_BURST"@ {
                    value
                } else {
                    before.limits.did_rate_limit_burst@
                }
                &&& after.limits.trusted_proxies@ == if set && name == "LIMIT_TRUSTED_PROXIES"@ {
                    value
                } else {
                    before.limits.trusted_proxies@
                }
                &&& after.processors.forwarding.enabled@
                    == if set && name == "PROCESSOR_FORWARDING_ENABLED"@ {
                    value
                } else {
                    before.processors.forwarding.enabled@
                }
                &&& after.processors.forwarding.future_time_limit@
                    == if set && name == "PROCESSOR_FORWARDING_FUTURE_TIME_LIMIT"@ {
                    value
                } else {
                    before.processors.forwarding.future_time_limit@
                }
                &&& after.processors.forwarding.external_forwarding@
                    == if set && name == "PROCESSOR_FORWARDING_EXTERNAL"@ {
                    value
                } else {
                    before.processors.forwarding.external_forwarding@
                }
                &&& after.processors.forwarding.report_errors@
                    == if set && name == "PROCESSOR_FORWARDING_REPORT_ERRORS"@ {
                    value
                } else {
                    before.processors.forwarding.report_errors@
                }
                &&& after.processors.forwarding.blocked_forwarding_dids@
                    == if set && name == "PROCESSOR_FORWARDING_BLOCKED_DIDS"@ {
                    value
                } else {
                    before.processors.forwarding.blocked_forwarding_dids@
                }
                &&& after.processors.forwarding.rate_window_seconds@
                    == if set && name == "PROCESSOR_FORWARDING_RATE_WINDOW"@ {
                    value
                } else {
                    before.processors.forwarding.rate_window_seconds@
                }
                &&& after.processors.forwarding.ws_threshold_msgs_per_10s@
                    == if set && name == "PROCESSOR_FORWARDING_WS_THRESHOLD"@ {
                    value
                } else {
                    before.processors.forwarding.ws_threshold_msgs_per_10s@
                }
                &&& after.processors.forwarding.ws_idle_timeout_seconds@
                    == if set && name == "PROCESSOR_FORWARDING_WS_IDLE_TIMEOUT"@ {
                    value
                } else {
                    before.processors.forwarding.ws_idle_timeout_seconds@
                }
                &&& after.processors.forwarding.batch_size@
                    == if set && name == "PROCESSOR_FORWARDING_BATCH_SIZE"@ {
                    value
                } else {
                    before.processors.forwarding.batch_size@
                }
                &&& after.processors.forwarding.max_retries@
                    == if set && name == "PROCESSOR_FORWARDING_MAX_RETRIES"@ {
                    value
                } else {
                    before.processors.forwarding.max_retries@
                }
                &&& after.processors.forwarding.initial_backoff_ms@
                    == if set && name == "PROCESSOR_FORWARDING_INITIAL_BACKOFF_MS"@ {
                    value
                } else {
                    before.processors.forwarding.initial_backoff_ms@
                }
                &&& after.processors.forwarding.max_backoff_ms@
                    == if set && name == "PROCESSOR_FORWARDING_MAX_BACKOFF_MS"@ {
                    value
                } else {
                    before.processors.forwarding.max_backoff_ms@
                }
                &&& after.processors.forwarding.consumer_group@
                    == if set && name == "PROCESSOR_FORWARDING_CONSUMER_GROUP"@ {
                    value
                } else {
                    before.processors.forwarding.consumer_group@
                }
                &&& after.processors.message_expiry_cleanup.enabled@
                    == if set && name == "PROCESSOR_MESSAGE_EXPIRY_CLEANUP_ENABLED"@ {
                    value
                } else {
                    before.processors.message_expiry_cleanup.enabled@
                }
                &&& after.processors.session_expiry_cleanup.enabled@
                    == if set && name == "PROCESSOR_SESSION_EXPIRY_CLEANUP_ENABLED"@ {
                    value
                } else {
                    before.processors.session_expiry_cleanup.enabled@
                }
                &&& after.secrets.backend@ == if set && name == "MEDIATOR_SECRETS_BACKEND"@ {
                    value
                } else {
                    before.secrets.backend@
                }
                &&& crate::text::opt_view(after.secrets.cache_ttl)
                    == if set && name == "MEDIATOR_SECRETS_CACHE_TTL"@ {
                    Some(value)
                } else {
                    crate::text::opt_view(before.secrets.cache_ttl)
                }
            },
{
}

/// Setting one variable more changes the setting that is named after it, which takes the value, and
/// no other: all the others come out as they do without it.
pub proof fn law_one_variable_more_changes_one_setting(
    env: EnvVars,
    more: EnvVars,
    name: Seq<char>,
    value: Seq<char>,
)
    requires
        more@ == env@.insert(name, value),
    ensures
        forall|with: &mut ConfigRaw, without: &mut ConfigRaw|
            *with == *without && #[trigger] call_ensures(apply_env_overrides, (with, &more), ())
                && #[trigger] call_ensures(apply_env_overrides, (without, &env), ()) ==> {
                let after = *final(with);
                let before = *final(without);
                &&& after.log_level@ == if name == "LOG_LEVEL"@ {
                    value
                } else {
                    before.log_level@
                }
                &&& after.log_json@ == if name == "LOG_JSON"@ {
                    value
                } else {
                    before.log_json@
                }
                &&& after.mediator_did@ == if name == "MEDIATOR_DID"@ {
                    value
                } else {
                    before.mediator_did@
                }
                &&& after.server.listen_address@ == if name == "LISTEN_ADDRESS"@ {
                    value
                } else {
                    before.server.listen_address@
                }
                &&& after.server.api_prefix@ == if name == "API_PREFIX"@ {
                    value
                } else {
                    before.server.api_prefix@
                }
                &&& after.server.admin_did@ == if name == "ADMIN_DID"@ {
                    value
                } else {
                    before.server.admin_did@
                }
                &&& crate::text::opt_view(after.server.did_web_self_hosted)
                    == if name == "DID_WEB_SELF_HOSTED"@ {
                    Some(value)
                } else {
                    crate::text::opt_view(before.server.did_web_self_hosted)
                }
                &&& after.database.functions_file@ == if name == "DATABASE_FUNCTIONS_FILE"@ {
                    value
                } else {
                    before.database.functions_file@
                }
                &&& after.database.database_url@ == if name == "DATABASE_URL"@ {
                    value
                } else {
                    before.database.database_url@
                }
                &&& after.database.database_timeout@ == if name == "DATABASE_TIMEOUT"@ {
                    value
                } else {
                    before.database.database_timeout@
                }
                &&& after.security.mediator_acl_mode@ == if name == "MEDIATOR_ACL_MODE"@ {
                    value
                } else {
                    before.security.mediator_acl_mode@
                }
                &&& after.security.global_acl_default@ == if name == "GLOBAL_DEFAULT_ACL"@ {
                    value
                } else {
                    before.security.global_acl_default@
                }
                &&& after.security.local_direct_delivery_allowed@
                    == if name == "LOCAL_DIRECT_DELIVERY_ALLOWED"@ {
                    value
                } else {
                    before.security.local_direct_delivery_allowed@
                }
                &&& after.security.local_direct_delivery_allow_anon@
                    == if name == "LOCAL_DIRECT_DELIVERY_ALLOW_ANON"@ {
                    value
                } else {
                    before.security.local_direct_delivery_allow_anon@
                }
                &&& after.security.use_ssl@ == if name == "USE_SSL"@ {
                    value
                } else {
                    before.security.use_ssl@
                }
                &&& crate::text::opt_view(after.security.ssl_certificate_file)
                    == if name == "SSL_CERTIFICATE_FILE"@ {
                    Some(value)
                } else {
                    crate::text::opt_view(before.security.ssl_certificate_file)
                }
                &&& crate::text::opt_view(after.security.ssl_key_file)
                    == if name == "SSL_KEY_FILE"@ {
                    Some(value)
                } else {
                    crate::text::opt_view(before.security.ssl_key_file)
                }
                &&& after.security.jwt_access_expiry@ == if name == "JWT_ACCESS_EXPIRY"@ {
                    value
                } else {
                    before.security.jwt_access_expiry@
                }
                &&& after.security.jwt_refresh_expiry@ == if name == "JWT_REFRESH_EXPIRY"@ {
                    value
                } else {
                    before.security.jwt_refresh_expiry@
                }
                &&& crate::text::opt_view(after.security.cors_allow_origin)
                    == if name == "CORS_ALLOW_ORIGIN"@ {
                    Some(value)
                } else {
                    crate::text::opt_view(before.security.cors_allow_origin)
                }
                &&& after.security.block_anonymous_outer_envelope@
                    == if name == "BLOCK_ANONYMOUS_OUTER_ENVELOPE"@ {
                    value
                } else {
                    before.security.block_anonymous_outer_envelope@
                }
                &&& after.security.force_session_did_match@
                    == if name == "FORCE_SESSION_DID_MATCH"@ {
                    value
                } else {
                    before.security.force_session_did_match@
                }
                &&& after.security.block_remote_admin_msgs@
                    == if name == "BLOCK_REMOTE_ADMIN_MSGS"@ {
                    value
                } else {
                    before.security.block_remote_admin_msgs@
                }
                &&& after.security.enable_inter_mediator_relay@
                    == if name == "ENABLE_INTER_MEDIATOR_RELAY"@ {
                    value
                } else {
                    before.security.enable_inter_mediator_relay@
                }
                &&& after.security.admin_messages_expiry@ == if name == "ADMIN_MESSAGES_EXPIRY"@ {
                    value
                } else {
                    before.security.admin_messages_expiry@
                }
                &&& after.streaming.enabled@ == if name == "STREAMING_ENABLED"@ {
                    value
                } else {
                    before.streaming.enabled@
                }
                &&& after.streaming.uuid@ == if name == "STREAMING_UUID"@ {
                    value
                } else {
                    before.streaming.uuid@
                }
                &&& crate::text::opt_view(after.did_resolver.address)
                    == if name == "DID_RESOLVER_ADDRESS"@ {
                    Some(value)
                } else {
                    crate::text::opt_view(before.did_resolver.address)
                }
                &&& after.did_resolver.cache_capacity@
                    == if name == "DID_RESOLVER_CACHE_CAPACITY"@ {
                    value
                } else {
                    before.did_resolver.cache_capacity@
                }
                &&& after.did_resolver.cache_ttl@ == if name == "DID_RESOLVER_CACHE_TTL"@ {
                    value
                } else {
                    before.did_resolver.cache_ttl@
                }
                &&& after.did_resolver.network_timeout@
                    == if name == "DID_RESOLVER_NETWORK_TIMEOUT"@ {
                    value
                } else {
                    before.did_resolver.network_timeout@
                }
                &&& after.did_resolver.network_limit@ == if name == "DID_RESOLVER_NETWORK_LIMIT"@ {
                    value
                } else {
                    before.did_resolver.network_limit@
                }
                &&& after.limits.attachments_max_count@
                    == if name == "LIMIT_ATTACHMENTS_MAX_COUNT"@ {
                    value
                } else {
                    before.limits.attachments_max_count@
                }
                &&& after.limits.crypto_operations_per_message@
                    == if name == "LIMIT_CRYPTO_OPERATIONS_PER_MESSAGE"@ {
                    value
                } else {
                    before.limits.crypto_operations_per_message@
                }
                &&& after.limits.deleted_messages@ == if name == "LIMIT_DELETED_MESSAGES"@ {
                    value
                } else {
                    before.limits.deleted_messages@
                }
                &&& after.limits.forward_task_queue@ == if name == "LIMIT_FORWARD_TASK_QUEUE"@ {
                    value
                } else {
                    before.limits.forward_task_queue@
                }
                &&& after.limits.http_size@ == if name == "LIMIT_HTTP_SIZE"@ {
                    value
                } else {
                    before.limits.http_size@
                }
                &&& after.limits.listed_messages@ == if name == "LIMIT_LISTED_MESSAGES"@ {
                    value
                } else {
                    before.limits.listed_messages@
                }
                &&& after.limits.local_max_acl@ == if name == "LIMIT_LOCAL_MAX_ACL"@ {
                    value
                } else {
                    before.limits.local_max_acl@
                }
                &&& after.limits.message_expiry_seconds@
                    == if name == "LIMIT_MESSAGE_EXPIRY_SECONDS"@ {
                    value
                } else {
                    before.limits.message_expiry_seconds@
                }
                &&& after.limits.message_size@ == if name == "LIMIT_MESSAGE_SIZE"@ {
                    value
                } else {
                    before.limits.message_size@
                }
                &&& after.limits.queued_send_messages_soft@
                    == if name == "LIMIT_QUEUED_SEND_MESSAGES_SOFT"@ {
                    value
                } else {
                    before.limits.queued_send_messages_soft@
                }
                &&& after.limits.queued_send_messages_hard@
                    == if name == "LIMIT_QUEUED_SEND_MESSAGES_HARD"@ {
                    value
                } else {
                    before.limits.queued_send_messages_hard@
                }
                &&& after.limits.queued_receive_messages_soft@
                    == if name == "LIMIT_QUEUED_RECEIVE_MESSAGES_SOFT"@ {
                    value
                } else {
                    before.limits.queued_receive_messages_soft@
                }
                &&& after.limits.queued_receive_messages_hard@
                    == if name == "LIMIT_QUEUED_RECEIVE_MESSAGES_HARD"@ {
                    value
                } else {
                    before.limits.queued_receive_messages_hard@
                }
                &&& after.limits.to_keys_per_recipient@ == if name == "LIMIT_TO_KEYS_PER_DID"@ {
                    value
                } else {
                    before.limits.to_keys_per_recipient@
                }
                &&& after.limits.to_recipients@ == if name == "LIMIT_TO_RECIPIENTS"@ {
                    value
                } else {
                    before.limits.to_recipients@
                }
                &&& after.limits.ws_size@ == if name == "LIMIT_WS_SIZE"@ {
                    value
                } else {
                    before.limits.ws_size@
                }
                &&& after.limits.access_list_limit@ == if name == "ACCESS_LIST_LIMIT"@ {
                    value
                } else {
                    before.limits.access_list_limit@
                }
                &&& after.limits.oob_invite_ttl@ == if name == "OOB_INVITE_TTL"@ {
                    value
                } else {
                    before.limits.oob_invite_ttl@
                }
                &&& after.limits.rate_limit_per_ip@ == if name == "LIMIT_RATE_LIMIT_PER_IP"@ {
                    value
                } else {
                    before.limits.rate_limit_per_ip@
                }
                &&& after.limits.rate_limit_burst@ == if name == "LIMIT_RATE_LIMIT_BURST"@ {
                    value
                } else {
                    before.limits.rate_limit_burst@
                }
                &&& after.limits.max_websocket_connections@
                    == if name == "LIMIT_MAX_WEBSOCKET_CONNECTIONS"@ {
                    value
                } else {
                    before.limits.max_websocket_connections@
                }
                &&& after.limits.max_websocket_connections_per_did@
                    == if name == "LIMIT_MAX_WEBSOCKET_CONNECTIONS_PER_DID"@ {
                    value
                } else {
                    before.limits.max_websocket_connections_per_did@
                }
                &&& after.limits.did_rate_limit_per_second@
                    == if name == "LIMIT_DID_RATE_LIMIT_PER_SECOND"@ {
                    value
                } else {
                    before.limits.did_rate_limit_per_second@
                }
                &&& after.limits.did_rate_limit_burst@ == if name == "LIMIT_DID_RATE_LIMIT_BURST"@ {
                    value
                } else {
                    before.limits.did_rate_limit_burst@
                }
                &&& after.limits.trusted_proxies@ == if name == "LIMIT_TRUSTED_PROXIES"@ {
                    value
                } else {
                    before.limits.trusted_proxies@
                }
                &&& after.processors.forwarding.enabled@
                    == if name == "PROCESSOR_FORWARDING_ENABLED"@ {
                    value
                } else {
                    before.processors.forwarding.enabled@
                }
                &&& after.processors.forwarding.future_time_limit@
                    == if name == "PROCESSOR_FORWARDING_FUTURE_TIME_LIMIT"@ {
                    value
                } else {
                    before.processors.forwarding.future_time_limit@
                }
                &&& after.processors.forwarding.external_forwarding@
                    == if name == "PROCESSOR_FORWARDING_EXTERNAL"@ {
                    value
                } else {
                    before.processors.forwarding.external_forwarding@
                }
                &&& after.processors.forwarding.report_errors@
                    == if name == "PROCESSOR_FORWARDING_REPORT_ERRORS"@ {
                    value
                } else {
                    before.processors.forwarding.report_errors@
                }
                &&& after.processors.forwarding.blocked_forwarding_dids@
                    == if name == "PROCESSOR_FORWARDING_BLOCKED_DIDS"@ {
                    value
                } else {
                    before.processors.forwarding.blocked_forwarding_dids@
                }
                &&& after.processors.forwarding.rate_window_seconds@
                    == if name == "PROCESSOR_FORWARDING_RATE_WINDOW"@ {
                    value
                } else {
                    before.processors.forwarding.rate_window_seconds@
                }
                &&& after.processors.forwarding.ws_threshold_msgs_per_10s@
                    == if name == "PROCESSOR_FORWARDING_WS_THRESHOLD"@ {
                    value
                } else {
                    before.processors.forwarding.ws_threshold_msgs_per_10s@
                }
                &&& after.processors.forwarding.ws_idle_timeout_seconds@
                    == if name == "PROCESSOR_FORWARDING_WS_IDLE_TIMEOUT"@ {
                    value
                } else {
                    before.processors.forwarding.ws_idle_timeout_seconds@
                }
                &&& after.processors.forwarding.batch_size@
                    == if name == "PROCESSOR_FORWARDING_BATCH_SIZE"@ {
                    value
                } else {
                    before.processors.forwarding.batch_size@
                }
                &&& after.processors.forwarding.max_retries@
                    == if name == "PROCESSOR_FORWARDING_MAX_RETRIES"@ {
                    value
                } else {
                    before.processors.forwarding.max_retries@
                }
                &&& after.processors.forwarding.initial_backoff_ms@
                    == if name == "PROCESSOR_FORWARDING_INITIAL_BACKOFF_MS"@ {
                    value
                } else {
                    before.processors.forwarding.initial_backoff_ms@
                }
                &&& after.processors.forwarding.max_backoff_ms@
                    == if name == "PROCESSOR_FORWARDING_MAX_BACKOFF_MS"@ {
                    value
                } else {
                    before.processors.forwarding.max_backoff_ms@
                }
                &&& after.processors.forwarding.consumer_group@
                    == if name == "PROCESSOR_FORWARDING_CONSUMER_GROUP"@ {
                    value
                } else {
                    before.processors.forwarding.consumer_group@
                }
                &&& after.processors.message_expiry_cleanup.enabled@
                    == if name == "PROCESSOR_MESSAGE_EXPIRY_CLEANUP_ENABLED"@ {
                    value
                } else {
                    before.processors.message_expiry_cleanup.enabled@
                }
                &&& after.processors.session_expiry_cleanup.enabled@
                    == if name == "PROCESSOR_SESSION_EXPIRY_CLEANUP_ENABLED"@ {
                    value
                } else {
                    before.processors.session_expiry_cleanup.enabled@
                }
                &&& after.secrets.backend@ == if name == "MEDIATOR_SECRETS_BACKEND"@ {
                    value
                } else {
                    before.secrets.backend@
                }
                &&& crate::text::opt_view(after.secrets.cache_ttl)
                    == if name == "MEDIATOR_SECRETS_CACHE_TTL"@ {
                    Some(value)
                } else {
                    crate::text::opt_view(before.secrets.cache_ttl)
                }
            },
{
}

/// A variable that was set has the value that it was last set to, and no other variable changes.
pub proof fn law_variables_keep_what_was_set(name: String, value: String, asked: &str)
    ensures
        forall|env: &mut EnvVars, before: Option<&String>, after: Option<&String>|
            call_ensures(EnvVars::set, (env, name, value), ()) && #[trigger] call_ensures(
                EnvVars::get,
                (&*env, asked),
                before,
            ) && #[trigger] call_ensures(EnvVars::get, (&*final(env), asked), after) ==> {
                &&& asked@ == name@ ==> (after matches Some(v) && v@ == value@)
                &&& asked@ != name@ ==> (after is Some <==> before is Some)
                &&& asked@ != name@ && before is Some ==> after->0@ == before->0@
            },
        forall|env: EnvVars, got: Option<&String>|
            call_ensures(EnvVars::new, (), env) && #[trigger] call_ensures(
                EnvVars::get,
                (&env, asked),
                got,
            ) ==> got is None,
{
}

/// A line that starts with `#` is dropped, and any other is kept.
pub proof fn law_comments_alone_are_dropped(lines: Vec<String>, line: String, kept: Vec<String>)
    requires
        lines@ == seq![line],
        call_ensures(strip_comments, (lines,), kept),
    ensures
        line@.len() > 0 && line@[0] == '#' ==> kept@.len() == 0,
        !(line@.len() > 0 && line@[0] == '#') ==> kept@.len() == 1 && kept@[0]@ == line@,
{
    reveal_with_fuel(Seq::filter, 2);
    let texts = crate::text::views(lines@);
    assert(texts =~= seq![line@]);
    assert(texts.drop_last() =~= seq![]);
    assert(crate::text::views(kept@).len() == kept@.len());
    if kept@.len() == 1 {
        assert(crate::text::views(kept@)[0] == kept@[0]@);
    }
}

/// Each line is kept or dropped for itself, and those that are kept stay in their order.
pub proof fn law_lines_are_taken_one_by_one(
    first: Vec<String>,
    second: Vec<String>,
    both: Vec<String>,
    kept_first: Vec<String>,
    kept_second: Vec<String>,
    kept_both: Vec<String>,
)
    requires
        both@ == first@ + second@,
        call_ensures(strip_comments, (first,), kept_first),
        call_ensures(strip_comments, (second,), kept_second),
        call_ensures(strip_comments, (both,), kept_both),
    ensures
        crate::text::views(kept_both@) == crate::text::views(kept_first@) + crate::text::views(
            kept_second@,
        ),
{
    let a = crate::text::views(first@);
    let b = crate::text::views(second@);
    assert(crate::text::views(both@) =~= a + b);
    Seq::filter_distributes_over_add(a, b, |line: Seq<char>| !crate::env::is_comment(line));
}

/// The text of one list of lines after another is the two texts with a line feed between them; one
/// that has no text adds nothing.
pub proof fn law_lines_are_joined_by_line_feeds(
    first: Vec<String>,
    second: Vec<String>,
    both: Vec<String>,
    kept_first: Vec<String>,
    kept_second: Vec<String>,
    text_first: String,
    text_second: String,
    text_both: String,
)
    requires
        both@ == first@ + second@,
        call_ensures(strip_comments, (first,), kept_first),
        call_ensures(strip_comments, (second,), kept_second),
        call_ensures(config_text, (first,), text_first),
        call_ensures(config_text, (second,), text_second),
        call_ensures(config_text, (both,), text_both),
    ensures
        kept_first@.len() == 0 ==> text_both@ == text_second@,
        kept_second@.len() == 0 ==> text_both@ == text_first@,
        kept_first@.len() > 0 && kept_second@.len() > 0 ==> text_both@ == text_first@ + "\n"@
            + text_second@,
        kept_first@.len() == 0 ==> text_first@.len() == 0,
        kept_first@.len() == 1 ==> text_first@ == kept_first@[0]@,
{
    let a = crate::text::views(first@);
    let b = crate::text::views(second@);
    let keep = |line: Seq<char>| !crate::env::is_comment(line);
    assert(crate::text::views(both@) =~= a + b);
    Seq::filter_distributes_over_add(a, b, keep);
    let ka = a.filter(keep);
    let kb = b.filter(keep);
    assert(crate::text::views(kept_first@) == ka);
    assert(crate::text::views(kept_second@) == kb);
    assert(ka.len() == kept_first@.len());
    assert(kb.len() == kept_second@.len());
    if ka.len() == 0 {
        assert(ka + kb =~= kb);
    } else if kb.len() == 0 {
        assert(ka + kb =~= ka);
    } else {
        crate::text::lemma_joined_concat(ka, kb, "\n"@);
    }
    if ka.len() == 1 {
        assert(ka[0] == kept_first@[0]@);
    }
}

/// The limits that a file leaves out.
pub proof fn law_limits_have_defaults(text: String)
    ensures
        call_ensures(default_rate_limit_per_ip, (), text) ==> text@ == "100"@,
        call_ensures(default_rate_limit_burst, (), text) ==> text@ == "50"@,
        call_ensures(default_max_websocket_connections, (), text) ==> text@ == "10000"@,
        call_ensures(default_max_websocket_connections_per_did, (), text) ==> text@ == "100"@,
        call_ensures(default_did_rate_limit_per_second, (), text) ==> text@ == "0"@,
        call_ensures(default_did_rate_limit_burst, (), text) ==> text@ == "10"@,
        call_ensures(default_trusted_proxies, (), text) ==> text@ == ""@,
{
}

} // verus!
