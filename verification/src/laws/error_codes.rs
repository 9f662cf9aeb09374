//! The codes by which errors are told apart.

use crate::error_codes::{
    DB_URL_INVALID, DB_FUNCTIONS_FILE_ERROR, DB_PUBSUB_CONNECTION_ERROR,
    DB_PUBSUB_RECEIVER_ERROR, DB_SERVER_INFO_ERROR, DB_VERSION_PARSE_ERROR,
    DB_VERSION_INCOMPATIBLE, DB_VERSION_UNKNOWN, DB_BLOCKING_CONNECTION_ERROR,
    DB_BLOCKING_ESTABLISH_ERROR, CONFIG_ERROR, DB_SCHEMA_VERSION_ERROR, DB_OPERATION_ERROR,
    INTERNAL_ERROR, DB_DELETE_STATUS_ERROR, PARSE_ERROR, DB_PARSE_ERROR,
    DB_METADATA_PARSE_ERROR, AUTH_DID_BLOCKED, ACL_PARSE_ERROR, MESSAGE_EXPIRED,
    MESSAGE_UNPACK_FAILED, PROTOCOL_ERROR, AUTH_SEND_DENIED, AUTH_PERMISSION_DENIED,
    PICKUP_RETURN_ROUTE_ERROR, ANON_MESSAGE_ERROR, INVALID_TO_HEADER, SESSION_DID_MISMATCH,
    INVALID_LIMIT, MESSAGE_BODY_PARSE_ERROR, STREAMING_SIGNAL_ERROR, FORWARD_MISSING_NEXT,
    FORWARD_PARSE_ERROR, FORWARD_RECIPIENT_DENIED, FORWARD_MISSING_ATTACHMENTS,
    FORWARD_SENDER_DENIED, SENDER_QUEUE_FULL, RECIPIENT_QUEUE_FULL, TOO_MANY_ATTACHMENTS,
    FORWARD_QUEUE_FULL, FORWARD_INVALID_DELAY, FEATURE_NOT_IMPLEMENTED, INVALID_ATTACHMENT,
    ATTACHMENT_DECODE_ERROR, ANON_DELIVERY_DENIED, DIRECT_DELIVERY_DISABLED,
    DIRECT_DELIVERY_UNKNOWN_RECIPIENT, ACCESS_LIST_DENIED, ACL_SELF_CHANGE_DENIED,
    ACCOUNT_PARSE_ERROR, ACL_MESSAGE_PARSE_ERROR, FORWARD_ENQUEUE_ERROR,
    ADMIN_MISSING_CREATED_TIME, ACCESS_LIST_BATCH_SIZE_ERROR, FORWARD_LOOP_DETECTED,
    PROTECTED_ACCOUNT_ERROR, RATE_LIMITED,
};
use vstd::prelude::*;

verus! {

/// The codes grow from one error to the next. So no two errors share one, but for the removal of a
/// protected account, which has that of a deletion that failed.
pub proof fn law_codes_tell_errors_apart(i: int, j: int)
    ensures
        ({
            let codes = seq![
                DB_URL_INVALID,
                DB_FUNCTIONS_FILE_ERROR,
                DB_PUBSUB_CONNECTION_ERROR,
                DB_PUBSUB_RECEIVER_ERROR,
                DB_SERVER_INFO_ERROR,
                DB_VERSION_PARSE_ERROR,
                DB_VERSION_INCOMPATIBLE,
                DB_VERSION_UNKNOWN,
                DB_BLOCKING_CONNECTION_ERROR,
                DB_BLOCKING_ESTABLISH_ERROR,
                CONFIG_ERROR,
                DB_SCHEMA_VERSION_ERROR,
                DB_OPERATION_ERROR,
                INTERNAL_ERROR,
                DB_DELETE_STATUS_ERROR,
                PARSE_ERROR,
                DB_PARSE_ERROR,
                DB_METADATA_PARSE_ERROR,
                AUTH_DID_BLOCKED,
                ACL_PARSE_ERROR,
                MESSAGE_EXPIRED,
                MESSAGE_UNPACK_FAILED,
                PROTOCOL_ERROR,
                AUTH_SEND_DENIED,
                AUTH_PERMISSION_DENIED,
                PICKUP_RETURN_ROUTE_ERROR,
                ANON_MESSAGE_ERROR,
                INVALID_TO_HEADER,
                SESSION_DID_MISMATCH,
                INVALID_LIMIT,
                MESSAGE_BODY_PARSE_ERROR,
                STREAMING_SIGNAL_ERROR,
                FORWARD_MISSING_NEXT,
                FORWARD_PARSE_ERROR,
                FORWARD_RECIPIENT_DENIED,
                FORWARD_MISSING_ATTACHMENTS,
                FORWARD_SENDER_DENIED,
                SENDER_QUEUE_FULL,
                RECIPIENT_QUEUE_FULL,
                TOO_MANY_ATTACHMENTS,
                FORWARD_QUEUE_FULL,
                FORWARD_INVALID_DELAY,
                FEATURE_NOT_IMPLEMENTED,
                INVALID_ATTACHMENT,
                ATTACHMENT_DECODE_ERROR,
                ANON_DELIVERY_DENIED,
                DIRECT_DELIVERY_DISABLED,
                DIRECT_DELIVERY_UNKNOWN_RECIPIENT,
                ACCESS_LIST_DENIED,
                ACL_SELF_CHANGE_DENIED,
                ACCOUNT_PARSE_ERROR,
                ACL_MESSAGE_PARSE_ERROR,
                FORWARD_ENQUEUE_ERROR,
                ADMIN_MISSING_CREATED_TIME,
                ACCESS_LIST_BATCH_SIZE_ERROR,
                FORWARD_LOOP_DETECTED,
                RATE_LIMITED,
            ];
            0 <= i < j < codes.len() ==> codes[i] < codes[j]
        }),
{
}

/// Clients know the errors by these codes.
pub proof fn law_codes_stay_as_clients_know_them()
    ensures
        DB_URL_INVALID == 1,
        DB_FUNCTIONS_FILE_ERROR == 2,
        DB_PUBSUB_CONNECTION_ERROR == 4,
        DB_PUBSUB_RECEIVER_ERROR == 5,
        DB_SERVER_INFO_ERROR == 6,
        DB_VERSION_PARSE_ERROR == 7,
        DB_VERSION_INCOMPATIBLE == 8,
        DB_VERSION_UNKNOWN == 9,
        DB_BLOCKING_CONNECTION_ERROR == 10,
        DB_BLOCKING_ESTABLISH_ERROR == 11,
        CONFIG_ERROR == 12,
        DB_SCHEMA_VERSION_ERROR == 13,
        DB_OPERATION_ERROR == 14,
        INTERNAL_ERROR == 17,
        DB_DELETE_STATUS_ERROR == 18,
        PARSE_ERROR == 19,
        DB_PARSE_ERROR == 21,
        DB_METADATA_PARSE_ERROR == 22,
        AUTH_DID_BLOCKED == 25,
        ACL_PARSE_ERROR == 26,
        MESSAGE_EXPIRED == 31,
        MESSAGE_UNPACK_FAILED == 32,
        PROTOCOL_ERROR == 37,
        AUTH_SEND_DENIED == 44,
        AUTH_PERMISSION_DENIED == 45,
        PICKUP_RETURN_ROUTE_ERROR == 49,
        ANON_MESSAGE_ERROR == 50,
        INVALID_TO_HEADER == 51,
        SESSION_DID_MISMATCH == 52,
        INVALID_LIMIT == 53,
        MESSAGE_BODY_PARSE_ERROR == 54,
        STREAMING_SIGNAL_ERROR == 55,
        FORWARD_MISSING_NEXT == 56,
        FORWARD_PARSE_ERROR == 57,
        FORWARD_RECIPIENT_DENIED == 58,
        FORWARD_MISSING_ATTACHMENTS == 59,
        FORWARD_SENDER_DENIED == 60,
        SENDER_QUEUE_FULL == 61,
        RECIPIENT_QUEUE_FULL == 62,
        TOO_MANY_ATTACHMENTS == 63,
        FORWARD_QUEUE_FULL == 64,
        FORWARD_INVALID_DELAY == 65,
        FEATURE_NOT_IMPLEMENTED == 66,
        INVALID_ATTACHMENT == 67,
        ATTACHMENT_DECODE_ERROR == 68,
        ANON_DELIVERY_DENIED == 69,
        DIRECT_DELIVERY_DISABLED == 71,
        DIRECT_DELIVERY_UNKNOWN_RECIPIENT == 72,
        ACCESS_LIST_DENIED == 73,
        ACL_SELF_CHANGE_DENIED == 80,
        ACCOUNT_PARSE_ERROR == 81,
        ACL_MESSAGE_PARSE_ERROR == 82,
        FORWARD_ENQUEUE_ERROR == 90,
        ADMIN_MISSING_CREATED_TIME == 91,
        ACCESS_LIST_BATCH_SIZE_ERROR == 93,
        FORWARD_LOOP_DETECTED == 94,
        PROTECTED_ACCOUNT_ERROR == 18,
        RATE_LIMITED == 95,
{
}

} // verus!
