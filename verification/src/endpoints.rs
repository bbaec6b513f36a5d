//! The decision half of each client operation, and client construction.
//!
//! The transport hands each of these functions the HTTP status, the raw
//! body text and the parsed body tree of one response. A non-success
//! status yields `Api` with that status and the raw body, whatever the
//! body holds; a success status yields exactly what the decoder yields.
//! Construction validates the credential before any transport exists:
//! a missing or malformed key is a `Configuration` error, never a
//! partially built client.

use vstd::prelude::*;
use vstd::string::StrSliceExecFns;
use vstd::string::StringExecFns;
use crate::decode::client_by_id_response_decodable;
use crate::decode::client_by_id_response_rel;
use crate::decode::client_list_response_decodable;
use crate::decode::client_list_response_rel;
use crate::decode::decode_change_status_response;
use crate::decode::decode_client_by_id_response;
use crate::decode::decode_client_list_response;
use crate::decode::decode_message_by_id_response;
use crate::decode::decode_messages_list_response;
use crate::decode::decode_order_by_id_response;
use crate::decode::decode_orders_response;
use crate::decode::decode_refund_response;
use crate::decode::decode_reply_response;
use crate::decode::decode_set_message_status_response;
use crate::decode::message_by_id_response_decodable;
use crate::decode::message_by_id_response_rel;
use crate::decode::messages_list_response_decodable;
use crate::decode::messages_list_response_rel;
use crate::decode::order_by_id_response_decodable;
use crate::decode::order_by_id_response_rel;
use crate::decode::orders_response_decodable;
use crate::decode::orders_response_rel;
use crate::decode::processed_ids_decodable;
use crate::decode::processed_ids_rel;
use crate::decode::reply_response_decodable;
use crate::decode::reply_response_rel;
use crate::error::PromError;
use crate::json::JsonValue;
use crate::types::PromChangeStatusResponse;
use crate::types::PromClientByIdResponse;
use crate::types::PromClientListResponse;
use crate::types::PromMessageByIdResponse;
use crate::types::PromMessageReplyResponse;
use crate::types::PromMessagesListResponse;
use crate::types::PromOrderByIdResponse;
use crate::types::PromOrderRefundResponse;
use crate::types::PromOrdersResponse;
use crate::types::PromSetStatusMessageResponse;

verus! {

/// An HTTP status that counts as success.
pub open spec fn spec_http_success(status: u16) -> bool {
    200 <= status < 300
}

/// The `Api` error a non-success response turns into.
pub open spec fn api_error_rel(e: PromError, http_status: u16, raw: Seq<char>) -> bool {
    e matches PromError::Api { status, body } && status == http_status && body@ == raw
}

/// Rejects a non-success HTTP status, keeping its code and raw body;
/// `Ok` exactly on the 2xx range.
pub fn require_success(http_status: u16, raw_body: String) -> (r: Result<(), PromError>)
    ensures
        r is Ok <==> spec_http_success(http_status),
        r matches Err(e) ==> api_error_rel(e, http_status, raw_body@),
{
    if 200 <= http_status && http_status < 300 {
        Ok(())
    } else {
        Err(PromError::Api { status: http_status, body: raw_body })
    }
}

/// A well-formed bearer credential: non-empty printable ASCII. This is
/// deliberately stricter than what an HTTP header value admits (which
/// also takes spaces and high bytes): a credential with a space or a
/// non-ASCII character is treated as malformed at construction.
pub open spec fn spec_valid_api_key(k: Seq<char>) -> bool {
    &&& k.len() > 0
    &&& forall|i: int| 0 <= i < k.len() ==> ' ' < #[trigger] k[i] && k[i] <= '~'
}

/// Validates the credential the environment handed over, before any
/// client is built: `Configuration` exactly when it is missing or
/// malformed, so construction fails deterministically and completely.
pub fn validate_api_key(key: Option<String>) -> (r: Result<String, PromError>)
    ensures
        match r {
            Ok(s) => key matches Some(k) && s@ == k@ && spec_valid_api_key(k@),
            Err(e) => {
                &&& match key {
                    Some(k) => !spec_valid_api_key(k@),
                    None => true,
                }
                &&& e == PromError::Configuration
            },
        },
{
    match key {
        Some(k) => {
            let s = k.as_str();
            let n = s.unicode_len();
            if n == 0 {
                return Err(PromError::Configuration);
            }
            let mut i: usize = 0;
            while i < n
                invariant
                    n == s@.len(),
                    s@ == k@,
                    key == Some(k),
                    i <= n,
                    forall|j: int| 0 <= j < i ==> ' ' < #[trigger] s@[j] && s@[j] <= '~',
                decreases n - i,
            {
                let c = s.get_char(i);
                if c <= ' ' || c > '~' {
                    proof {
                        assert(k@[i as int] == s@[i as int]);
                        assert(!spec_valid_api_key(k@));
                    }
                    return Err(PromError::Configuration);
                }
                i = i + 1;
            }
            Ok(k)
        },
        None => Err(PromError::Configuration),
    }
}

/// The value of the authorization header: the bearer scheme before the key.
pub fn bearer_header_value(key: &str) -> (r: String)
    ensures
        r@ == "Bearer "@ + key@,
{
    let mut r = "Bearer ".to_owned();
    r.append(key);
    r
}

/// The order-list operation's answer: `Api` on non-success, else exactly
/// what decoding the body gives.
pub fn get_orders_response(http_status: u16, raw_body: String, body: &JsonValue) -> (r: Result<
    PromOrdersResponse,
    PromError,
>)
    ensures
        !spec_http_success(http_status) ==> (r matches Err(e) && api_error_rel(
            e,
            http_status,
            raw_body@,
        )),
        spec_http_success(http_status) ==> match r {
            Ok(resp) => orders_response_decodable(body@) && orders_response_rel(body@, resp),
            Err(e) => !orders_response_decodable(body@) && e == PromError::Decode,
        },
{
    match require_success(http_status, raw_body) {
        Ok(_) => decode_orders_response(body),
        Err(e) => Err(e),
    }
}

/// The single-order operation's answer.
pub fn get_order_by_id_response(http_status: u16, raw_body: String, body: &JsonValue) -> (r:
    Result<PromOrderByIdResponse, PromError>)
    ensures
        !spec_http_success(http_status) ==> (r matches Err(e) && api_error_rel(
            e,
            http_status,
            raw_body@,
        )),
        spec_http_success(http_status) ==> match r {
            Ok(resp) => order_by_id_response_decodable(body@) && order_by_id_response_rel(
                body@,
                resp,
            ),
            Err(e) => !order_by_id_response_decodable(body@) && e == PromError::Decode,
        },
{
    match require_success(http_status, raw_body) {
        Ok(_) => decode_order_by_id_response(body),
        Err(e) => Err(e),
    }
}

/// The set-order-status operation's answer.
pub fn set_order_status_response(http_status: u16, raw_body: String, body: &JsonValue) -> (r:
    Result<PromChangeStatusResponse, PromError>)
    ensures
        !spec_http_success(http_status) ==> (r matches Err(e) && api_error_rel(
            e,
            http_status,
            raw_body@,
        )),
        spec_http_success(http_status) ==> match r {
            Ok(resp) => processed_ids_decodable(body@) && processed_ids_rel(
                body@,
                resp.processed_ids@,
            ),
            Err(e) => !processed_ids_decodable(body@) && e == PromError::Decode,
        },
{
    match require_success(http_status, raw_body) {
        Ok(_) => decode_change_status_response(body),
        Err(e) => Err(e),
    }
}

/// The order-refund operation's answer.
pub fn order_refund_response(http_status: u16, raw_body: String, body: &JsonValue) -> (r: Result<
    PromOrderRefundResponse,
    PromError,
>)
    ensures
        !spec_http_success(http_status) ==> (r matches Err(e) && api_error_rel(
            e,
            http_status,
            raw_body@,
        )),
        spec_http_success(http_status) ==> match r {
            Ok(resp) => processed_ids_decodable(body@) && processed_ids_rel(
                body@,
                resp.processed_ids@,
            ),
            Err(e) => !processed_ids_decodable(body@) && e == PromError::Decode,
        },
{
    match require_success(http_status, raw_body) {
        Ok(_) => decode_refund_response(body),
        Err(e) => Err(e),
    }
}

/// The save-delivery-declaration operation's answer: the updated order,
/// in the same misspelled `odrer` envelope the single-order operation uses.
pub fn save_declaration_id_response(http_status: u16, raw_body: String, body: &JsonValue) -> (r:
    Result<PromOrderByIdResponse, PromError>)
    ensures
        !spec_http_success(http_status) ==> (r matches Err(e) && api_error_rel(
            e,
            http_status,
            raw_body@,
        )),
        spec_http_success(http_status) ==> match r {
            Ok(resp) => order_by_id_response_decodable(body@) && order_by_id_response_rel(
                body@,
                resp,
            ),
            Err(e) => !order_by_id_response_decodable(body@) && e == PromError::Decode,
        },
{
    match require_success(http_status, raw_body) {
        Ok(_) => decode_order_by_id_response(body),
        Err(e) => Err(e),
    }
}

/// The client-list operation's answer.
pub fn get_clients_response(http_status: u16, raw_body: String, body: &JsonValue) -> (r: Result<
    PromClientListResponse,
    PromError,
>)
    ensures
        !spec_http_success(http_status) ==> (r matches Err(e) && api_error_rel(
            e,
            http_status,
            raw_body@,
        )),
        spec_http_success(http_status) ==> match r {
            Ok(resp) => client_list_response_decodable(body@) && client_list_response_rel(
                body@,
                resp,
            ),
            Err(e) => !client_list_response_decodable(body@) && e == PromError::Decode,
        },
{
    match require_success(http_status, raw_body) {
        Ok(_) => decode_client_list_response(body),
        Err(e) => Err(e),
    }
}

/// The single-client operation's answer.
pub fn get_client_by_id_response(http_status: u16, raw_body: String, body: &JsonValue) -> (r:
    Result<PromClientByIdResponse, PromError>)
    ensures
        !spec_http_success(http_status) ==> (r matches Err(e) && api_error_rel(
            e,
            http_status,
            raw_body@,
        )),
        spec_http_success(http_status) ==> match r {
            Ok(resp) => client_by_id_response_decodable(body@) && client_by_id_response_rel(
                body@,
                resp,
            ),
            Err(e) => !client_by_id_response_decodable(body@) && e == PromError::Decode,
        },
{
    match require_success(http_status, raw_body) {
        Ok(_) => decode_client_by_id_response(body),
        Err(e) => Err(e),
    }
}

/// The message-list operation's answer.
pub fn get_messages_response(http_status: u16, raw_body: String, body: &JsonValue) -> (r: Result<
    PromMessagesListResponse,
    PromError,
>)
    ensures
        !spec_http_success(http_status) ==> (r matches Err(e) && api_error_rel(
            e,
            http_status,
            raw_body@,
        )),
        spec_http_success(http_status) ==> match r {
            Ok(resp) => messages_list_response_decodable(body@) && messages_list_response_rel(
                body@,
                resp,
            ),
            Err(e) => !messages_list_response_decodable(body@) && e == PromError::Decode,
        },
{
    match require_success(http_status, raw_body) {
        Ok(_) => decode_messages_list_response(body),
        Err(e) => Err(e),
    }
}

/// The single-message operation's answer.
pub fn get_message_by_id_response(http_status: u16, raw_body: String, body: &JsonValue) -> (r:
    Result<PromMessageByIdResponse, PromError>)
    ensures
        !spec_http_success(http_status) ==> (r matches Err(e) && api_error_rel(
            e,
            http_status,
            raw_body@,
        )),
        spec_http_success(http_status) ==> match r {
            Ok(resp) => message_by_id_response_decodable(body@) && message_by_id_response_rel(
                body@,
                resp,
            ),
            Err(e) => !message_by_id_response_decodable(body@) && e == PromError::Decode,
        },
{
    match require_success(http_status, raw_body) {
        Ok(_) => decode_message_by_id_response(body),
        Err(e) => Err(e),
    }
}

/// The set-message-status operation's answer.
pub fn set_message_status_response(http_status: u16, raw_body: String, body: &JsonValue) -> (r:
    Result<PromSetStatusMessageResponse, PromError>)
    ensures
        !spec_http_success(http_status) ==> (r matches Err(e) && api_error_rel(
            e,
            http_status,
            raw_body@,
        )),
        spec_http_success(http_status) ==> match r {
            Ok(resp) => processed_ids_decodable(body@) && processed_ids_rel(
                body@,
                resp.processed_ids@,
            ),
            Err(e) => !processed_ids_decodable(body@) && e == PromError::Decode,
        },
{
    match require_success(http_status, raw_body) {
        Ok(_) => decode_set_message_status_response(body),
        Err(e) => Err(e),
    }
}

/// The message-reply operation's answer.
pub fn reply_to_message_response(http_status: u16, raw_body: String, body: &JsonValue) -> (r:
    Result<PromMessageReplyResponse, PromError>)
    ensures
        !spec_http_success(http_status) ==> (r matches Err(e) && api_error_rel(
            e,
            http_status,
            raw_body@,
        )),
        spec_http_success(http_status) ==> match r {
            Ok(resp) => reply_response_decodable(body@) && reply_response_rel(body@, resp),
            Err(e) => !reply_response_decodable(body@) && e == PromError::Decode,
        },
{
    match require_success(http_status, raw_body) {
        Ok(_) => decode_reply_response(body),
        Err(e) => Err(e),
    }
}

} // verus!
