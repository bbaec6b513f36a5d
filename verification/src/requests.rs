//! Outgoing requests: JSON bodies, query strings and endpoint URLs.
//!
//! Every builder's output is pinned exactly: bodies down to the field
//! order of the emitted object, queries down to the defaulted values the
//! remote API documents (`pending` for an unspecified order status, `0`
//! for an unspecified limit or last id, the empty string for an
//! unspecified search term).

use vstd::prelude::*;
use vstd::string::StrSliceExecFns;
use vstd::string::StringExecFns;
use crate::json::JsonV;
use crate::json::JsonValue;
use crate::json::spec_arr_view;
use crate::json::lemma_arr_view_push;
use crate::json::lemma_obj_view_index;
use crate::json::spec_obj_view;
use crate::json::spec_lookup;
use crate::json::spec_lookup_fields;
use crate::status::PromOrderStatus;
use crate::status::spec_order_status_name;
use crate::status::spec_message_status_name;
use crate::text::i64_text;
use crate::text::spec_int_text;
use crate::types::PromChangeStatusRequest;
use crate::types::PromOrderRefundRequest;
use crate::types::PromSaveDeclarationIdRequest;
use crate::types::PromSetStatusMessageRequest;
use crate::types::PromMessageReplyRequest;

verus! {

/// The fixed base of every endpoint URL.
pub const BASE_URL: &'static str = "https://my.prom.ua/api/v1";

/// JSON string items, one for each string of a list.
pub open spec fn spec_str_items(v: Seq<String>) -> Seq<JsonV> {
    v.map_values(|s: String| JsonV::Str(s@))
}

/// JSON integer items, one for each number of a list.
pub open spec fn spec_i32_items(v: Seq<i32>) -> Seq<JsonV> {
    v.map_values(|n: i32| JsonV::Int(n as int))
}

/// An optional string on the wire: the string itself, or `null` when absent.
pub open spec fn spec_opt_str_json(o: Option<String>) -> JsonV {
    match o {
        Some(s) => JsonV::Str(s@),
        None => JsonV::Null,
    }
}

/// Builds a JSON array of strings.
fn str_array(v: &Vec<String>) -> (r: JsonValue)
    ensures
        r@ == JsonV::Arr(spec_str_items(v@)),
{
    let mut items: Vec<JsonValue> = Vec::new();
    let mut i: usize = 0;
    while i < v.len()
        invariant
            i <= v@.len(),
            spec_arr_view(items@) =~= spec_str_items(v@.subrange(0, i as int)),
        decreases v@.len() - i,
    {
        proof {
            lemma_arr_view_push(items@, JsonValue::Str(v@[i as int]));
            assert(v@.subrange(0, i + 1) =~= v@.subrange(0, i as int).push(v@[i as int]));
        }
        items.push(JsonValue::Str(v[i].clone()));
        i = i + 1;
    }
    proof {
        assert(v@.subrange(0, v@.len() as int) =~= v@);
    }
    JsonValue::Arr(items)
}

/// Builds a JSON array of integers.
fn i32_array(v: &Vec<i32>) -> (r: JsonValue)
    ensures
        r@ == JsonV::Arr(spec_i32_items(v@)),
{
    let mut items: Vec<JsonValue> = Vec::new();
    let mut i: usize = 0;
    while i < v.len()
        invariant
            i <= v@.len(),
            spec_arr_view(items@) =~= spec_i32_items(v@.subrange(0, i as int)),
        decreases v@.len() - i,
    {
        proof {
            lemma_arr_view_push(items@, JsonValue::Int(v@[i as int] as i64));
            assert(v@.subrange(0, i + 1) =~= v@.subrange(0, i as int).push(v@[i as int]));
        }
        items.push(JsonValue::Int(v[i] as i64));
        i = i + 1;
    }
    proof {
        assert(v@.subrange(0, v@.len() as int) =~= v@);
    }
    JsonValue::Arr(items)
}

fn opt_str_json(o: &Option<String>) -> (r: JsonValue)
    ensures
        r@ == spec_opt_str_json(*o),
{
    match o {
        Some(s) => JsonValue::Str(s.clone()),
        None => JsonValue::Null,
    }
}

/// The exact body of the set-order-status request. The cancellation
/// fields are `null` when not supplied, never an empty string.
pub open spec fn spec_change_status_body(q: PromChangeStatusRequest) -> JsonV {
    JsonV::Obj(
        seq![
            ("status"@, JsonV::Str(q.status@)),
            ("ids"@, JsonV::Arr(spec_str_items(q.ids@))),
            ("cancellation_reason"@, spec_opt_str_json(q.cancellation_reason)),
            ("cancellation_text"@, spec_opt_str_json(q.cancellation_text)),
        ],
    )
}

/// The exact body of the order-refund request.
pub open spec fn spec_refund_body(q: PromOrderRefundRequest) -> JsonV {
    JsonV::Obj(seq![("ids"@, JsonV::Arr(spec_i32_items(q.ids@)))])
}

/// The exact body of the save-delivery-declaration request.
pub open spec fn spec_save_declaration_body(q: PromSaveDeclarationIdRequest) -> JsonV {
    JsonV::Obj(
        seq![
            ("order_id"@, JsonV::Int(q.order_id as int)),
            ("declaration_id"@, JsonV::Str(q.declaration_id@)),
            ("delivery_type"@, JsonV::Str(q.delivery_type@)),
        ],
    )
}

/// The exact body of the set-message-status request: the status enum is
/// sent as its wire name.
pub open spec fn spec_set_message_status_body(q: PromSetStatusMessageRequest) -> JsonV {
    JsonV::Obj(
        seq![
            ("ids"@, JsonV::Arr(spec_i32_items(q.ids@))),
            ("status"@, JsonV::Str(spec_message_status_name(q.status))),
        ],
    )
}

/// The exact body of the message-reply request.
pub open spec fn spec_message_reply_body(q: PromMessageReplyRequest) -> JsonV {
    JsonV::Obj(seq![("id"@, JsonV::Int(q.id as int)), ("message"@, JsonV::Str(q.message@))])
}

impl PromChangeStatusRequest {
    /// The request as a JSON tree, field for field.
    pub fn to_json(&self) -> (r: JsonValue)
        ensures
            r@ == spec_change_status_body(*self),
    {
        let mut fields: Vec<(String, JsonValue)> = Vec::new();
        fields.push(("status".to_owned(), JsonValue::Str(self.status.clone())));
        fields.push(("ids".to_owned(), str_array(&self.ids)));
        fields.push(("cancellation_reason".to_owned(), opt_str_json(&self.cancellation_reason)));
        fields.push(("cancellation_text".to_owned(), opt_str_json(&self.cancellation_text)));
        let r = JsonValue::Obj(fields);
        proof {
            lemma_obj_view_index(fields@);
            assert(spec_obj_view(fields@)[0] == ("status"@, JsonV::Str(self.status@)));
            assert(spec_obj_view(fields@)[1] == ("ids"@, JsonV::Arr(spec_str_items(self.ids@))));
            assert(spec_obj_view(fields@)[2] == ("cancellation_reason"@, spec_opt_str_json(
                self.cancellation_reason,
            )));
            assert(spec_obj_view(fields@)[3] == ("cancellation_text"@, spec_opt_str_json(
                self.cancellation_text,
            )));
            assert(spec_obj_view(fields@) =~~= spec_change_status_body(*self)->Obj_0);
            assert(r@ =~~= spec_change_status_body(*self));
        }
        r
    }
}

impl PromOrderRefundRequest {
    /// The request as a JSON tree.
    pub fn to_json(&self) -> (r: JsonValue)
        ensures
            r@ == spec_refund_body(*self),
    {
        let mut fields: Vec<(String, JsonValue)> = Vec::new();
        fields.push(("ids".to_owned(), i32_array(&self.ids)));
        let r = JsonValue::Obj(fields);
        proof {
            lemma_obj_view_index(fields@);
            assert(r@ =~~= spec_refund_body(*self));
        }
        r
    }
}

impl PromSaveDeclarationIdRequest {
    /// The request as a JSON tree.
    pub fn to_json(&self) -> (r: JsonValue)
        ensures
            r@ == spec_save_declaration_body(*self),
    {
        let mut fields: Vec<(String, JsonValue)> = Vec::new();
        fields.push(("order_id".to_owned(), JsonValue::Int(self.order_id as i64)));
        fields.push(("declaration_id".to_owned(), JsonValue::Str(self.declaration_id.clone())));
        fields.push(("delivery_type".to_owned(), JsonValue::Str(self.delivery_type.clone())));
        let r = JsonValue::Obj(fields);
        proof {
            lemma_obj_view_index(fields@);
            assert(fields@.len() == 3);
            assert(spec_obj_view(fields@).len() == 3);
            assert(fields@[0].0@ == "order_id"@);
            assert(fields@[0].1@ == JsonV::Int(self.order_id as int));
            assert(spec_obj_view(fields@)[0] == ("order_id"@, JsonV::Int(self.order_id as int)));
            assert(spec_obj_view(fields@)[1] == ("declaration_id"@, JsonV::Str(self.declaration_id@)));
            assert(spec_obj_view(fields@)[2] == ("delivery_type"@, JsonV::Str(self.delivery_type@)));
            assert(spec_obj_view(fields@) =~~= spec_save_declaration_body(*self)->Obj_0);
            assert(r@ =~~= spec_save_declaration_body(*self));
        }
        r
    }
}

impl PromSetStatusMessageRequest {
    /// The request as a JSON tree: the status travels as its wire name.
    pub fn to_json(&self) -> (r: JsonValue)
        ensures
            r@ == spec_set_message_status_body(*self),
    {
        let mut fields: Vec<(String, JsonValue)> = Vec::new();
        fields.push(("ids".to_owned(), i32_array(&self.ids)));
        fields.push(("status".to_owned(), JsonValue::Str(self.status.wire_name().to_owned())));
        let r = JsonValue::Obj(fields);
        proof {
            lemma_obj_view_index(fields@);
            assert(spec_obj_view(fields@)[0] == ("ids"@, JsonV::Arr(spec_i32_items(self.ids@))));
            assert(spec_obj_view(fields@)[1] == ("status"@, JsonV::Str(
                spec_message_status_name(self.status),
            )));
            assert(spec_obj_view(fields@) =~~= spec_set_message_status_body(*self)->Obj_0);
            assert(r@ =~~= spec_set_message_status_body(*self));
        }
        r
    }
}

impl PromMessageReplyRequest {
    /// The request as a JSON tree.
    pub fn to_json(&self) -> (r: JsonValue)
        ensures
            r@ == spec_message_reply_body(*self),
    {
        let mut fields: Vec<(String, JsonValue)> = Vec::new();
        fields.push(("id".to_owned(), JsonValue::Int(self.id as i64)));
        fields.push(("message".to_owned(), JsonValue::Str(self.message.clone())));
        let r = JsonValue::Obj(fields);
        proof {
            lemma_obj_view_index(fields@);
            assert(spec_obj_view(fields@)[0] == ("id"@, JsonV::Int(self.id as int)));
            assert(spec_obj_view(fields@)[1] == ("message"@, JsonV::Str(self.message@)));
            assert(spec_obj_view(fields@) =~~= spec_message_reply_body(*self)->Obj_0);
            assert(r@ =~~= spec_message_reply_body(*self));
        }
        r
    }
}

/// The order status a listing defaults to when the caller names none.
pub open spec fn spec_orders_query_status(status: Option<PromOrderStatus>) -> PromOrderStatus {
    match status {
        Some(s) => s,
        None => PromOrderStatus::pending,
    }
}

/// A numeric query value, defaulted to zero when the caller gives none.
pub open spec fn spec_query_num(limit: Option<i32>) -> int {
    match limit {
        Some(l) => l as int,
        None => 0,
    }
}

/// A string query value, defaulted to empty when the caller gives none.
pub open spec fn spec_query_str(s: Option<String>) -> Seq<char> {
    match s {
        Some(t) => t@,
        None => Seq::empty(),
    }
}

/// The query pairs of the order-list endpoint: an unnamed status becomes
/// `pending`, an unnamed limit becomes `0`.
pub fn get_orders_query(status: Option<PromOrderStatus>, limit: Option<i32>) -> (r: Vec<
    (String, String),
>)
    ensures
        r@.len() == 2,
        r@[0].0@ == "status"@,
        r@[0].1@ == spec_order_status_name(spec_orders_query_status(status)),
        r@[1].0@ == "limit"@,
        r@[1].1@ == spec_int_text(spec_query_num(limit)),
{
    let s = match status {
        Some(s) => s,
        None => PromOrderStatus::pending,
    };
    let l: i32 = match limit {
        Some(l) => l,
        None => 0,
    };
    let mut r: Vec<(String, String)> = Vec::new();
    r.push(("status".to_owned(), s.wire_name().to_owned()));
    r.push(("limit".to_owned(), i64_text(l as i64)));
    r
}

/// The query pairs of the client-list endpoint, each defaulted.
pub fn get_clients_query(limit: Option<i32>, last_id: Option<i32>, search_term: Option<String>)
    -> (r: Vec<(String, String)>)
    ensures
        r@.len() == 3,
        r@[0].0@ == "limit"@,
        r@[0].1@ == spec_int_text(spec_query_num(limit)),
        r@[1].0@ == "last_id"@,
        r@[1].1@ == spec_int_text(spec_query_num(last_id)),
        r@[2].0@ == "search_term"@,
        r@[2].1@ == spec_query_str(search_term),
{
    let l: i32 = match limit {
        Some(l) => l,
        None => 0,
    };
    let last: i32 = match last_id {
        Some(l) => l,
        None => 0,
    };
    let term: String = match search_term {
        Some(t) => t,
        None => String::new(),
    };
    let mut r: Vec<(String, String)> = Vec::new();
    r.push(("limit".to_owned(), i64_text(l as i64)));
    r.push(("last_id".to_owned(), i64_text(last as i64)));
    r.push(("search_term".to_owned(), term));
    r
}

/// The query pairs of the message-list endpoint, each defaulted.
pub fn get_messages_query(
    status: Option<String>,
    date_from: Option<String>,
    date_to: Option<String>,
    limit: Option<i32>,
    last_id: Option<i32>,
) -> (r: Vec<(String, String)>)
    ensures
        r@.len() == 5,
        r@[0].0@ == "status"@,
        r@[0].1@ == spec_query_str(status),
        r@[1].0@ == "date_from"@,
        r@[1].1@ == spec_query_str(date_from),
        r@[2].0@ == "date_to"@,
        r@[2].1@ == spec_query_str(date_to),
        r@[3].0@ == "limit"@,
        r@[3].1@ == spec_int_text(spec_query_num(limit)),
        r@[4].0@ == "last_id"@,
        r@[4].1@ == spec_int_text(spec_query_num(last_id)),
{
    let st: String = match status {
        Some(t) => t,
        None => String::new(),
    };
    let from: String = match date_from {
        Some(t) => t,
        None => String::new(),
    };
    let to: String = match date_to {
        Some(t) => t,
        None => String::new(),
    };
    let l: i32 = match limit {
        Some(l) => l,
        None => 0,
    };
    let last: i32 = match last_id {
        Some(l) => l,
        None => 0,
    };
    let mut r: Vec<(String, String)> = Vec::new();
    r.push(("status".to_owned(), st));
    r.push(("date_from".to_owned(), from));
    r.push(("date_to".to_owned(), to));
    r.push(("limit".to_owned(), i64_text(l as i64)));
    r.push(("last_id".to_owned(), i64_text(last as i64)));
    r
}

/// The URL of a fixed endpoint: the base followed by the given path.
pub fn endpoint_url(path: &str) -> (r: String)
    ensures
        r@ == BASE_URL@ + path@,
{
    let mut r = BASE_URL.to_owned();
    r.append(path);
    r
}

/// The URL of an entity endpoint: the base, the given path, then the id.
pub fn entity_url(path: &str, id: &str) -> (r: String)
    ensures
        r@ == BASE_URL@ + path@ + id@,
{
    let mut r = BASE_URL.to_owned();
    r.append(path);
    r.append(id);
    r
}

/// Omitted cancellation fields travel as JSON `null`, never as an empty
/// string: the body still carries both keys, bound to `null`.
pub proof fn lemma_change_status_omitted_fields(q: PromChangeStatusRequest)
    requires
        q.cancellation_reason is None,
        q.cancellation_text is None,
    ensures
        spec_lookup(spec_change_status_body(q), "cancellation_reason"@) == Some(JsonV::Null),
        spec_lookup(spec_change_status_body(q), "cancellation_text"@) == Some(JsonV::Null),
{
    broadcast use vstd::string::group_string_axioms;

    reveal_strlit("status");
    reveal_strlit("ids");
    reveal_strlit("cancellation_reason");
    reveal_strlit("cancellation_text");
    assert("status"@.len() == 6);
    assert("ids"@.len() == 3);
    assert("cancellation_reason"@.len() == 19);
    assert("cancellation_text"@.len() == 17);
    let fields = spec_change_status_body(q)->Obj_0;
    let t1 = fields.subrange(1, 4);
    let t2 = t1.subrange(1, 3);
    let t3 = t2.subrange(1, 2);
    assert(t1.len() == 3 && t1[0] == fields[1] && t1[1] == fields[2] && t1[2] == fields[3]);
    assert(t2.len() == 2 && t2[0] == fields[2] && t2[1] == fields[3]);
    assert(t3.len() == 1 && t3[0] == fields[3]);
    assert(t1.subrange(1, t1.len() as int) == t2);
    assert(t2.subrange(1, t2.len() as int) == t3);
    let key_r = "cancellation_reason"@;
    assert(fields[0].0 != key_r && fields[1].0 != key_r);
    assert(spec_lookup_fields(fields, key_r) == spec_lookup_fields(t1, key_r));
    assert(spec_lookup_fields(t1, key_r) == spec_lookup_fields(t2, key_r));
    assert(spec_lookup_fields(t2, key_r) == Some(JsonV::Null));
    let key_t = "cancellation_text"@;
    assert(fields[0].0 != key_t && fields[1].0 != key_t && fields[2].0 != key_t);
    assert(spec_lookup_fields(fields, key_t) == spec_lookup_fields(t1, key_t));
    assert(spec_lookup_fields(t1, key_t) == spec_lookup_fields(t2, key_t));
    assert(spec_lookup_fields(t2, key_t) == spec_lookup_fields(t3, key_t));
    assert(spec_lookup_fields(t3, key_t) == Some(JsonV::Null));
}

} // verus!
