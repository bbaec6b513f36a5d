//! Decoding response trees into typed records.
//!
//! Each record type has a `..._decodable` predicate saying exactly which
//! trees decode, and a `..._rel` relation pinning every field of the
//! decoded value to the tree. Each decoder returns `Ok` if and only if its
//! predicate holds, and `Decode` otherwise: a tree with an unknown status
//! string, a missing required field, or a value of the wrong kind is
//! rejected, never defaulted.

use vstd::prelude::*;
use crate::error::PromError;
use crate::json::JsonV;
use crate::json::JsonValue;
use crate::json::get_any_field;
use crate::json::get_arr_field;
use crate::json::get_field;
use crate::json::get_i32_field;
use crate::json::get_opt_str_field;
use crate::json::get_str_field;
use crate::json::lemma_arr_view_index;
use crate::json::lemma_obj_view_index;
use crate::json::spec_obj_view;
use crate::json::spec_arr_view;
use crate::json::spec_lookup;
use crate::status::PromOrderStatus;
use crate::status::spec_parse_order_status;
use crate::types::PromDeliveryOption;
use crate::types::PromDeliveryProviderData;
use crate::types::PromPaymentData;
use crate::types::PromPaymentOption;
use crate::types::PromProduct;
use crate::types::PromOrder;
use crate::types::PromOrdersResponse;
use crate::types::PromOrderByIdResponse;
use crate::types::PromChangeStatusResponse;
use crate::types::PromOrderRefundResponse;
use crate::types::PromSetStatusMessageResponse;
use crate::types::PromMessageReplyResponse;
use crate::types::PromClientCard;
use crate::types::PromClientListResponse;
use crate::types::PromClientByIdResponse;
use crate::types::PromMessage;
use crate::types::PromMessagesListResponse;
use crate::types::PromMessageByIdResponse;
use crate::types::PromSaveDeclarationIdResponse;

verus! {

/// Every element is a JSON integer in the 32-bit range.
pub open spec fn i32s_decodable(a: Seq<JsonV>) -> bool {
    forall|i: int|
        0 <= i < a.len() ==> (#[trigger] a[i] matches JsonV::Int(v) && i32::MIN <= v <= i32::MAX)
}

/// The numbers read off a JSON array, element by element.
pub open spec fn i32s_rel(a: Seq<JsonV>, v: Seq<i32>) -> bool {
    &&& a.len() == v.len()
    &&& forall|i: int| 0 <= i < a.len() ==> #[trigger] a[i] == JsonV::Int(v[i] as int)
}

/// Every element is a JSON string.
pub open spec fn strs_decodable(a: Seq<JsonV>) -> bool {
    forall|i: int| 0 <= i < a.len() ==> (#[trigger] a[i] matches JsonV::Str(_))
}

/// The strings read off a JSON array, element by element.
pub open spec fn strs_rel(a: Seq<JsonV>, v: Seq<String>) -> bool {
    &&& a.len() == v.len()
    &&& forall|i: int| 0 <= i < a.len() ==> #[trigger] a[i] == JsonV::Str(v[i]@)
}

/// Decodes an array of 32-bit integers; `Err` exactly when some element
/// is no integer or overflows 32 bits.
pub fn decode_i32_array(a: &Vec<JsonValue>) -> (r: Result<Vec<i32>, PromError>)
    ensures
        match r {
            Ok(v) => i32s_rel(spec_arr_view(a@), v@),
            Err(e) => !i32s_decodable(spec_arr_view(a@)) && e == PromError::Decode,
        },
{
    proof {
        lemma_arr_view_index(a@);
    }
    let ghost g = spec_arr_view(a@);
    let mut out: Vec<i32> = Vec::new();
    let mut k: usize = 0;
    while k < a.len()
        invariant
            k <= a@.len(),
            g == spec_arr_view(a@),
            g.len() == a@.len(),
            forall|i: int| 0 <= i < a@.len() ==> g[i] == a@[i]@,
            out@.len() == k,
            forall|i: int| 0 <= i < k ==> #[trigger] g[i] == JsonV::Int(out@[i] as int),
        decreases a@.len() - k,
    {
        match &a[k] {
            JsonValue::Int(n) => {
                if *n >= i32::MIN as i64 && *n <= i32::MAX as i64 {
                    out.push(*n as i32);
                } else {
                    proof {
                        assert(g[k as int] == a@[k as int]@);
                        assert(!(g[k as int] matches JsonV::Int(v) && i32::MIN <= v <= i32::MAX));
                    }
                    return Err(PromError::Decode);
                }
            },
            _ => {
                proof {
                    assert(g[k as int] == a@[k as int]@);
                    assert(!(g[k as int] matches JsonV::Int(v) && i32::MIN <= v <= i32::MAX));
                }
                return Err(PromError::Decode);
            },
        }
        k = k + 1;
    }
    Ok(out)
}

/// Decodes an array of strings; `Err` exactly when some element is no
/// JSON string.
pub fn decode_str_array(a: &Vec<JsonValue>) -> (r: Result<Vec<String>, PromError>)
    ensures
        match r {
            Ok(v) => strs_rel(spec_arr_view(a@), v@),
            Err(e) => !strs_decodable(spec_arr_view(a@)) && e == PromError::Decode,
        },
{
    proof {
        lemma_arr_view_index(a@);
    }
    let ghost g = spec_arr_view(a@);
    let mut out: Vec<String> = Vec::new();
    let mut k: usize = 0;
    while k < a.len()
        invariant
            k <= a@.len(),
            g == spec_arr_view(a@),
            g.len() == a@.len(),
            forall|i: int| 0 <= i < a@.len() ==> g[i] == a@[i]@,
            out@.len() == k,
            forall|i: int| 0 <= i < k ==> #[trigger] g[i] == JsonV::Str(out@[i]@),
        decreases a@.len() - k,
    {
        match &a[k] {
            JsonValue::Str(s) => {
                out.push(s.clone());
            },
            _ => {
                proof {
                    assert(g[k as int] == a@[k as int]@);
                    assert(!(g[k as int] matches JsonV::Str(_)));
                }
                return Err(PromError::Decode);
            },
        }
        k = k + 1;
    }
    Ok(out)
}

/// A tree with the shape of a line item.
pub open spec fn product_decodable(j: JsonV) -> bool {
    &&& spec_lookup(j, "id"@) matches Some(JsonV::Int(v)) && i32::MIN <= v <= i32::MAX
    &&& spec_lookup(j, "external_id"@) matches Some(JsonV::Str(_))
    &&& spec_lookup(j, "image"@) matches Some(JsonV::Str(_))
    &&& spec_lookup(j, "quantity"@) matches Some(JsonV::Int(v)) && i32::MIN <= v <= i32::MAX
    &&& spec_lookup(j, "price"@) matches Some(JsonV::Str(_))
    &&& spec_lookup(j, "url"@) matches Some(JsonV::Str(_))
    &&& spec_lookup(j, "name"@) matches Some(JsonV::Str(_))
    &&& spec_lookup(j, "total_price"@) matches Some(JsonV::Str(_))
    &&& spec_lookup(j, "measure_unit"@) matches Some(JsonV::Str(_))
    &&& spec_lookup(j, "sku"@) matches Some(JsonV::Str(_))
}

/// The line item read off a tree, field by field.
pub open spec fn product_rel(j: JsonV, p: PromProduct) -> bool {
    &&& spec_lookup(j, "id"@) == Some(JsonV::Int(p.id as int))
    &&& spec_lookup(j, "external_id"@) == Some(JsonV::Str(p.external_id@))
    &&& spec_lookup(j, "image"@) == Some(JsonV::Str(p.image@))
    &&& spec_lookup(j, "quantity"@) == Some(JsonV::Int(p.quantity as int))
    &&& spec_lookup(j, "price"@) == Some(JsonV::Str(p.price@))
    &&& spec_lookup(j, "url"@) == Some(JsonV::Str(p.url@))
    &&& spec_lookup(j, "name"@) == Some(JsonV::Str(p.name@))
    &&& spec_lookup(j, "total_price"@) == Some(JsonV::Str(p.total_price@))
    &&& spec_lookup(j, "measure_unit"@) == Some(JsonV::Str(p.measure_unit@))
    &&& spec_lookup(j, "sku"@) == Some(JsonV::Str(p.sku@))
}

/// Decodes one line item; `Ok` exactly on trees with the line-item shape.
pub fn decode_product(j: &JsonValue) -> (r: Result<PromProduct, PromError>)
    ensures
        r is Ok <==> product_decodable(j@),
        r matches Ok(p) ==> product_rel(j@, p),
        r matches Err(e) ==> e == PromError::Decode,
{
    let id = match get_i32_field(j, "id") {
        Ok(v) => v,
        Err(e) => {
            return Err(e);
        },
    };
    let external_id = match get_str_field(j, "external_id") {
        Ok(v) => v,
        Err(e) => {
            return Err(e);
        },
    };
    let image = match get_str_field(j, "image") {
        Ok(v) => v,
        Err(e) => {
            return Err(e);
        },
    };
    let quantity = match get_i32_field(j, "quantity") {
        Ok(v) => v,
        Err(e) => {
            return Err(e);
        },
    };
    let price = match get_str_field(j, "price") {
        Ok(v) => v,
        Err(e) => {
            return Err(e);
        },
    };
    let url = match get_str_field(j, "url") {
        Ok(v) => v,
        Err(e) => {
            return Err(e);
        },
    };
    let name = match get_str_field(j, "name") {
        Ok(v) => v,
        Err(e) => {
            return Err(e);
        },
    };
    let total_price = match get_str_field(j, "total_price") {
        Ok(v) => v,
        Err(e) => {
            return Err(e);
        },
    };
    let measure_unit = match get_str_field(j, "measure_unit") {
        Ok(v) => v,
        Err(e) => {
            return Err(e);
        },
    };
    let sku = match get_str_field(j, "sku") {
        Ok(v) => v,
        Err(e) => {
            return Err(e);
        },
    };
    Ok(
        PromProduct {
            id,
            external_id,
            image,
            quantity,
            price,
            url,
            name,
            total_price,
            measure_unit,
            sku,
        },
    )
}

/// A tree with the shape of a delivery option.
pub open spec fn delivery_option_decodable(j: JsonV) -> bool {
    &&& spec_lookup(j, "id"@) matches Some(JsonV::Str(_))
    &&& spec_lookup(j, "name"@) matches Some(JsonV::Str(_))
}

/// The delivery option read off a tree.
pub open spec fn delivery_option_rel(j: JsonV, d: PromDeliveryOption) -> bool {
    &&& spec_lookup(j, "id"@) == Some(JsonV::Str(d.id@))
    &&& spec_lookup(j, "name"@) == Some(JsonV::Str(d.name@))
}

/// Decodes a delivery option.
pub fn decode_delivery_option(j: &JsonValue) -> (r: Result<PromDeliveryOption, PromError>)
    ensures
        r is Ok <==> delivery_option_decodable(j@),
        r matches Ok(d) ==> delivery_option_rel(j@, d),
        r matches Err(e) ==> e == PromError::Decode,
{
    let id = match get_str_field(j, "id") {
        Ok(v) => v,
        Err(e) => {
            return Err(e);
        },
    };
    let name = match get_str_field(j, "name") {
        Ok(v) => v,
        Err(e) => {
            return Err(e);
        },
    };
    Ok(PromDeliveryOption { id, name })
}

/// A tree with the shape of carrier metadata; the wire field `type` maps
/// to `type_`.
pub open spec fn provider_data_decodable(j: JsonV) -> bool {
    &&& spec_lookup(j, "provider"@) matches Some(JsonV::Str(_))
    &&& spec_lookup(j, "type"@) matches Some(JsonV::Str(_))
    &&& opt_str_decodable(j, "sender_warehouse_id"@)
    &&& opt_str_decodable(j, "recipient_warehouse_id"@)
    &&& spec_lookup(j, "declaration_number"@) matches Some(JsonV::Str(_))
}

/// An optional string field: absent, `null`, or a string.
pub open spec fn opt_str_decodable(j: JsonV, key: Seq<char>) -> bool {
    ||| spec_lookup(j, key) is None
    ||| spec_lookup(j, key) == Some(JsonV::Null)
    ||| spec_lookup(j, key) matches Some(JsonV::Str(_))
}

/// How an optional string field reads: `None` for absent or `null`.
pub open spec fn opt_str_rel(j: JsonV, key: Seq<char>, o: Option<String>) -> bool {
    match o {
        Some(s) => spec_lookup(j, key) == Some(JsonV::Str(s@)),
        None => spec_lookup(j, key) is None || spec_lookup(j, key) == Some(JsonV::Null),
    }
}

/// The carrier metadata read off a tree.
pub open spec fn provider_data_rel(j: JsonV, d: PromDeliveryProviderData) -> bool {
    &&& spec_lookup(j, "provider"@) == Some(JsonV::Str(d.provider@))
    &&& spec_lookup(j, "type"@) == Some(JsonV::Str(d.type_@))
    &&& opt_str_rel(j, "sender_warehouse_id"@, d.sender_warehouse_id)
    &&& opt_str_rel(j, "recipient_warehouse_id"@, d.recipient_warehouse_id)
    &&& spec_lookup(j, "declaration_number"@) == Some(JsonV::Str(d.declaration_number@))
}

/// Decodes carrier metadata.
pub fn decode_provider_data(j: &JsonValue) -> (r: Result<PromDeliveryProviderData, PromError>)
    ensures
        r is Ok <==> provider_data_decodable(j@),
        r matches Ok(d) ==> provider_data_rel(j@, d),
        r matches Err(e) ==> e == PromError::Decode,
{
    let provider = match get_str_field(j, "provider") {
        Ok(v) => v,
        Err(e) => {
            return Err(e);
        },
    };
    let type_ = match get_str_field(j, "type") {
        Ok(v) => v,
        Err(e) => {
            return Err(e);
        },
    };
    let sender_warehouse_id = match get_opt_str_field(j, "sender_warehouse_id") {
        Ok(v) => v,
        Err(e) => {
            return Err(e);
        },
    };
    let recipient_warehouse_id = match get_opt_str_field(j, "recipient_warehouse_id") {
        Ok(v) => v,
        Err(e) => {
            return Err(e);
        },
    };
    let declaration_number = match get_str_field(j, "declaration_number") {
        Ok(v) => v,
        Err(e) => {
            return Err(e);
        },
    };
    Ok(
        PromDeliveryProviderData {
            provider,
            type_,
            sender_warehouse_id,
            recipient_warehouse_id,
            declaration_number,
        },
    )
}

/// A tree with the shape of a payment option.
pub open spec fn payment_option_decodable(j: JsonV) -> bool {
    &&& spec_lookup(j, "id"@) matches Some(JsonV::Str(_))
    &&& spec_lookup(j, "name"@) matches Some(JsonV::Str(_))
}

/// The payment option read off a tree.
pub open spec fn payment_option_rel(j: JsonV, p: PromPaymentOption) -> bool {
    &&& spec_lookup(j, "id"@) == Some(JsonV::Str(p.id@))
    &&& spec_lookup(j, "name"@) == Some(JsonV::Str(p.name@))
}

/// Decodes a payment option.
pub fn decode_payment_option(j: &JsonValue) -> (r: Result<PromPaymentOption, PromError>)
    ensures
        r is Ok <==> payment_option_decodable(j@),
        r matches Ok(p) ==> payment_option_rel(j@, p),
        r matches Err(e) ==> e == PromError::Decode,
{
    let id = match get_str_field(j, "id") {
        Ok(v) => v,
        Err(e) => {
            return Err(e);
        },
    };
    let name = match get_str_field(j, "name") {
        Ok(v) => v,
        Err(e) => {
            return Err(e);
        },
    };
    Ok(PromPaymentOption { id, name })
}

/// A tree with the shape of payment state; the wire field `type` maps to
/// `type_`.
pub open spec fn payment_data_decodable(j: JsonV) -> bool {
    &&& spec_lookup(j, "type"@) matches Some(JsonV::Str(_))
    &&& spec_lookup(j, "status"@) matches Some(JsonV::Str(_))
    &&& spec_lookup(j, "status_modified"@) matches Some(JsonV::Str(_))
}

/// The payment state read off a tree.
pub open spec fn payment_data_rel(j: JsonV, p: PromPaymentData) -> bool {
    &&& spec_lookup(j, "type"@) == Some(JsonV::Str(p.type_@))
    &&& spec_lookup(j, "status"@) == Some(JsonV::Str(p.status@))
    &&& spec_lookup(j, "status_modified"@) == Some(JsonV::Str(p.status_modified@))
}

/// Decodes payment state.
pub fn decode_payment_data(j: &JsonValue) -> (r: Result<PromPaymentData, PromError>)
    ensures
        r is Ok <==> payment_data_decodable(j@),
        r matches Ok(p) ==> payment_data_rel(j@, p),
        r matches Err(e) ==> e == PromError::Decode,
{
    let type_ = match get_str_field(j, "type") {
        Ok(v) => v,
        Err(e) => {
            return Err(e);
        },
    };
    let status = match get_str_field(j, "status") {
        Ok(v) => v,
        Err(e) => {
            return Err(e);
        },
    };
    let status_modified = match get_str_field(j, "status_modified") {
        Ok(v) => v,
        Err(e) => {
            return Err(e);
        },
    };
    Ok(PromPaymentData { type_, status, status_modified })
}

/// Every element has the line-item shape.
pub open spec fn products_decodable(a: Seq<JsonV>) -> bool {
    forall|i: int| 0 <= i < a.len() ==> #[trigger] product_decodable(a[i])
}

/// The line items read off a JSON array, element by element.
pub open spec fn products_rel(a: Seq<JsonV>, ps: Seq<PromProduct>) -> bool {
    &&& a.len() == ps.len()
    &&& forall|i: int| 0 <= i < a.len() ==> #[trigger] product_rel(a[i], ps[i])
}

/// Decodes an array of line items.
pub fn decode_products(a: &Vec<JsonValue>) -> (r: Result<Vec<PromProduct>, PromError>)
    ensures
        r is Ok <==> products_decodable(spec_arr_view(a@)),
        r matches Ok(v) ==> products_rel(spec_arr_view(a@), v@),
        r matches Err(e) ==> e == PromError::Decode,
{
    proof {
        lemma_arr_view_index(a@);
    }
    let ghost g = spec_arr_view(a@);
    let mut out: Vec<PromProduct> = Vec::new();
    let mut k: usize = 0;
    while k < a.len()
        invariant
            k <= a@.len(),
            g == spec_arr_view(a@),
            g.len() == a@.len(),
            forall|i: int| 0 <= i < a@.len() ==> g[i] == a@[i]@,
            out@.len() == k,
            forall|i: int| 0 <= i < k ==> #[trigger] product_rel(g[i], out@[i]),
            forall|i: int| 0 <= i < k ==> #[trigger] product_decodable(g[i]),
        decreases a@.len() - k,
    {
        match decode_product(&a[k]) {
            Ok(p) => {
                out.push(p);
            },
            Err(e) => {
                proof {
                    assert(g[k as int] == a@[k as int]@);
                    assert(!product_decodable(g[k as int]));
                }
                return Err(e);
            },
        }
        k = k + 1;
    }
    Ok(out)
}

/// An optional carrier-metadata field: absent, `null`, or a decodable tree.
pub open spec fn opt_provider_decodable(j: JsonV) -> bool {
    ||| spec_lookup(j, "delivery_provider_data"@) is None
    ||| spec_lookup(j, "delivery_provider_data"@) == Some(JsonV::Null)
    ||| (spec_lookup(j, "delivery_provider_data"@) matches Some(d) && provider_data_decodable(d))
}

/// How the optional carrier metadata reads.
pub open spec fn opt_provider_rel(j: JsonV, o: Option<PromDeliveryProviderData>) -> bool {
    match o {
        Some(x) => spec_lookup(j, "delivery_provider_data"@) matches Some(d) && provider_data_rel(
            d,
            x,
        ),
        None => spec_lookup(j, "delivery_provider_data"@) is None || spec_lookup(
            j,
            "delivery_provider_data"@,
        ) == Some(JsonV::Null),
    }
}

/// An optional payment-state field: absent, `null`, or a decodable tree.
pub open spec fn opt_payment_data_decodable(j: JsonV) -> bool {
    ||| spec_lookup(j, "payment_data"@) is None
    ||| spec_lookup(j, "payment_data"@) == Some(JsonV::Null)
    ||| (spec_lookup(j, "payment_data"@) matches Some(d) && payment_data_decodable(d))
}

/// How the optional payment state reads.
pub open spec fn opt_payment_data_rel(j: JsonV, o: Option<PromPaymentData>) -> bool {
    match o {
        Some(x) => spec_lookup(j, "payment_data"@) matches Some(d) && payment_data_rel(d, x),
        None => spec_lookup(j, "payment_data"@) is None || spec_lookup(j, "payment_data"@) == Some(
            JsonV::Null,
        ),
    }
}

/// A tree with the shape of an order.
pub open spec fn order_decodable(j: JsonV) -> bool {
    &&& spec_lookup(j, "id"@) matches Some(JsonV::Int(v)) && i32::MIN <= v <= i32::MAX
    &&& spec_lookup(j, "date_created"@) matches Some(JsonV::Str(_))
    &&& spec_lookup(j, "client_first_name"@) matches Some(JsonV::Str(_))
    &&& spec_lookup(j, "client_second_name"@) matches Some(JsonV::Str(_))
    &&& spec_lookup(j, "client_last_name"@) matches Some(JsonV::Str(_))
    &&& spec_lookup(j, "client_id"@) matches Some(JsonV::Int(v)) && i32::MIN <= v <= i32::MAX
    &&& spec_lookup(j, "client_notes"@) matches Some(JsonV::Str(_))
    &&& spec_lookup(j, "products"@) matches Some(JsonV::Arr(a)) && products_decodable(a)
    &&& spec_lookup(j, "phone"@) matches Some(JsonV::Str(_))
    &&& spec_lookup(j, "email"@) matches Some(JsonV::Str(_))
    &&& spec_lookup(j, "price"@) matches Some(JsonV::Str(_))
    &&& spec_lookup(j, "delivery_option"@) matches Some(d) && delivery_option_decodable(d)
    &&& opt_provider_decodable(j)
    &&& spec_lookup(j, "delivery_address"@) matches Some(JsonV::Str(_))
    &&& spec_lookup(j, "payment_option"@) matches Some(p) && payment_option_decodable(p)
    &&& opt_payment_data_decodable(j)
    &&& spec_lookup(j, "status"@) matches Some(JsonV::Str(s)) && spec_parse_order_status(s)
        is Some
    &&& spec_lookup(j, "source"@) matches Some(JsonV::Str(_))
}

/// The order read off a tree, field by field; the status string must name
/// one of the closed set of order statuses.
pub open spec fn order_rel(j: JsonV, o: PromOrder) -> bool {
    &&& spec_lookup(j, "id"@) == Some(JsonV::Int(o.id as int))
    &&& spec_lookup(j, "date_created"@) == Some(JsonV::Str(o.date_created@))
    &&& spec_lookup(j, "client_first_name"@) == Some(JsonV::Str(o.client_first_name@))
    &&& spec_lookup(j, "client_second_name"@) == Some(JsonV::Str(o.client_second_name@))
    &&& spec_lookup(j, "client_last_name"@) == Some(JsonV::Str(o.client_last_name@))
    &&& spec_lookup(j, "client_id"@) == Some(JsonV::Int(o.client_id as int))
    &&& spec_lookup(j, "client_notes"@) == Some(JsonV::Str(o.client_notes@))
    &&& spec_lookup(j, "products"@) matches Some(JsonV::Arr(a)) && products_rel(a, o.products@)
    &&& spec_lookup(j, "phone"@) == Some(JsonV::Str(o.phone@))
    &&& spec_lookup(j, "email"@) == Some(JsonV::Str(o.email@))
    &&& spec_lookup(j, "price"@) == Some(JsonV::Str(o.price@))
    &&& spec_lookup(j, "delivery_option"@) matches Some(d) && delivery_option_rel(
        d,
        o.delivery_option,
    )
    &&& opt_provider_rel(j, o.delivery_provider_data)
    &&& spec_lookup(j, "delivery_address"@) == Some(JsonV::Str(o.delivery_address@))
    &&& spec_lookup(j, "payment_option"@) matches Some(p) && payment_option_rel(
        p,
        o.payment_option,
    )
    &&& opt_payment_data_rel(j, o.payment_data)
    &&& spec_lookup(j, "status"@) matches Some(JsonV::Str(s)) && spec_parse_order_status(s)
        == Some(o.status)
    &&& spec_lookup(j, "source"@) == Some(JsonV::Str(o.source@))
}

/// Decodes one order; `Ok` exactly on trees with the order shape.
pub fn decode_order(j: &JsonValue) -> (r: Result<PromOrder, PromError>)
    ensures
        r is Ok <==> order_decodable(j@),
        r matches Ok(o) ==> order_rel(j@, o),
        r matches Err(e) ==> e == PromError::Decode,
{
    let id = match get_i32_field(j, "id") {
        Ok(v) => v,
        Err(e) => {
            return Err(e);
        },
    };
    let date_created = match get_str_field(j, "date_created") {
        Ok(v) => v,
        Err(e) => {
            return Err(e);
        },
    };
    let client_first_name = match get_str_field(j, "client_first_name") {
        Ok(v) => v,
        Err(e) => {
            return Err(e);
        },
    };
    let client_second_name = match get_str_field(j, "client_second_name") {
        Ok(v) => v,
        Err(e) => {
            return Err(e);
        },
    };
    let client_last_name = match get_str_field(j, "client_last_name") {
        Ok(v) => v,
        Err(e) => {
            return Err(e);
        },
    };
    let client_id = match get_i32_field(j, "client_id") {
        Ok(v) => v,
        Err(e) => {
            return Err(e);
        },
    };
    let client_notes = match get_str_field(j, "client_notes") {
        Ok(v) => v,
        Err(e) => {
            return Err(e);
        },
    };
    let products_arr = match get_arr_field(j, "products") {
        Ok(v) => v,
        Err(e) => {
            return Err(e);
        },
    };
    let products = match decode_products(products_arr) {
        Ok(v) => v,
        Err(e) => {
            return Err(e);
        },
    };
    let phone = match get_str_field(j, "phone") {
        Ok(v) => v,
        Err(e) => {
            return Err(e);
        },
    };
    let email = match get_str_field(j, "email") {
        Ok(v) => v,
        Err(e) => {
            return Err(e);
        },
    };
    let price = match get_str_field(j, "price") {
        Ok(v) => v,
        Err(e) => {
            return Err(e);
        },
    };
    let delivery_option = match get_any_field(j, "delivery_option") {
        Ok(v) => match decode_delivery_option(v) {
            Ok(d) => d,
            Err(e) => {
                return Err(e);
            },
        },
        Err(e) => {
            return Err(e);
        },
    };
    let delivery_provider_data = match get_field(j, "delivery_provider_data") {
        Some(JsonValue::Null) => None,
        Some(v) => match decode_provider_data(v) {
            Ok(d) => Some(d),
            Err(e) => {
                return Err(e);
            },
        },
        None => None,
    };
    let delivery_address = match get_str_field(j, "delivery_address") {
        Ok(v) => v,
        Err(e) => {
            return Err(e);
        },
    };
    let payment_option = match get_any_field(j, "payment_option") {
        Ok(v) => match decode_payment_option(v) {
            Ok(p) => p,
            Err(e) => {
                return Err(e);
            },
        },
        Err(e) => {
            return Err(e);
        },
    };
    let payment_data = match get_field(j, "payment_data") {
        Some(JsonValue::Null) => None,
        Some(v) => match decode_payment_data(v) {
            Ok(p) => Some(p),
            Err(e) => {
                return Err(e);
            },
        },
        None => None,
    };
    let status_str = match get_str_field(j, "status") {
        Ok(v) => v,
        Err(e) => {
            return Err(e);
        },
    };
    let status = match PromOrderStatus::from_wire(status_str.as_str()) {
        Some(s) => s,
        None => {
            return Err(PromError::Decode);
        },
    };
    let source = match get_str_field(j, "source") {
        Ok(v) => v,
        Err(e) => {
            return Err(e);
        },
    };
    Ok(
        PromOrder {
            id,
            date_created,
            client_first_name,
            client_second_name,
            client_last_name,
            client_id,
            client_notes,
            products,
            phone,
            email,
            price,
            delivery_option,
            delivery_provider_data,
            delivery_address,
            payment_option,
            payment_data,
            status,
            source,
        },
    )
}

/// A tree with the shape of the order-list envelope: the misspelled
/// `odrers` field holding decodable orders.
pub open spec fn orders_response_decodable(j: JsonV) -> bool {
    spec_lookup(j, "odrers"@) matches Some(JsonV::Arr(a)) && orders_decodable(a)
}

/// Every element has the order shape.
pub open spec fn orders_decodable(a: Seq<JsonV>) -> bool {
    forall|i: int| 0 <= i < a.len() ==> #[trigger] order_decodable(a[i])
}

/// The orders read off a JSON array, element by element.
pub open spec fn orders_rel(a: Seq<JsonV>, os: Seq<PromOrder>) -> bool {
    &&& a.len() == os.len()
    &&& forall|i: int| 0 <= i < a.len() ==> #[trigger] order_rel(a[i], os[i])
}

/// The order-list envelope read off a tree.
pub open spec fn orders_response_rel(j: JsonV, r: PromOrdersResponse) -> bool {
    spec_lookup(j, "odrers"@) matches Some(JsonV::Arr(a)) && orders_rel(a, r.odrers@)
}

/// Decodes the order-list envelope.
pub fn decode_orders_response(j: &JsonValue) -> (r: Result<PromOrdersResponse, PromError>)
    ensures
        r is Ok <==> orders_response_decodable(j@),
        r matches Ok(resp) ==> orders_response_rel(j@, resp),
        r matches Err(e) ==> e == PromError::Decode,
{
    let arr = match get_arr_field(j, "odrers") {
        Ok(v) => v,
        Err(e) => {
            return Err(e);
        },
    };
    proof {
        lemma_arr_view_index(arr@);
    }
    let ghost g = spec_arr_view(arr@);
    let mut out: Vec<PromOrder> = Vec::new();
    let mut k: usize = 0;
    while k < arr.len()
        invariant
            k <= arr@.len(),
            g == spec_arr_view(arr@),
            g.len() == arr@.len(),
            spec_lookup(j@, "odrers"@) == Some(JsonV::Arr(g)),
            forall|i: int| 0 <= i < arr@.len() ==> g[i] == arr@[i]@,
            out@.len() == k,
            forall|i: int| 0 <= i < k ==> #[trigger] order_rel(g[i], out@[i]),
            forall|i: int| 0 <= i < k ==> #[trigger] order_decodable(g[i]),
        decreases arr@.len() - k,
    {
        match decode_order(&arr[k]) {
            Ok(o) => {
                out.push(o);
            },
            Err(e) => {
                proof {
                    assert(g[k as int] == arr@[k as int]@);
                    assert(!order_decodable(g[k as int]));
                }
                return Err(e);
            },
        }
        k = k + 1;
    }
    Ok(PromOrdersResponse { odrers: out })
}

/// A tree with the shape of the single-order envelope: the misspelled
/// `odrer` field holding one decodable order.
pub open spec fn order_by_id_response_decodable(j: JsonV) -> bool {
    spec_lookup(j, "odrer"@) matches Some(o) && order_decodable(o)
}

/// The single-order envelope read off a tree.
pub open spec fn order_by_id_response_rel(j: JsonV, r: PromOrderByIdResponse) -> bool {
    spec_lookup(j, "odrer"@) matches Some(o) && order_rel(o, r.odrer)
}

/// Decodes the single-order envelope.
pub fn decode_order_by_id_response(j: &JsonValue) -> (r: Result<PromOrderByIdResponse, PromError>)
    ensures
        r is Ok <==> order_by_id_response_decodable(j@),
        r matches Ok(resp) ==> order_by_id_response_rel(j@, resp),
        r matches Err(e) ==> e == PromError::Decode,
{
    let inner = match get_any_field(j, "odrer") {
        Ok(v) => v,
        Err(e) => {
            return Err(e);
        },
    };
    match decode_order(inner) {
        Ok(o) => Ok(PromOrderByIdResponse { odrer: o }),
        Err(e) => Err(e),
    }
}

/// A tree with the shape of a processed-ids answer.
pub open spec fn processed_ids_decodable(j: JsonV) -> bool {
    spec_lookup(j, "processed_ids"@) matches Some(JsonV::Arr(a)) && i32s_decodable(a)
}

/// The processed ids read off a tree.
pub open spec fn processed_ids_rel(j: JsonV, v: Seq<i32>) -> bool {
    spec_lookup(j, "processed_ids"@) matches Some(JsonV::Arr(a)) && i32s_rel(a, v)
}

/// Decodes a `processed_ids` answer into the ids themselves.
pub fn decode_processed_ids(j: &JsonValue) -> (r: Result<Vec<i32>, PromError>)
    ensures
        r is Ok <==> processed_ids_decodable(j@),
        r matches Ok(v) ==> processed_ids_rel(j@, v@),
        r matches Err(e) ==> e == PromError::Decode,
{
    let arr = match get_arr_field(j, "processed_ids") {
        Ok(v) => v,
        Err(e) => {
            return Err(e);
        },
    };
    match decode_i32_array(arr) {
        Ok(v) => {
            proof {
                lemma_arr_view_index(arr@);
            }
            Ok(v)
        },
        Err(e) => Err(e),
    }
}

/// Decodes the set-order-status answer.
pub fn decode_change_status_response(j: &JsonValue) -> (r: Result<
    PromChangeStatusResponse,
    PromError,
>)
    ensures
        r is Ok <==> processed_ids_decodable(j@),
        r matches Ok(resp) ==> processed_ids_rel(j@, resp.processed_ids@),
        r matches Err(e) ==> e == PromError::Decode,
{
    match decode_processed_ids(j) {
        Ok(v) => Ok(PromChangeStatusResponse { processed_ids: v }),
        Err(e) => Err(e),
    }
}

/// Decodes the order-refund answer.
pub fn decode_refund_response(j: &JsonValue) -> (r: Result<PromOrderRefundResponse, PromError>)
    ensures
        r is Ok <==> processed_ids_decodable(j@),
        r matches Ok(resp) ==> processed_ids_rel(j@, resp.processed_ids@),
        r matches Err(e) ==> e == PromError::Decode,
{
    match decode_processed_ids(j) {
        Ok(v) => Ok(PromOrderRefundResponse { processed_ids: v }),
        Err(e) => Err(e),
    }
}

/// Decodes the set-message-status answer.
pub fn decode_set_message_status_response(j: &JsonValue) -> (r: Result<
    PromSetStatusMessageResponse,
    PromError,
>)
    ensures
        r is Ok <==> processed_ids_decodable(j@),
        r matches Ok(resp) ==> processed_ids_rel(j@, resp.processed_ids@),
        r matches Err(e) ==> e == PromError::Decode,
{
    match decode_processed_ids(j) {
        Ok(v) => Ok(PromSetStatusMessageResponse { processed_ids: v }),
        Err(e) => Err(e),
    }
}

/// A tree with the shape of the message-reply answer.
pub open spec fn reply_response_decodable(j: JsonV) -> bool {
    spec_lookup(j, "processed_id"@) matches Some(JsonV::Int(v)) && i32::MIN <= v <= i32::MAX
}

/// The message-reply answer read off a tree.
pub open spec fn reply_response_rel(j: JsonV, r: PromMessageReplyResponse) -> bool {
    spec_lookup(j, "processed_id"@) == Some(JsonV::Int(r.processed_id as int))
}

/// Decodes the message-reply answer.
pub fn decode_reply_response(j: &JsonValue) -> (r: Result<PromMessageReplyResponse, PromError>)
    ensures
        r is Ok <==> reply_response_decodable(j@),
        r matches Ok(resp) ==> reply_response_rel(j@, resp),
        r matches Err(e) ==> e == PromError::Decode,
{
    match get_i32_field(j, "processed_id") {
        Ok(v) => Ok(PromMessageReplyResponse { processed_id: v }),
        Err(e) => Err(e),
    }
}

/// A tree with the shape of a client record.
pub open spec fn client_card_decodable(j: JsonV) -> bool {
    &&& spec_lookup(j, "id"@) matches Some(JsonV::Int(v)) && i32::MIN <= v <= i32::MAX
    &&& spec_lookup(j, "name"@) matches Some(JsonV::Str(_))
    &&& spec_lookup(j, "phones"@) matches Some(JsonV::Arr(a)) && strs_decodable(a)
    &&& spec_lookup(j, "emails"@) matches Some(JsonV::Arr(a)) && strs_decodable(a)
    &&& opt_str_decodable(j, "comment"@)
    &&& spec_lookup(j, "orders_count"@) matches Some(JsonV::Int(v)) && i32::MIN <= v <= i32::MAX
    &&& spec_lookup(j, "total_payout"@) matches Some(JsonV::Str(_))
}

/// The client record read off a tree.
pub open spec fn client_card_rel(j: JsonV, c: PromClientCard) -> bool {
    &&& spec_lookup(j, "id"@) == Some(JsonV::Int(c.id as int))
    &&& spec_lookup(j, "name"@) == Some(JsonV::Str(c.name@))
    &&& spec_lookup(j, "phones"@) matches Some(JsonV::Arr(a)) && strs_rel(a, c.phones@)
    &&& spec_lookup(j, "emails"@) matches Some(JsonV::Arr(a)) && strs_rel(a, c.emails@)
    &&& opt_str_rel(j, "comment"@, c.comment)
    &&& spec_lookup(j, "orders_count"@) == Some(JsonV::Int(c.orders_count as int))
    &&& spec_lookup(j, "total_payout"@) == Some(JsonV::Str(c.total_payout@))
}

/// Decodes one client record.
pub fn decode_client_card(j: &JsonValue) -> (r: Result<PromClientCard, PromError>)
    ensures
        r is Ok <==> client_card_decodable(j@),
        r matches Ok(c) ==> client_card_rel(j@, c),
        r matches Err(e) ==> e == PromError::Decode,
{
    let id = match get_i32_field(j, "id") {
        Ok(v) => v,
        Err(e) => {
            return Err(e);
        },
    };
    let name = match get_str_field(j, "name") {
        Ok(v) => v,
        Err(e) => {
            return Err(e);
        },
    };
    let phones_arr = match get_arr_field(j, "phones") {
        Ok(v) => v,
        Err(e) => {
            return Err(e);
        },
    };
    let phones = match decode_str_array(phones_arr) {
        Ok(v) => v,
        Err(e) => {
            return Err(e);
        },
    };
    let emails_arr = match get_arr_field(j, "emails") {
        Ok(v) => v,
        Err(e) => {
            return Err(e);
        },
    };
    let emails = match decode_str_array(emails_arr) {
        Ok(v) => v,
        Err(e) => {
            return Err(e);
        },
    };
    let comment = match get_opt_str_field(j, "comment") {
        Ok(v) => v,
        Err(e) => {
            return Err(e);
        },
    };
    let orders_count = match get_i32_field(j, "orders_count") {
        Ok(v) => v,
        Err(e) => {
            return Err(e);
        },
    };
    let total_payout = match get_str_field(j, "total_payout") {
        Ok(v) => v,
        Err(e) => {
            return Err(e);
        },
    };
    Ok(PromClientCard { id, name, phones, emails, comment, orders_count, total_payout })
}

/// Every element has the client-record shape.
pub open spec fn clients_decodable(a: Seq<JsonV>) -> bool {
    forall|i: int| 0 <= i < a.len() ==> #[trigger] client_card_decodable(a[i])
}

/// The client records read off a JSON array, element by element.
pub open spec fn clients_rel(a: Seq<JsonV>, cs: Seq<PromClientCard>) -> bool {
    &&& a.len() == cs.len()
    &&& forall|i: int| 0 <= i < a.len() ==> #[trigger] client_card_rel(a[i], cs[i])
}

/// A tree with the shape of the client-list envelope.
pub open spec fn client_list_response_decodable(j: JsonV) -> bool {
    spec_lookup(j, "clients"@) matches Some(JsonV::Arr(a)) && clients_decodable(a)
}

/// The client-list envelope read off a tree.
pub open spec fn client_list_response_rel(j: JsonV, r: PromClientListResponse) -> bool {
    spec_lookup(j, "clients"@) matches Some(JsonV::Arr(a)) && clients_rel(a, r.clients@)
}

/// Decodes the client-list envelope.
pub fn decode_client_list_response(j: &JsonValue) -> (r: Result<
    PromClientListResponse,
    PromError,
>)
    ensures
        r is Ok <==> client_list_response_decodable(j@),
        r matches Ok(resp) ==> client_list_response_rel(j@, resp),
        r matches Err(e) ==> e == PromError::Decode,
{
    let arr = match get_arr_field(j, "clients") {
        Ok(v) => v,
        Err(e) => {
            return Err(e);
        },
    };
    proof {
        lemma_arr_view_index(arr@);
    }
    let ghost g = spec_arr_view(arr@);
    let mut out: Vec<PromClientCard> = Vec::new();
    let mut k: usize = 0;
    while k < arr.len()
        invariant
            k <= arr@.len(),
            g == spec_arr_view(arr@),
            g.len() == arr@.len(),
            spec_lookup(j@, "clients"@) == Some(JsonV::Arr(g)),
            forall|i: int| 0 <= i < arr@.len() ==> g[i] == arr@[i]@,
            out@.len() == k,
            forall|i: int| 0 <= i < k ==> #[trigger] client_card_rel(g[i], out@[i]),
            forall|i: int| 0 <= i < k ==> #[trigger] client_card_decodable(g[i]),
        decreases arr@.len() - k,
    {
        match decode_client_card(&arr[k]) {
            Ok(c) => {
                out.push(c);
            },
            Err(e) => {
                proof {
                    assert(g[k as int] == arr@[k as int]@);
                    assert(!client_card_decodable(g[k as int]));
                }
                return Err(e);
            },
        }
        k = k + 1;
    }
    Ok(PromClientListResponse { clients: out })
}

/// A tree with the shape of the single-client envelope.
pub open spec fn client_by_id_response_decodable(j: JsonV) -> bool {
    spec_lookup(j, "client"@) matches Some(c) && client_card_decodable(c)
}

/// The single-client envelope read off a tree.
pub open spec fn client_by_id_response_rel(j: JsonV, r: PromClientByIdResponse) -> bool {
    spec_lookup(j, "client"@) matches Some(c) && client_card_rel(c, r.client)
}

/// Decodes the single-client envelope.
pub fn decode_client_by_id_response(j: &JsonValue) -> (r: Result<
    PromClientByIdResponse,
    PromError,
>)
    ensures
        r is Ok <==> client_by_id_response_decodable(j@),
        r matches Ok(resp) ==> client_by_id_response_rel(j@, resp),
        r matches Err(e) ==> e == PromError::Decode,
{
    let inner = match get_any_field(j, "client") {
        Ok(v) => v,
        Err(e) => {
            return Err(e);
        },
    };
    match decode_client_card(inner) {
        Ok(c) => Ok(PromClientByIdResponse { client: c }),
        Err(e) => Err(e),
    }
}

/// A tree with the shape of a customer message; its status stays a
/// free-form string.
pub open spec fn message_decodable(j: JsonV) -> bool {
    &&& spec_lookup(j, "id"@) matches Some(JsonV::Int(v)) && i32::MIN <= v <= i32::MAX
    &&& spec_lookup(j, "client_full_name"@) matches Some(JsonV::Str(_))
    &&& spec_lookup(j, "date_created"@) matches Some(JsonV::Str(_))
    &&& spec_lookup(j, "phone"@) matches Some(JsonV::Str(_))
    &&& spec_lookup(j, "message"@) matches Some(JsonV::Str(_))
    &&& spec_lookup(j, "subject"@) matches Some(JsonV::Str(_))
    &&& spec_lookup(j, "status"@) matches Some(JsonV::Str(_))
    &&& spec_lookup(j, "product_id"@) matches Some(JsonV::Int(v)) && i32::MIN <= v <= i32::MAX
}

/// The customer message read off a tree.
pub open spec fn message_rel(j: JsonV, m: PromMessage) -> bool {
    &&& spec_lookup(j, "id"@) == Some(JsonV::Int(m.id as int))
    &&& spec_lookup(j, "client_full_name"@) == Some(JsonV::Str(m.client_full_name@))
    &&& spec_lookup(j, "date_created"@) == Some(JsonV::Str(m.date_created@))
    &&& spec_lookup(j, "phone"@) == Some(JsonV::Str(m.phone@))
    &&& spec_lookup(j, "message"@) == Some(JsonV::Str(m.message@))
    &&& spec_lookup(j, "subject"@) == Some(JsonV::Str(m.subject@))
    &&& spec_lookup(j, "status"@) == Some(JsonV::Str(m.status@))
    &&& spec_lookup(j, "product_id"@) == Some(JsonV::Int(m.product_id as int))
}

/// Decodes one customer message.
pub fn decode_message(j: &JsonValue) -> (r: Result<PromMessage, PromError>)
    ensures
        r is Ok <==> message_decodable(j@),
        r matches Ok(m) ==> message_rel(j@, m),
        r matches Err(e) ==> e == PromError::Decode,
{
    let id = match get_i32_field(j, "id") {
        Ok(v) => v,
        Err(e) => {
            return Err(e);
        },
    };
    let client_full_name = match get_str_field(j, "client_full_name") {
        Ok(v) => v,
        Err(e) => {
            return Err(e);
        },
    };
    let date_created = match get_str_field(j, "date_created") {
        Ok(v) => v,
        Err(e) => {
            return Err(e);
        },
    };
    let phone = match get_str_field(j, "phone") {
        Ok(v) => v,
        Err(e) => {
            return Err(e);
        },
    };
    let message = match get_str_field(j, "message") {
        Ok(v) => v,
        Err(e) => {
            return Err(e);
        },
    };
    let subject = match get_str_field(j, "subject") {
        Ok(v) => v,
        Err(e) => {
            return Err(e);
        },
    };
    let status = match get_str_field(j, "status") {
        Ok(v) => v,
        Err(e) => {
            return Err(e);
        },
    };
    let product_id = match get_i32_field(j, "product_id") {
        Ok(v) => v,
        Err(e) => {
            return Err(e);
        },
    };
    Ok(
        PromMessage {
            id,
            client_full_name,
            date_created,
            phone,
            message,
            subject,
            status,
            product_id,
        },
    )
}

/// Every element has the message shape.
pub open spec fn messages_decodable(a: Seq<JsonV>) -> bool {
    forall|i: int| 0 <= i < a.len() ==> #[trigger] message_decodable(a[i])
}

/// The messages read off a JSON array, element by element.
pub open spec fn messages_rel(a: Seq<JsonV>, ms: Seq<PromMessage>) -> bool {
    &&& a.len() == ms.len()
    &&& forall|i: int| 0 <= i < a.len() ==> #[trigger] message_rel(a[i], ms[i])
}

/// A tree with the shape of the message-list envelope.
pub open spec fn messages_list_response_decodable(j: JsonV) -> bool {
    spec_lookup(j, "messages"@) matches Some(JsonV::Arr(a)) && messages_decodable(a)
}

/// The message-list envelope read off a tree.
pub open spec fn messages_list_response_rel(j: JsonV, r: PromMessagesListResponse) -> bool {
    spec_lookup(j, "messages"@) matches Some(JsonV::Arr(a)) && messages_rel(a, r.messages@)
}

/// Decodes the message-list envelope.
pub fn decode_messages_list_response(j: &JsonValue) -> (r: Result<
    PromMessagesListResponse,
    PromError,
>)
    ensures
        r is Ok <==> messages_list_response_decodable(j@),
        r matches Ok(resp) ==> messages_list_response_rel(j@, resp),
        r matches Err(e) ==> e == PromError::Decode,
{
    let arr = match get_arr_field(j, "messages") {
        Ok(v) => v,
        Err(e) => {
            return Err(e);
        },
    };
    proof {
        lemma_arr_view_index(arr@);
    }
    let ghost g = spec_arr_view(arr@);
    let mut out: Vec<PromMessage> = Vec::new();
    let mut k: usize = 0;
    while k < arr.len()
        invariant
            k <= arr@.len(),
            g == spec_arr_view(arr@),
            g.len() == arr@.len(),
            spec_lookup(j@, "messages"@) == Some(JsonV::Arr(g)),
            forall|i: int| 0 <= i < arr@.len() ==> g[i] == arr@[i]@,
            out@.len() == k,
            forall|i: int| 0 <= i < k ==> #[trigger] message_rel(g[i], out@[i]),
            forall|i: int| 0 <= i < k ==> #[trigger] message_decodable(g[i]),
        decreases arr@.len() - k,
    {
        match decode_message(&arr[k]) {
            Ok(m) => {
                out.push(m);
            },
            Err(e) => {
                proof {
                    assert(g[k as int] == arr@[k as int]@);
                    assert(!message_decodable(g[k as int]));
                }
                return Err(e);
            },
        }
        k = k + 1;
    }
    Ok(PromMessagesListResponse { messages: out })
}

/// A tree with the shape of the single-message envelope.
pub open spec fn message_by_id_response_decodable(j: JsonV) -> bool {
    spec_lookup(j, "message"@) matches Some(m) && message_decodable(m)
}

/// The single-message envelope read off a tree.
pub open spec fn message_by_id_response_rel(j: JsonV, r: PromMessageByIdResponse) -> bool {
    spec_lookup(j, "message"@) matches Some(m) && message_rel(m, r.message)
}

/// Decodes the single-message envelope.
pub fn decode_message_by_id_response(j: &JsonValue) -> (r: Result<
    PromMessageByIdResponse,
    PromError,
>)
    ensures
        r is Ok <==> message_by_id_response_decodable(j@),
        r matches Ok(resp) ==> message_by_id_response_rel(j@, resp),
        r matches Err(e) ==> e == PromError::Decode,
{
    let inner = match get_any_field(j, "message") {
        Ok(v) => v,
        Err(e) => {
            return Err(e);
        },
    };
    match decode_message(inner) {
        Ok(m) => Ok(PromMessageByIdResponse { message: m }),
        Err(e) => Err(e),
    }
}

/// Every field of a JSON object carries a string value.
pub open spec fn str_pairs_decodable(gf: Seq<(Seq<char>, JsonV)>) -> bool {
    forall|i: int| 0 <= i < gf.len() ==> (#[trigger] gf[i].1 matches JsonV::Str(_))
}

/// The key-value pairs read off a JSON object, in wire order.
pub open spec fn str_pairs_rel(gf: Seq<(Seq<char>, JsonV)>, v: Seq<(String, String)>) -> bool {
    &&& gf.len() == v.len()
    &&& forall|i: int|
        0 <= i < gf.len() ==> #[trigger] gf[i] == (v[i].0@, JsonV::Str(v[i].1@))
}

/// An optional error map: absent, `null`, or an object of string values.
pub open spec fn opt_errors_decodable(j: JsonV) -> bool {
    ||| spec_lookup(j, "errors"@) is None
    ||| spec_lookup(j, "errors"@) == Some(JsonV::Null)
    ||| (spec_lookup(j, "errors"@) matches Some(JsonV::Obj(gf)) && str_pairs_decodable(gf))
}

/// How the optional error map reads.
pub open spec fn opt_errors_rel(j: JsonV, o: Option<Vec<(String, String)>>) -> bool {
    match o {
        Some(v) => spec_lookup(j, "errors"@) matches Some(JsonV::Obj(gf)) && str_pairs_rel(gf, v@),
        None => spec_lookup(j, "errors"@) is None || spec_lookup(j, "errors"@) == Some(
            JsonV::Null,
        ),
    }
}

/// A tree with the shape of the save-delivery-declaration answer.
pub open spec fn save_declaration_response_decodable(j: JsonV) -> bool {
    &&& spec_lookup(j, "status"@) matches Some(JsonV::Str(_))
    &&& opt_str_decodable(j, "message"@)
    &&& opt_errors_decodable(j)
}

/// The save-delivery-declaration answer read off a tree.
pub open spec fn save_declaration_response_rel(j: JsonV, r: PromSaveDeclarationIdResponse) -> bool {
    &&& spec_lookup(j, "status"@) == Some(JsonV::Str(r.status@))
    &&& opt_str_rel(j, "message"@, r.message)
    &&& opt_errors_rel(j, r.errors)
}

/// Decodes the save-delivery-declaration answer.
pub fn decode_save_declaration_response(j: &JsonValue) -> (r: Result<
    PromSaveDeclarationIdResponse,
    PromError,
>)
    ensures
        r is Ok <==> save_declaration_response_decodable(j@),
        r matches Ok(resp) ==> save_declaration_response_rel(j@, resp),
        r matches Err(e) ==> e == PromError::Decode,
{
    let status = match get_str_field(j, "status") {
        Ok(v) => v,
        Err(e) => {
            return Err(e);
        },
    };
    let message = match get_opt_str_field(j, "message") {
        Ok(v) => v,
        Err(e) => {
            return Err(e);
        },
    };
    let errors = match get_field(j, "errors") {
        None => None,
        Some(JsonValue::Null) => None,
        Some(v) => match v {
            JsonValue::Obj(fs) => {
                proof {
                    lemma_obj_view_index(fs@);
                }
                let ghost gf = spec_obj_view(fs@);
                let mut out: Vec<(String, String)> = Vec::new();
                let mut k: usize = 0;
                while k < fs.len()
                    invariant
                        k <= fs@.len(),
                        gf == spec_obj_view(fs@),
                        gf.len() == fs@.len(),
                        spec_lookup(j@, "errors"@) == Some(JsonV::Obj(gf)),
                        forall|i: int|
                            0 <= i < fs@.len() ==> gf[i] == (fs@[i].0@, fs@[i].1@),
                        out@.len() == k,
                        forall|i: int|
                            0 <= i < k ==> #[trigger] gf[i] == (out@[i].0@, JsonV::Str(
                                out@[i].1@,
                            )),
                    decreases fs@.len() - k,
                {
                    match &fs[k].1 {
                        JsonValue::Str(s) => {
                            out.push((fs[k].0.clone(), s.clone()));
                        },
                        _ => {
                            proof {
                                assert(gf[k as int].1 == fs@[k as int].1@);
                                assert(!(gf[k as int].1 matches JsonV::Str(_)));
                            }
                            return Err(PromError::Decode);
                        },
                    }
                    k = k + 1;
                }
                Some(out)
            },
            _ => {
                return Err(PromError::Decode);
            },
        },
    };
    Ok(PromSaveDeclarationIdResponse { status, message, errors })
}

} // verus!
