//! Laws relating the decoders across calls.
//!
//! Decoding is a function of the response tree alone: two values read off
//! the same tree are structurally identical, field for field. So repeating
//! an operation against an unchanged remote state yields structurally
//! identical results, and absent optional fields always read as absent.

use vstd::prelude::*;
use crate::decode::client_card_rel;
use crate::decode::message_rel;
use crate::decode::order_by_id_response_rel;
use crate::decode::order_rel;
use crate::decode::product_rel;
use crate::decode::save_declaration_response_rel;
use crate::json::JsonV;
use crate::json::spec_lookup;
use crate::types::PromClientCard;
use crate::types::PromDeliveryProviderData;
use crate::types::PromMessage;
use crate::types::PromOrder;
use crate::types::PromOrderByIdResponse;
use crate::types::PromPaymentData;
use crate::types::PromProduct;
use crate::types::PromSaveDeclarationIdResponse;

verus! {

/// Two line items that agree on every field.
pub open spec fn product_same(a: PromProduct, b: PromProduct) -> bool {
    &&& a.id == b.id
    &&& a.external_id@ == b.external_id@
    &&& a.image@ == b.image@
    &&& a.quantity == b.quantity
    &&& a.price@ == b.price@
    &&& a.url@ == b.url@
    &&& a.name@ == b.name@
    &&& a.total_price@ == b.total_price@
    &&& a.measure_unit@ == b.measure_unit@
    &&& a.sku@ == b.sku@
}

/// Two optional strings that agree.
pub open spec fn opt_string_same(a: Option<String>, b: Option<String>) -> bool {
    match (a, b) {
        (Some(x), Some(y)) => x@ == y@,
        (None, None) => true,
        _ => false,
    }
}

/// Two carrier-metadata records that agree on every field.
pub open spec fn provider_data_same(
    a: PromDeliveryProviderData,
    b: PromDeliveryProviderData,
) -> bool {
    &&& a.provider@ == b.provider@
    &&& a.type_@ == b.type_@
    &&& opt_string_same(a.sender_warehouse_id, b.sender_warehouse_id)
    &&& opt_string_same(a.recipient_warehouse_id, b.recipient_warehouse_id)
    &&& a.declaration_number@ == b.declaration_number@
}

/// Two payment-state records that agree on every field.
pub open spec fn payment_data_same(a: PromPaymentData, b: PromPaymentData) -> bool {
    &&& a.type_@ == b.type_@
    &&& a.status@ == b.status@
    &&& a.status_modified@ == b.status_modified@
}

/// Two orders that agree on every field, nested records included.
pub open spec fn order_same(a: PromOrder, b: PromOrder) -> bool {
    &&& a.id == b.id
    &&& a.date_created@ == b.date_created@
    &&& a.client_first_name@ == b.client_first_name@
    &&& a.client_second_name@ == b.client_second_name@
    &&& a.client_last_name@ == b.client_last_name@
    &&& a.client_id == b.client_id
    &&& a.client_notes@ == b.client_notes@
    &&& a.products@.len() == b.products@.len()
    &&& forall|i: int|
        0 <= i < a.products@.len() ==> #[trigger] product_same(a.products@[i], b.products@[i])
    &&& a.phone@ == b.phone@
    &&& a.email@ == b.email@
    &&& a.price@ == b.price@
    &&& a.delivery_option.id@ == b.delivery_option.id@
    &&& a.delivery_option.name@ == b.delivery_option.name@
    &&& match (a.delivery_provider_data, b.delivery_provider_data) {
        (Some(x), Some(y)) => provider_data_same(x, y),
        (None, None) => true,
        _ => false,
    }
    &&& a.delivery_address@ == b.delivery_address@
    &&& a.payment_option.id@ == b.payment_option.id@
    &&& a.payment_option.name@ == b.payment_option.name@
    &&& match (a.payment_data, b.payment_data) {
        (Some(x), Some(y)) => payment_data_same(x, y),
        (None, None) => true,
        _ => false,
    }
    &&& a.status == b.status
    &&& a.source@ == b.source@
}

/// One tree decodes to at most one line item.
proof fn lemma_product_rel_functional(j: JsonV, a: PromProduct, b: PromProduct)
    requires
        product_rel(j, a),
        product_rel(j, b),
    ensures
        product_same(a, b),
{
}

/// One tree decodes to at most one order: decoding is a function of the
/// response body alone.
pub proof fn lemma_order_rel_functional(j: JsonV, a: PromOrder, b: PromOrder)
    requires
        order_rel(j, a),
        order_rel(j, b),
    ensures
        order_same(a, b),
{
    let arr = spec_lookup(j, "products"@)->Some_0->Arr_0;
    assert forall|i: int|
        0 <= i < a.products@.len() implies #[trigger] product_same(
        a.products@[i],
        b.products@[i],
    ) by {
        lemma_product_rel_functional(arr[i], a.products@[i], b.products@[i]);
    }
}

/// Idempotence of the single-order operation: with the same id and an
/// unchanged remote state the response body is the same tree, and two
/// decodes of one tree are structurally identical.
pub proof fn lemma_get_order_by_id_idempotent(
    j: JsonV,
    r1: PromOrderByIdResponse,
    r2: PromOrderByIdResponse,
)
    requires
        order_by_id_response_rel(j, r1),
        order_by_id_response_rel(j, r2),
    ensures
        order_same(r1.odrer, r2.odrer),
{
    let o = spec_lookup(j, "odrer"@)->Some_0;
    lemma_order_rel_functional(o, r1.odrer, r2.odrer);
}

/// Two messages that agree on every field.
pub open spec fn message_same(a: PromMessage, b: PromMessage) -> bool {
    &&& a.id == b.id
    &&& a.client_full_name@ == b.client_full_name@
    &&& a.date_created@ == b.date_created@
    &&& a.phone@ == b.phone@
    &&& a.message@ == b.message@
    &&& a.subject@ == b.subject@
    &&& a.status@ == b.status@
    &&& a.product_id == b.product_id
}

/// One tree decodes to at most one message.
pub proof fn lemma_message_rel_functional(j: JsonV, a: PromMessage, b: PromMessage)
    requires
        message_rel(j, a),
        message_rel(j, b),
    ensures
        message_same(a, b),
{
}

/// A response without the optional `message` field always reads as
/// `None`, never as a defaulted empty string.
pub proof fn lemma_absent_message_reads_none(j: JsonV, r: PromSaveDeclarationIdResponse)
    requires
        save_declaration_response_rel(j, r),
        spec_lookup(j, "message"@) is None,
    ensures
        r.message is None,
{
}

/// An order without the optional carrier metadata always reads as `None`.
pub proof fn lemma_absent_provider_data_reads_none(j: JsonV, o: PromOrder)
    requires
        order_rel(j, o),
        spec_lookup(j, "delivery_provider_data"@) is None,
    ensures
        o.delivery_provider_data is None,
{
}

/// A client record without the optional comment always reads as `None`.
pub proof fn lemma_absent_comment_reads_none(j: JsonV, c: PromClientCard)
    requires
        client_card_rel(j, c),
        spec_lookup(j, "comment"@) is None,
    ensures
        c.comment is None,
{
}

} // verus!
