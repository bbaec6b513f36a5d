//! The request and response shapes exchanged with the remote API.
//!
//! Pure data records: every entity is built either by decoding a response
//! tree or by a caller assembling a request. Optional fields model
//! "absent" explicitly and are never collapsed into empty defaults.

use vstd::prelude::*;
use crate::status::PromMessageStatus;
use crate::status::PromOrderStatus;

verus! {

/// One ordered line item.
#[derive(Debug, Clone, PartialEq)]
pub struct PromProduct {
    pub id: i32,
    pub external_id: String,
    pub image: String,
    pub quantity: i32,
    pub price: String,
    pub url: String,
    pub name: String,
    pub total_price: String,
    pub measure_unit: String,
    pub sku: String,
}

/// The chosen shipping method.
#[derive(Debug, Clone, PartialEq)]
pub struct PromDeliveryOption {
    pub id: String,
    pub name: String,
}

/// Carrier-specific shipping metadata; the wire field `type` is held as
/// `type_`.
#[derive(Debug, Clone, PartialEq)]
pub struct PromDeliveryProviderData {
    pub provider: String,
    pub type_: String,
    pub sender_warehouse_id: Option<String>,
    pub recipient_warehouse_id: Option<String>,
    pub declaration_number: String,
}

/// The chosen payment method.
#[derive(Debug, Clone, PartialEq)]
pub struct PromPaymentOption {
    pub id: String,
    pub name: String,
}

/// Payment processing state; the wire field `type` is held as `type_`.
#[derive(Debug, Clone, PartialEq)]
pub struct PromPaymentData {
    pub type_: String,
    pub status: String,
    pub status_modified: String,
}

/// A purchase transaction.
#[derive(Debug, Clone, PartialEq)]
pub struct PromOrder {
    pub id: i32,
    pub date_created: String,
    pub client_first_name: String,
    pub client_second_name: String,
    pub client_last_name: String,
    pub client_id: i32,
    pub client_notes: String,
    pub products: Vec<PromProduct>,
    pub phone: String,
    pub email: String,
    pub price: String,
    pub delivery_option: PromDeliveryOption,
    pub delivery_provider_data: Option<PromDeliveryProviderData>,
    pub delivery_address: String,
    pub payment_option: PromPaymentOption,
    pub payment_data: Option<PromPaymentData>,
    pub status: PromOrderStatus,
    pub source: String,
}

/// The envelope of the order-list endpoint; the wire misspells the field
/// as `odrers`, and that exact spelling is part of the contract.
#[derive(Debug, Clone, PartialEq)]
pub struct PromOrdersResponse {
    pub odrers: Vec<PromOrder>,
}

/// The envelope of the single-order endpoint; the wire misspells the field
/// as `odrer`.
#[derive(Debug, Clone, PartialEq)]
pub struct PromOrderByIdResponse {
    pub odrer: PromOrder,
}

/// The body of the set-order-status endpoint.
#[derive(Debug, Clone, PartialEq)]
pub struct PromChangeStatusRequest {
    pub status: String,
    pub ids: Vec<String>,
    pub cancellation_reason: Option<String>,
    pub cancellation_text: Option<String>,
}

/// The answer of the set-order-status endpoint.
#[derive(Debug, Clone, PartialEq)]
pub struct PromChangeStatusResponse {
    pub processed_ids: Vec<i32>,
}

/// The body of the order-refund endpoint.
#[derive(Debug, Clone, PartialEq)]
pub struct PromOrderRefundRequest {
    pub ids: Vec<i32>,
}

/// The answer of the order-refund endpoint.
#[derive(Debug, Clone, PartialEq)]
pub struct PromOrderRefundResponse {
    pub processed_ids: Vec<i32>,
}

/// The body of the save-delivery-declaration endpoint.
#[derive(Debug, Clone, PartialEq)]
pub struct PromSaveDeclarationIdRequest {
    pub order_id: i32,
    pub declaration_id: String,
    pub delivery_type: String,
}

/// The answer of the save-delivery-declaration endpoint. The errors, when
/// present, are a map from field name to complaint, held in wire order.
#[derive(Debug, Clone, PartialEq)]
pub struct PromSaveDeclarationIdResponse {
    pub status: String,
    pub message: Option<String>,
    pub errors: Option<Vec<(String, String)>>,
}

/// A customer record.
#[derive(Debug, Clone, PartialEq)]
pub struct PromClientCard {
    pub id: i32,
    pub name: String,
    pub phones: Vec<String>,
    pub emails: Vec<String>,
    pub comment: Option<String>,
    pub orders_count: i32,
    pub total_payout: String,
}

/// The envelope of the client-list endpoint.
#[derive(Debug, Clone, PartialEq)]
pub struct PromClientListResponse {
    pub clients: Vec<PromClientCard>,
}

/// The envelope of the single-client endpoint.
#[derive(Debug, Clone, PartialEq)]
pub struct PromClientByIdResponse {
    pub client: PromClientCard,
}

/// A customer inquiry. Its status is deliberately a free-form string,
/// unlike the closed order-status set.
#[derive(Debug, Clone, PartialEq)]
pub struct PromMessage {
    pub id: i32,
    pub client_full_name: String,
    pub date_created: String,
    pub phone: String,
    pub message: String,
    pub subject: String,
    pub status: String,
    pub product_id: i32,
}

/// The envelope of the message-list endpoint.
#[derive(Debug, Clone, PartialEq)]
pub struct PromMessagesListResponse {
    pub messages: Vec<PromMessage>,
}

/// The envelope of the single-message endpoint.
#[derive(Debug, Clone, PartialEq)]
pub struct PromMessageByIdResponse {
    pub message: PromMessage,
}

/// The body of the set-message-status endpoint.
#[derive(Debug, Clone, PartialEq)]
pub struct PromSetStatusMessageRequest {
    pub ids: Vec<i32>,
    pub status: PromMessageStatus,
}

/// The answer of the set-message-status endpoint.
#[derive(Debug, Clone, PartialEq)]
pub struct PromSetStatusMessageResponse {
    pub processed_ids: Vec<i32>,
}

/// The body of the message-reply endpoint.
#[derive(Debug, Clone, PartialEq)]
pub struct PromMessageReplyRequest {
    pub id: i32,
    pub message: String,
}

/// The answer of the message-reply endpoint.
#[derive(Debug, Clone, PartialEq)]
pub struct PromMessageReplyResponse {
    pub processed_id: i32,
}

} // verus!
