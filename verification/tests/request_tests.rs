use prom_client::json::write_json;
use prom_client::parse::parse_json;
use prom_client::json::get_field;
use prom_client::json::JsonValue;
use prom_client::requests::endpoint_url;
use prom_client::requests::entity_url;
use prom_client::requests::get_clients_query;
use prom_client::requests::get_messages_query;
use prom_client::requests::get_orders_query;
use prom_client::status::PromMessageStatus;
use prom_client::status::PromOrderStatus;
use prom_client::types::PromChangeStatusRequest;
use prom_client::types::PromMessageReplyRequest;
use prom_client::types::PromOrderRefundRequest;
use prom_client::types::PromSaveDeclarationIdRequest;
use prom_client::types::PromSetStatusMessageRequest;

#[test]
fn change_status_body_omits_cancellation_fields_as_null() {
    let req = PromChangeStatusRequest {
        status: "canceled".to_string(),
        ids: vec!["A".to_string(), "B".to_string()],
        cancellation_reason: None,
        cancellation_text: None,
    };
    let body = req.to_json();
    assert_eq!(
        write_json(&body),
        "{\"status\":\"canceled\",\"ids\":[\"A\",\"B\"],\
         \"cancellation_reason\":null,\"cancellation_text\":null}"
    );
    assert!(matches!(
        get_field(&body, "cancellation_reason"),
        Some(JsonValue::Null)
    ));
    assert!(matches!(
        get_field(&body, "cancellation_text"),
        Some(JsonValue::Null)
    ));
}

#[test]
fn change_status_body_keeps_supplied_cancellation_fields() {
    let req = PromChangeStatusRequest {
        status: "canceled".to_string(),
        ids: vec!["7".to_string()],
        cancellation_reason: Some("not_available".to_string()),
        cancellation_text: Some("out of stock".to_string()),
    };
    let body = req.to_json();
    assert_eq!(
        write_json(&body),
        "{\"status\":\"canceled\",\"ids\":[\"7\"],\
         \"cancellation_reason\":\"not_available\",\
         \"cancellation_text\":\"out of stock\"}"
    );
}

#[test]
fn refund_body_lists_numeric_ids() {
    let req = PromOrderRefundRequest { ids: vec![5, -3, 0] };
    assert_eq!(write_json(&req.to_json()), "{\"ids\":[5,-3,0]}");
}

#[test]
fn save_declaration_body_has_exact_fields() {
    let req = PromSaveDeclarationIdRequest {
        order_id: 42,
        declaration_id: "59000000000000".to_string(),
        delivery_type: "nova_poshta".to_string(),
    };
    assert_eq!(
        write_json(&req.to_json()),
        "{\"order_id\":42,\"declaration_id\":\"59000000000000\",\
         \"delivery_type\":\"nova_poshta\"}"
    );
}

#[test]
fn set_message_status_body_uses_wire_name() {
    let req = PromSetStatusMessageRequest {
        ids: vec![1, 2],
        status: PromMessageStatus::read,
    };
    assert_eq!(
        write_json(&req.to_json()),
        "{\"ids\":[1,2],\"status\":\"read\"}"
    );
}

#[test]
fn reply_body_has_id_and_message() {
    let req = PromMessageReplyRequest {
        id: 9,
        message: "On the way".to_string(),
    };
    assert_eq!(
        write_json(&req.to_json()),
        "{\"id\":9,\"message\":\"On the way\"}"
    );
}

#[test]
fn json_strings_are_escaped() {
    let v = JsonValue::Str("a\"b\\c".to_string());
    assert_eq!(write_json(&v), "\"a\\\"b\\\\c\"");
}

#[test]
fn control_characters_are_escaped_on_the_wire() {
    assert_eq!(
        write_json(&JsonValue::Str("a\nb\tc\r".to_string())),
        "\"a\\nb\\tc\\r\""
    );
    assert_eq!(
        write_json(&JsonValue::Str("\u{1}\u{1f}".to_string())),
        "\"\\u0001\\u001f\""
    );
}

#[test]
fn json_integers_render_in_decimal() {
    assert_eq!(write_json(&JsonValue::Int(0)), "0");
    assert_eq!(write_json(&JsonValue::Int(1234567890)), "1234567890");
    assert_eq!(write_json(&JsonValue::Int(-17)), "-17");
    assert_eq!(write_json(&JsonValue::Int(i64::MIN)), "-9223372036854775808");
    assert_eq!(write_json(&JsonValue::Int(i64::MAX)), "9223372036854775807");
}

#[test]
fn orders_query_defaults_status_to_pending_and_limit_to_zero() {
    let q = get_orders_query(None, None);
    assert_eq!(
        q,
        vec![
            ("status".to_string(), "pending".to_string()),
            ("limit".to_string(), "0".to_string()),
        ]
    );
}

#[test]
fn orders_query_keeps_explicit_arguments() {
    let q = get_orders_query(Some(PromOrderStatus::paid), Some(25));
    assert_eq!(
        q,
        vec![
            ("status".to_string(), "paid".to_string()),
            ("limit".to_string(), "25".to_string()),
        ]
    );
}

#[test]
fn clients_query_defaults_each_parameter() {
    let q = get_clients_query(None, None, None);
    assert_eq!(
        q,
        vec![
            ("limit".to_string(), "0".to_string()),
            ("last_id".to_string(), "0".to_string()),
            ("search_term".to_string(), "".to_string()),
        ]
    );
}

#[test]
fn messages_query_defaults_each_parameter() {
    let q = get_messages_query(None, None, None, Some(10), None);
    assert_eq!(
        q,
        vec![
            ("status".to_string(), "".to_string()),
            ("date_from".to_string(), "".to_string()),
            ("date_to".to_string(), "".to_string()),
            ("limit".to_string(), "10".to_string()),
            ("last_id".to_string(), "0".to_string()),
        ]
    );
}

#[test]
fn urls_are_rooted_at_the_fixed_base() {
    assert_eq!(
        endpoint_url("/orders/list"),
        "https://my.prom.ua/api/v1/orders/list"
    );
    assert_eq!(
        entity_url("/orders/", "17"),
        "https://my.prom.ua/api/v1/orders/17"
    );
    assert_eq!(
        entity_url("/clients/", "abc"),
        "https://my.prom.ua/api/v1/clients/abc"
    );
}

#[test]
fn scalar_json_values_render_exactly() {
    assert_eq!(write_json(&JsonValue::Null), "null");
    assert_eq!(write_json(&JsonValue::Bool(true)), "true");
    assert_eq!(write_json(&JsonValue::Bool(false)), "false");
    assert_eq!(write_json(&JsonValue::Arr(vec![])), "[]");
    assert_eq!(write_json(&JsonValue::Obj(vec![])), "{}");
}

#[test]
fn compact_texts_parse_back_to_their_trees() {
    let req = PromChangeStatusRequest {
        status: "canceled".to_string(),
        ids: vec!["A".to_string(), "B".to_string()],
        cancellation_reason: None,
        cancellation_text: None,
    };
    let body = req.to_json();
    let text = write_json(&body);
    let parsed = parse_json(&text).unwrap();
    assert_eq!(write_json(&parsed), text);
}

#[test]
fn parser_reads_every_value_kind() {
    let text = "{\"a\":[1,-2,null,true,false,\"x\\\"y\\\\z\"],\"b\":{},\"c\":[]}";
    let parsed = parse_json(text).unwrap();
    assert_eq!(write_json(&parsed), text);
}

#[test]
fn escaped_control_characters_round_trip() {
    let text = "\"a\\nb\\tc\\rd\\u0001\"";
    let parsed = parse_json(text).unwrap();
    assert!(matches!(&parsed, JsonValue::Str(s) if s == "a\nb\tc\rd\u{1}"));
    assert_eq!(write_json(&parsed), text);
}

#[test]
fn parser_rejects_malformed_texts() {
    assert!(parse_json("").is_err());
    assert!(parse_json("{").is_err());
    assert!(parse_json("[1,]").is_err());
    assert!(parse_json("01").is_err());
    assert!(parse_json("-0").is_err());
    assert!(parse_json("\"ab").is_err());
    assert!(parse_json("\"a\nb\"").is_err());
    assert!(parse_json("\"\\u0041\"").is_err());
    assert!(parse_json("\"\\u000a\"").is_err());
    assert!(parse_json("nil").is_err());
    assert!(parse_json("{}x").is_err());
    assert!(parse_json("9223372036854775808").is_err());
    assert!(parse_json("-9223372036854775808").is_ok());
}
