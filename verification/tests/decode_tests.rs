use prom_client::decode::decode_order_by_id_response;
use prom_client::decode::decode_orders_response;
use prom_client::decode::decode_save_declaration_response;
use prom_client::endpoints::bearer_header_value;
use prom_client::endpoints::get_order_by_id_response;
use prom_client::endpoints::get_orders_response;
use prom_client::endpoints::require_success;
use prom_client::endpoints::save_declaration_id_response;
use prom_client::endpoints::set_order_status_response;
use prom_client::endpoints::validate_api_key;
use prom_client::error::PromError;
use prom_client::json::JsonValue;
use prom_client::status::PromOrderStatus;

/// Turns a parsed serde_json value into the library's own tree.
fn to_tree(v: &serde_json::Value) -> JsonValue {
    match v {
        serde_json::Value::Null => JsonValue::Null,
        serde_json::Value::Bool(b) => JsonValue::Bool(*b),
        serde_json::Value::Number(n) => JsonValue::Int(n.as_i64().unwrap()),
        serde_json::Value::String(s) => JsonValue::Str(s.clone()),
        serde_json::Value::Array(a) => JsonValue::Arr(a.iter().map(to_tree).collect()),
        serde_json::Value::Object(o) => {
            JsonValue::Obj(o.iter().map(|(k, x)| (k.clone(), to_tree(x))).collect())
        }
    }
}

fn parse_tree(text: &str) -> JsonValue {
    to_tree(&serde_json::from_str::<serde_json::Value>(text).unwrap())
}

const ORDER_BODY: &str = r#"{
    "id": 1,
    "date_created": "2023-04-01T10:00:00",
    "client_first_name": "Olha",
    "client_second_name": "I.",
    "client_last_name": "Koval",
    "client_id": 77,
    "client_notes": "",
    "products": [{
        "id": 10,
        "external_id": "SKU-10",
        "image": "https://img.example/10.png",
        "quantity": 2,
        "price": "120.50",
        "url": "https://shop.example/p/10",
        "name": "Mug",
        "total_price": "241.00",
        "measure_unit": "pcs",
        "sku": "MUG-10"
    }],
    "phone": "+380000000000",
    "email": "olha@example.com",
    "price": "241.00",
    "delivery_option": {"id": "4", "name": "Courier"},
    "delivery_provider_data": null,
    "delivery_address": "Kyiv",
    "payment_option": {"id": "9", "name": "Card"},
    "payment_data": null,
    "status": "paid",
    "source": "portal"
}"#;

#[test]
fn mocked_orders_body_decodes_to_one_paid_order() {
    let body = parse_tree(&format!("{{\"odrers\":[{}]}}", ORDER_BODY));
    let resp = decode_orders_response(&body).unwrap();
    assert_eq!(resp.odrers.len(), 1);
    assert_eq!(resp.odrers[0].id, 1);
    assert_eq!(resp.odrers[0].status, PromOrderStatus::paid);
    assert_eq!(resp.odrers[0].products.len(), 1);
    assert_eq!(resp.odrers[0].products[0].total_price, "241.00");
    assert_eq!(resp.odrers[0].delivery_provider_data, None);
    assert_eq!(resp.odrers[0].payment_data, None);
}

#[test]
fn unknown_order_status_fails_decoding() {
    let text = ORDER_BODY.replace("\"paid\"", "\"shipped\"");
    let body = parse_tree(&format!("{{\"odrer\":{}}}", text));
    assert_eq!(decode_order_by_id_response(&body), Err(PromError::Decode));
}

#[test]
fn missing_required_field_fails_decoding() {
    let text = ORDER_BODY.replace("\"email\"", "\"e_mail\"");
    let body = parse_tree(&format!("{{\"odrer\":{}}}", text));
    assert_eq!(decode_order_by_id_response(&body), Err(PromError::Decode));
}

#[test]
fn error_http_status_yields_api_error_not_a_partial_object() {
    let body = parse_tree("{\"error\":\"not found\"}");
    let r = get_order_by_id_response(404, "{\"error\":\"not found\"}".to_string(), &body);
    assert_eq!(
        r,
        Err(PromError::Api {
            status: 404,
            body: "{\"error\":\"not found\"}".to_string(),
        })
    );
}

#[test]
fn success_status_passes_the_status_gate() {
    assert_eq!(require_success(200, String::new()), Ok(()));
    assert_eq!(require_success(299, String::new()), Ok(()));
    assert!(matches!(
        require_success(199, String::new()),
        Err(PromError::Api { status: 199, .. })
    ));
    assert!(matches!(
        require_success(500, String::new()),
        Err(PromError::Api { status: 500, .. })
    ));
}

#[test]
fn set_order_status_scenario_returns_processed_ids() {
    let body = parse_tree("{\"processed_ids\":[1,2]}");
    let r = set_order_status_response(200, String::new(), &body).unwrap();
    assert_eq!(r.processed_ids, vec![1, 2]);
}

#[test]
fn get_orders_scenario_through_the_status_gate() {
    let body = parse_tree(&format!("{{\"odrers\":[{}]}}", ORDER_BODY));
    let r = get_orders_response(200, String::new(), &body).unwrap();
    assert_eq!(r.odrers.len(), 1);
    assert_eq!(r.odrers[0].id, 1);
    assert_eq!(r.odrers[0].status, PromOrderStatus::paid);
}

#[test]
fn repeated_decoding_of_one_body_is_structurally_identical() {
    let body = parse_tree(&format!("{{\"odrer\":{}}}", ORDER_BODY));
    let first = decode_order_by_id_response(&body).unwrap();
    let second = decode_order_by_id_response(&body).unwrap();
    assert_eq!(first, second);
}

#[test]
fn missing_credential_fails_construction() {
    assert_eq!(validate_api_key(None), Err(PromError::Configuration));
}

#[test]
fn malformed_credential_fails_construction() {
    assert_eq!(
        validate_api_key(Some(String::new())),
        Err(PromError::Configuration)
    );
    assert_eq!(
        validate_api_key(Some("a key".to_string())),
        Err(PromError::Configuration)
    );
    assert_eq!(
        validate_api_key(Some("kl\u{444}".to_string())),
        Err(PromError::Configuration)
    );
}

#[test]
fn valid_credential_builds_the_bearer_header() {
    let key = validate_api_key(Some("token-123".to_string())).unwrap();
    assert_eq!(bearer_header_value(&key), "Bearer token-123".to_string());
}

#[test]
fn save_declaration_scenario_returns_the_updated_order() {
    let body = parse_tree(&format!("{{\"odrer\":{}}}", ORDER_BODY));
    let r = save_declaration_id_response(200, String::new(), &body).unwrap();
    assert_eq!(r.odrer.id, 1);
    assert_eq!(r.odrer.status, PromOrderStatus::paid);
    assert_eq!(r.odrer.delivery_provider_data, None);
}

#[test]
fn save_declaration_without_an_order_envelope_fails_decoding() {
    let body = parse_tree("{\"status\":\"ok\"}");
    let r = save_declaration_id_response(200, "{\"status\":\"ok\"}".to_string(), &body);
    assert_eq!(r, Err(PromError::Decode));
}

#[test]
fn save_declaration_answer_keeps_absent_fields_absent() {
    let body = parse_tree("{\"status\":\"success\"}");
    let r = decode_save_declaration_response(&body).unwrap();
    assert_eq!(r.status, "success");
    assert_eq!(r.message, None);
    assert_eq!(r.errors, None);
}

#[test]
fn save_declaration_answer_reads_the_error_map() {
    let body = parse_tree(
        "{\"status\":\"error\",\"message\":null,\
         \"errors\":{\"declaration_id\":\"bad checksum\"}}",
    );
    let r = decode_save_declaration_response(&body).unwrap();
    assert_eq!(r.status, "error");
    assert_eq!(r.message, None);
    assert_eq!(
        r.errors,
        Some(vec![(
            "declaration_id".to_string(),
            "bad checksum".to_string()
        )])
    );
}

#[test]
fn integer_outside_i32_range_fails_decoding() {
    let body = parse_tree("{\"processed_ids\":[2147483648]}");
    let r = set_order_status_response(200, String::new(), &body);
    assert_eq!(r, Err(PromError::Decode));
}

#[test]
fn error_kinds_have_short_names() {
    assert_eq!(PromError::Configuration.kind_name(), "configuration");
    assert_eq!(PromError::Transport(String::new()).kind_name(), "transport");
    assert_eq!(
        PromError::Api { status: 500, body: String::new() }.kind_name(),
        "api"
    );
    assert_eq!(PromError::Decode.kind_name(), "decode");
}
