use prom_client::decode::decode_client_by_id_response;
use prom_client::decode::decode_client_list_response;
use prom_client::decode::decode_message_by_id_response;
use prom_client::decode::decode_messages_list_response;
use prom_client::decode::decode_refund_response;
use prom_client::decode::decode_reply_response;
use prom_client::error::PromError;
use prom_client::json::JsonValue;

fn to_tree(v: &serde_json::Value) -> JsonValue {
    match v {
        serde_json::Value::Null => JsonValue::Null,
        serde_json::Value::Bool(b) => JsonValue::Bool(*b),
        serde_json::Value::Number(n) => JsonValue::Int(n.as_i64().unwrap()),
        serde_json::Value::String(s) => JsonValue::Str(s.clone()),
        serde_json::Value::Array(a) => JsonValue::Arr(a.iter().map(to_tree).collect()),
        serde_json::Value::Object(o) => {
            JsonValue::Obj(o.iter().map(|(k, x)| (k.clone(), to_tree(x))).collect())
        }
    }
}

fn parse_tree(text: &str) -> JsonValue {
    to_tree(&serde_json::from_str::<serde_json::Value>(text).unwrap())
}

const CLIENT_BODY: &str = r#"{
    "id": 5,
    "name": "Petro Bondar",
    "phones": ["+380000000001", "+380000000002"],
    "emails": [],
    "comment": null,
    "orders_count": 3,
    "total_payout": "1500.00"
}"#;

#[test]
fn client_list_decodes_with_absent_comment() {
    let body = parse_tree(&format!("{{\"clients\":[{}]}}", CLIENT_BODY));
    let r = decode_client_list_response(&body).unwrap();
    assert_eq!(r.clients.len(), 1);
    assert_eq!(r.clients[0].id, 5);
    assert_eq!(r.clients[0].phones.len(), 2);
    assert_eq!(r.clients[0].emails.len(), 0);
    assert_eq!(r.clients[0].comment, None);
    assert_eq!(r.clients[0].total_payout, "1500.00");
}

#[test]
fn client_by_id_keeps_a_present_comment() {
    let text = CLIENT_BODY.replace("null", "\"VIP\"");
    let body = parse_tree(&format!("{{\"client\":{}}}", text));
    let r = decode_client_by_id_response(&body).unwrap();
    assert_eq!(r.client.comment, Some("VIP".to_string()));
}

#[test]
fn client_with_non_string_phone_fails_decoding() {
    let text = CLIENT_BODY.replace("\"+380000000001\"", "380000000001");
    let body = parse_tree(&format!("{{\"client\":{}}}", text));
    assert_eq!(decode_client_by_id_response(&body), Err(PromError::Decode));
}

const MESSAGE_BODY: &str = r#"{
    "id": 21,
    "client_full_name": "Olha Koval",
    "date_created": "2023-04-02T09:30:00",
    "phone": "+380000000000",
    "message": "Is it in stock?",
    "subject": "Mug",
    "status": "unread",
    "product_id": 10
}"#;

#[test]
fn messages_list_decodes_and_keeps_free_form_status() {
    let body = parse_tree(&format!("{{\"messages\":[{}]}}", MESSAGE_BODY));
    let r = decode_messages_list_response(&body).unwrap();
    assert_eq!(r.messages.len(), 1);
    assert_eq!(r.messages[0].id, 21);
    assert_eq!(r.messages[0].status, "unread");
    assert_eq!(r.messages[0].product_id, 10);
}

#[test]
fn message_status_string_is_not_constrained() {
    let text = MESSAGE_BODY.replace("\"unread\"", "\"whatever the remote says\"");
    let body = parse_tree(&format!("{{\"message\":{}}}", text));
    let r = decode_message_by_id_response(&body).unwrap();
    assert_eq!(r.message.status, "whatever the remote says");
}

#[test]
fn refund_answer_decodes_processed_ids() {
    let body = parse_tree("{\"processed_ids\":[3]}");
    let r = decode_refund_response(&body).unwrap();
    assert_eq!(r.processed_ids, vec![3]);
}

#[test]
fn reply_answer_decodes_a_single_processed_id() {
    let body = parse_tree("{\"processed_id\":21}");
    let r = decode_reply_response(&body).unwrap();
    assert_eq!(r.processed_id, 21);
}

#[test]
fn reply_answer_without_the_id_fails_decoding() {
    let body = parse_tree("{}");
    assert_eq!(decode_reply_response(&body), Err(PromError::Decode));
}
