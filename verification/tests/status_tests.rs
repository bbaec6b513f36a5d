use prom_client::status::PromMessageStatus;
use prom_client::status::PromOrderStatus;

#[test]
fn it_works() {
    assert_eq!(2 + 2, 4);
}

#[test]
fn order_status_wire_names_are_lower_case() {
    assert_eq!(PromOrderStatus::pending.wire_name(), "pending");
    assert_eq!(PromOrderStatus::received.wire_name(), "received");
    assert_eq!(PromOrderStatus::delivered.wire_name(), "delivered");
    assert_eq!(PromOrderStatus::canceled.wire_name(), "canceled");
    assert_eq!(PromOrderStatus::draft.wire_name(), "draft");
    assert_eq!(PromOrderStatus::paid.wire_name(), "paid");
}

#[test]
fn order_status_round_trip() {
    let all = [
        PromOrderStatus::pending,
        PromOrderStatus::received,
        PromOrderStatus::delivered,
        PromOrderStatus::canceled,
        PromOrderStatus::draft,
        PromOrderStatus::paid,
    ];
    for s in all {
        assert_eq!(PromOrderStatus::from_wire(s.wire_name()), Some(s));
    }
}

#[test]
fn message_status_round_trip() {
    let all = [
        PromMessageStatus::unread,
        PromMessageStatus::read,
        PromMessageStatus::deleted,
    ];
    for s in all {
        assert_eq!(PromMessageStatus::from_wire(s.wire_name()), Some(s));
    }
}

#[test]
fn unknown_status_strings_fail_decoding() {
    assert_eq!(PromOrderStatus::from_wire("Pending"), None);
    assert_eq!(PromOrderStatus::from_wire("shipped"), None);
    assert_eq!(PromOrderStatus::from_wire(""), None);
    assert_eq!(PromMessageStatus::from_wire("Read"), None);
    assert_eq!(PromMessageStatus::from_wire("archived"), None);
}
