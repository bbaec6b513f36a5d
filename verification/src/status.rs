//! The closed status enumerations and their exact wire strings.
//!
//! Both enums serialize as their lower-case variant names verbatim; a wire
//! string outside the closed set fails decoding rather than defaulting.

use vstd::prelude::*;
use crate::text::str_eq;

verus! {

/// Lifecycle states of an order. The variant names are the wire strings.
#[allow(non_camel_case_types)]
#[derive(Clone, Copy, Debug, PartialEq, Eq, Structural)]
pub enum PromOrderStatus {
    pending,
    received,
    delivered,
    canceled,
    draft,
    paid,
}

/// Lifecycle states of a customer message. The variant names are the wire strings.
#[allow(non_camel_case_types)]
#[derive(Clone, Copy, Debug, PartialEq, Eq, Structural)]
pub enum PromMessageStatus {
    unread,
    read,
    deleted,
}

/// The exact wire string of an order status.
pub open spec fn spec_order_status_name(s: PromOrderStatus) -> Seq<char> {
    match s {
        PromOrderStatus::pending => "pending"@,
        PromOrderStatus::received => "received"@,
        PromOrderStatus::delivered => "delivered"@,
        PromOrderStatus::canceled => "canceled"@,
        PromOrderStatus::draft => "draft"@,
        PromOrderStatus::paid => "paid"@,
    }
}

/// Which order status, if any, a wire string names.
pub open spec fn spec_parse_order_status(s: Seq<char>) -> Option<PromOrderStatus> {
    if s == "pending"@ {
        Some(PromOrderStatus::pending)
    } else if s == "received"@ {
        Some(PromOrderStatus::received)
    } else if s == "delivered"@ {
        Some(PromOrderStatus::delivered)
    } else if s == "canceled"@ {
        Some(PromOrderStatus::canceled)
    } else if s == "draft"@ {
        Some(PromOrderStatus::draft)
    } else if s == "paid"@ {
        Some(PromOrderStatus::paid)
    } else {
        None
    }
}

/// The exact wire string of a message status.
pub open spec fn spec_message_status_name(s: PromMessageStatus) -> Seq<char> {
    match s {
        PromMessageStatus::unread => "unread"@,
        PromMessageStatus::read => "read"@,
        PromMessageStatus::deleted => "deleted"@,
    }
}

/// Which message status, if any, a wire string names.
pub open spec fn spec_parse_message_status(s: Seq<char>) -> Option<PromMessageStatus> {
    if s == "unread"@ {
        Some(PromMessageStatus::unread)
    } else if s == "read"@ {
        Some(PromMessageStatus::read)
    } else if s == "deleted"@ {
        Some(PromMessageStatus::deleted)
    } else {
        None
    }
}

impl PromOrderStatus {
    /// The wire string of this status.
    pub fn wire_name(&self) -> (r: &'static str)
        ensures
            r@ == spec_order_status_name(*self),
    {
        match self {
            PromOrderStatus::pending => "pending",
            PromOrderStatus::received => "received",
            PromOrderStatus::delivered => "delivered",
            PromOrderStatus::canceled => "canceled",
            PromOrderStatus::draft => "draft",
            PromOrderStatus::paid => "paid",
        }
    }

    /// Decodes a wire string; `None` exactly on strings that name no order status.
    pub fn from_wire(s: &str) -> (r: Option<PromOrderStatus>)
        ensures
            r == spec_parse_order_status(s@),
    {
        if str_eq(s, "pending") {
            Some(PromOrderStatus::pending)
        } else if str_eq(s, "received") {
            Some(PromOrderStatus::received)
        } else if str_eq(s, "delivered") {
            Some(PromOrderStatus::delivered)
        } else if str_eq(s, "canceled") {
            Some(PromOrderStatus::canceled)
        } else if str_eq(s, "draft") {
            Some(PromOrderStatus::draft)
        } else if str_eq(s, "paid") {
            Some(PromOrderStatus::paid)
        } else {
            None
        }
    }
}

impl PromMessageStatus {
    /// The wire string of this status.
    pub fn wire_name(&self) -> (r: &'static str)
        ensures
            r@ == spec_message_status_name(*self),
    {
        match self {
            PromMessageStatus::unread => "unread",
            PromMessageStatus::read => "read",
            PromMessageStatus::deleted => "deleted",
        }
    }

    /// Decodes a wire string; `None` exactly on strings that name no message status.
    pub fn from_wire(s: &str) -> (r: Option<PromMessageStatus>)
        ensures
            r == spec_parse_message_status(s@),
    {
        if str_eq(s, "unread") {
            Some(PromMessageStatus::unread)
        } else if str_eq(s, "read") {
            Some(PromMessageStatus::read)
        } else if str_eq(s, "deleted") {
            Some(PromMessageStatus::deleted)
        } else {
            None
        }
    }
}

/// Round trip: decoding the wire string of any order status yields that
/// status back, and the wire strings of distinct statuses are distinct.
pub proof fn lemma_order_status_round_trip(s: PromOrderStatus)
    ensures
        spec_parse_order_status(spec_order_status_name(s)) == Some(s),
{
    broadcast use vstd::string::group_string_axioms;

    reveal_strlit("pending");
    reveal_strlit("received");
    reveal_strlit("delivered");
    reveal_strlit("canceled");
    reveal_strlit("draft");
    reveal_strlit("paid");
    match s {
        PromOrderStatus::pending => {},
        PromOrderStatus::received => {
            assert("received"@.len() == 8);
            assert("pending"@.len() == 7);
            assert("received"@ != "pending"@);
        },
        PromOrderStatus::delivered => {
            assert("delivered"@.len() == 9);
            assert("pending"@.len() == 7);
            assert("delivered"@ != "pending"@);
            assert("delivered"@.len() == 9);
            assert("received"@.len() == 8);
            assert("delivered"@ != "received"@);
        },
        PromOrderStatus::canceled => {
            assert("canceled"@.len() == 8);
            assert("pending"@.len() == 7);
            assert("canceled"@ != "pending"@);
            assert("canceled"@[0] == 'c');
            assert("received"@[0] == 'r');
            assert("canceled"@ != "received"@);
            assert("canceled"@.len() == 8);
            assert("delivered"@.len() == 9);
            assert("canceled"@ != "delivered"@);
        },
        PromOrderStatus::draft => {
            assert("draft"@.len() == 5);
            assert("pending"@.len() == 7);
            assert("draft"@ != "pending"@);
            assert("draft"@.len() == 5);
            assert("received"@.len() == 8);
            assert("draft"@ != "received"@);
            assert("draft"@.len() == 5);
            assert("delivered"@.len() == 9);
            assert("draft"@ != "delivered"@);
            assert("draft"@.len() == 5);
            assert("canceled"@.len() == 8);
            assert("draft"@ != "canceled"@);
        },
        PromOrderStatus::paid => {
            assert("paid"@.len() == 4);
            assert("pending"@.len() == 7);
            assert("paid"@ != "pending"@);
            assert("paid"@.len() == 4);
            assert("received"@.len() == 8);
            assert("paid"@ != "received"@);
            assert("paid"@.len() == 4);
            assert("delivered"@.len() == 9);
            assert("paid"@ != "delivered"@);
            assert("paid"@.len() == 4);
            assert("canceled"@.len() == 8);
            assert("paid"@ != "canceled"@);
            assert("paid"@.len() == 4);
            assert("draft"@.len() == 5);
            assert("paid"@ != "draft"@);
        },
    }
}

/// Round trip: decoding the wire string of any message status yields that
/// status back.
pub proof fn lemma_message_status_round_trip(s: PromMessageStatus)
    ensures
        spec_parse_message_status(spec_message_status_name(s)) == Some(s),
{
    broadcast use vstd::string::group_string_axioms;

    reveal_strlit("unread");
    reveal_strlit("read");
    reveal_strlit("deleted");
    match s {
        PromMessageStatus::unread => {},
        PromMessageStatus::read => {
            assert("read"@.len() == 4);
            assert("unread"@.len() == 6);
            assert("read"@ != "unread"@);
        },
        PromMessageStatus::deleted => {
            assert("deleted"@.len() == 7);
            assert("unread"@.len() == 6);
            assert("deleted"@ != "unread"@);
            assert("deleted"@.len() == 7);
            assert("read"@.len() == 4);
            assert("deleted"@ != "read"@);
        },
    }
}

} // verus!
