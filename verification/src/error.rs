//! The error taxonomy of the client.
//!
//! Construction-time credential failure is `Configuration`; per-call
//! failures are `Transport` (the connection itself), `Api` (a non-success
//! HTTP status, with the status and the raw body), and `Decode` (a response
//! body outside the expected schema, unknown status strings included).

use vstd::prelude::*;

verus! {

/// Everything a client operation can fail with.
#[derive(Debug, Clone, PartialEq)]
pub enum PromError {
    /// The credential was missing or malformed at construction.
    Configuration,
    /// The connection failed; carries the transport's own message.
    Transport(String),
    /// The remote answered with a non-success HTTP status.
    Api { status: u16, body: String },
    /// The response body does not match the expected schema.
    Decode,
}

impl PromError {
    /// A short name of the error's kind, for display by callers.
    pub fn kind_name(&self) -> (r: &'static str)
        ensures
            (*self matches PromError::Configuration) ==> r@ == "configuration"@,
            (*self matches PromError::Transport(_)) ==> r@ == "transport"@,
            (*self matches PromError::Api { .. }) ==> r@ == "api"@,
            (*self matches PromError::Decode) ==> r@ == "decode"@,
    {
        match self {
            PromError::Configuration => "configuration",
            PromError::Transport(_) => "transport",
            PromError::Api { .. } => "api",
            PromError::Decode => "decode",
        }
    }
}

} // verus!
