//! A typed client binding for the Prom marketplace REST API.
//!
//! The verified core is the wire contract: the JSON shapes of every request
//! and response body, the closed status enumerations with their exact
//! lower-case wire names, the defaulting of omitted query parameters, and
//! the decoding of response trees into typed records. The HTTP transport
//! itself is left to the calling application.

pub mod decode;
pub mod endpoints;
pub mod error;
pub mod json;
pub mod laws;
pub mod parse;
pub mod requests;
pub mod status;
pub mod text;
pub mod types;

pub use status::PromOrderStatus;
pub use status::PromMessageStatus;
