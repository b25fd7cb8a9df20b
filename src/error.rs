use vstd::prelude::*;

verus! {

/// Why a call failed.
#[derive(Debug, PartialEq, Eq)]
pub enum Error {
    /// The transport could not complete the exchange.
    TransportError(String),
    /// A body could not be encoded to or decoded from JSON, or the response
    /// envelope does not have the expected shape.
    SerializationError(String),
    /// The service answered with a failure status.
    ApiFailure { message: String, code: i64 },
    /// The endpoint does not parse as a URL; it holds the endpoint text.
    MalformedEndpoint(String),
}

} // verus!
