//! Client core for a JSON music-service API: credentials, request building
//! and decoding of the response envelope.
pub mod credentials;
pub mod error;
pub mod json;
pub mod query;
pub mod body;
pub mod envelope;
pub mod call;
