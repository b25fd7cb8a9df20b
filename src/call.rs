use vstd::prelude::*;

use crate::body::{authenticate_body, is_authenticated_body};
use crate::credentials::Credentials;
use crate::envelope::{decode_envelope, envelope_of};
use crate::error::Error;
use crate::json::Json;
use crate::query::{build_url, query_of, url_text_len, url_with_params, MAX_ENDPOINT_LEN, MAX_URL_TEXT_LEN};

verus! {

/// What goes out for one call: the URL to send to and the JSON body.
#[derive(Debug)]
pub struct PreparedRequest {
    pub url: String,
    pub body: Json,
}

/// What the transport brought back for one call.
#[derive(Debug)]
pub enum Reply {
    /// The exchange failed: no connection, a timeout, a broken read.
    Failed(String),
    /// A response came whose body is not JSON.
    Unreadable(String),
    /// A response came whose body is this JSON document.
    Received(Json),
}

/// Builds what goes out for a call of `method` at `endpoint`: the URL with
/// the method and credential parameters, and the body with the credential
/// fields merged. Fails with `MalformedEndpoint` exactly where the endpoint
/// does not parse as a URL.
pub fn prepare_request(endpoint: &str, method: &str, body: Option<Json>, credentials: &Credentials) -> (r:
    Result<PreparedRequest, Error>)
    requires
        endpoint@.len() <= MAX_ENDPOINT_LEN,
        url_text_len(endpoint@, query_of(method@, *credentials)) <= MAX_URL_TEXT_LEN,
    ensures
        match url_with_params(endpoint@, query_of(method@, *credentials)) {
            Some(u) => r is Ok && r->Ok_0.url@ == u && is_authenticated_body(body, *credentials, r->Ok_0.body),
            None => r is Err && r->Err_0 is MalformedEndpoint && r->Err_0->MalformedEndpoint_0@ == endpoint@,
        },
        r is Ok <==> url_with_params(endpoint@, seq![]) is Some,
{
    let body = authenticate_body(body, credentials);
    let url = build_url(endpoint, method, credentials)?;
    Ok(PreparedRequest { url, body })
}

/// The outcome of a call from what the transport brought back: a failed
/// exchange is a `TransportError` and an unreadable body a
/// `SerializationError`, each with its description; a JSON body is read as
/// a response envelope.
pub fn complete_request(reply: Reply) -> (r: Result<Json, Error>)
    ensures
        match reply {
            Reply::Failed(why) => r == Err::<Json, Error>(Error::TransportError(why)),
            Reply::Unreadable(why) => r == Err::<Json, Error>(Error::SerializationError(why)),
            Reply::Received(doc) => match envelope_of(doc) {
                None => r is Err && r->Err_0 is SerializationError,
                Some(Ok(v)) => r == Ok::<Json, Error>(v),
                Some(Err((message, code))) => r == Err::<Json, Error>(Error::ApiFailure { message, code }),
            },
        },
{
    match reply {
        Reply::Failed(why) => Err(Error::TransportError(why)),
        Reply::Unreadable(why) => Err(Error::SerializationError(why)),
        Reply::Received(doc) => decode_envelope(doc),
    }
}

} // verus!
