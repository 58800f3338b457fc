//! How a lookup fails.
use vstd::prelude::*;

verus! {

/// reqwest's error for a request that did not complete, carried to the
/// caller.
#[verifier::external_type_specification]
#[verifier::external_body]
pub struct ExHttpError(reqwest::Error);

/// Why a success-status body did not yield a provider response.
#[derive(Debug)]
pub enum DecodeFailure {
    /// The body is not a JSON document.
    Syntax(serde_json::Error),
    /// A required field is absent, of the wrong kind or out of range; the
    /// field is named by its dotted path, such as `current.temp_c`.
    Field(String),
}

/// The three ways a lookup fails.
#[derive(Debug)]
pub enum WeatherError {
    /// The request never completed: name resolution, connection, TLS or a
    /// timeout. Carries the HTTP client's error.
    Transport(reqwest::Error),
    /// The provider answered with a status outside the success range; the
    /// body is kept as sent.
    Http { status: u16, body: String },
    /// The provider answered with success, but the body is not a response of
    /// the expected shape.
    Decode(DecodeFailure),
}

} // verus!
