//! The gateway's error taxonomy and its mapping onto HTTP statuses.

use vstd::prelude::*;

verus! {

/// Every way a request can be rejected before or while it is relayed.
///
/// `UpstreamError` carries the upstream provider's own message;
/// `UnrecognizedRole` carries the offending role string.
#[derive(Debug, Clone, PartialEq, Eq)]
pub enum GatewayError {
    /// No `Authorization` header, or one that carries no bearer token.
    MissingCredential,
    /// The bearer token is malformed or its signature does not verify.
    InvalidCredential,
    /// The requested model is not in the configured allow-list.
    ModelNotAllowed,
    /// The sliding-window quota for this key is exhausted.
    RateLimitExceeded,
    /// The counter store could not be reached; admission fails closed.
    StoreUnavailable,
    /// The upstream provider call failed; the message is surfaced, not retried.
    UpstreamError(String),
    /// A message carried a role outside the recognized set.
    UnrecognizedRole(String),
}

/// The HTTP status each rejection maps to. Rejections of the credential
/// and of the model both map to 401 (the allow-list rejection is a
/// policy choice between 401 and 403; this gateway answers 401
/// consistently). Admission failures map to 429, upstream failures to
/// 500. An unrecognized role also maps to 500: the boundary that
/// converts the caller's wire shape is meant to reject such a message
/// before the pipeline runs, so reaching this rejection inside the
/// pipeline is a conversion fault of the gateway's own, not a caller
/// error it can still blame.
pub open spec fn spec_http_status(e: GatewayError) -> u16 {
    match e {
        GatewayError::MissingCredential => 401,
        GatewayError::InvalidCredential => 401,
        GatewayError::ModelNotAllowed => 401,
        GatewayError::RateLimitExceeded => 429,
        GatewayError::StoreUnavailable => 429,
        GatewayError::UpstreamError(_) => 500,
        GatewayError::UnrecognizedRole(_) => 500,
    }
}

/// The short machine-readable reason attached to a rejection body.
pub open spec fn spec_reason(e: GatewayError) -> Seq<char> {
    match e {
        GatewayError::MissingCredential => "missing credential"@,
        GatewayError::InvalidCredential => "invalid credential"@,
        GatewayError::ModelNotAllowed => "model not allowed"@,
        GatewayError::RateLimitExceeded => "rate limit exceeded"@,
        GatewayError::StoreUnavailable => "counter store unavailable"@,
        GatewayError::UpstreamError(_) => "upstream error"@,
        GatewayError::UnrecognizedRole(_) => "unrecognized role"@,
    }
}

impl GatewayError {
    /// The HTTP status code this rejection is answered with.
    pub fn http_status(&self) -> (r: u16)
        ensures
            r == spec_http_status(*self),
    {
        match self {
            GatewayError::MissingCredential => 401,
            GatewayError::InvalidCredential => 401,
            GatewayError::ModelNotAllowed => 401,
            GatewayError::RateLimitExceeded => 429,
            GatewayError::StoreUnavailable => 429,
            GatewayError::UpstreamError(_) => 500,
            GatewayError::UnrecognizedRole(_) => 500,
        }
    }

    /// The short machine-readable reason for a rejection body.
    pub fn reason(&self) -> (r: &'static str)
        ensures
            r@ == spec_reason(*self),
    {
        match self {
            GatewayError::MissingCredential => "missing credential",
            GatewayError::InvalidCredential => "invalid credential",
            GatewayError::ModelNotAllowed => "model not allowed",
            GatewayError::RateLimitExceeded => "rate limit exceeded",
            GatewayError::StoreUnavailable => "counter store unavailable",
            GatewayError::UpstreamError(_) => "upstream error",
            GatewayError::UnrecognizedRole(_) => "unrecognized role",
        }
    }
}

} // verus!
