//! Bearer-credential authentication.
//!
//! Given the raw `Authorization` header value, produce the request's
//! subject or fail: `MissingCredential` when there is no header or it
//! carries no bearer token, `InvalidCredential` when the token is
//! malformed or its signature or registered claims do not verify
//! against the shared secret. Nothing here mutates shared state, so any
//! number of in-flight requests may authenticate concurrently.

use vstd::prelude::*;
use crate::errors::GatewayError;

verus! {

/// The authenticated subject, as carried in the token's subject claim.
/// Its identifier is forwarded upstream for abuse attribution and keys
/// the rate limiter.
#[derive(Debug, Clone)]
pub struct User {
    /// The subject identifier parsed from the credential.
    pub sub: String,
}

/// Whether a header value carries a bearer token: the scheme prefix
/// followed by anything, even the empty token (scheme alone is a bearer
/// shape; the token then fails verification, not the scheme check).
pub open spec fn spec_has_bearer(header: Seq<char>) -> bool {
    header.len() >= 7 && header.subrange(0, 7) == "Bearer "@
}

/// The token carried after the bearer scheme prefix.
pub open spec fn spec_bearer_token(header: Seq<char>) -> Seq<char> {
    header.subrange(7, header.len() as int)
}

/// Splits the bearer token out of a header value, or nothing when the
/// value does not carry one.
pub fn bearer_token(header: &str) -> (r: Option<&str>)
    ensures
        match r {
            Some(t) => spec_has_bearer(header@) && t@ == spec_bearer_token(header@),
            None => !spec_has_bearer(header@),
        },
{
    let len = header.unicode_len();
    if len < 7 {
        return None;
    }
    let prefix = header.substring_char(0, 7);
    if prefix.to_owned() == "Bearer ".to_owned() {
        Some(header.substring_char(7, len))
    } else {
        None
    }
}

/// Relies on `jsonwebtoken::decode` with the HS256 algorithm: it
/// verifies the token's signature against the shared secret and its
/// registered claims (`exp` is required, with no expiry grace period
/// beyond what the token encodes) against the wall clock, and yields
/// the decoded claims on success; this returns the `sub` claim among
/// them, when it is a string. The outcome depends on the clock, so no
/// clause ties it to the arguments; an empty token is always malformed.
#[verifier::external_body]
fn decode_subject(token: &str, secret: &str) -> (r: Option<String>)
    ensures
        r is Some ==> token@.len() > 0,
{
    let key = jsonwebtoken::DecodingKey::from_secret(secret.as_bytes());
    let mut validation = jsonwebtoken::Validation::new(jsonwebtoken::Algorithm::HS256);
    validation.leeway = 0;
    match jsonwebtoken::decode::<serde_json::Value>(token, &key, &validation) {
        Ok(data) => match data.claims.get("sub") {
            Some(value) => value.as_str().map(|s| s.to_owned()),
            None => None,
        },
        Err(_) => None,
    }
}

/// What authentication returns for each outcome of credential
/// decoding: the subject the token yielded, or `InvalidCredential`.
pub fn subject_of_claims(claims: Option<String>) -> (r: Result<User, GatewayError>)
    ensures
        match claims {
            Some(s) => r == Ok::<User, GatewayError>((User { sub: s })),
            None => r == Err::<User, GatewayError>(GatewayError::InvalidCredential),
        },
{
    match claims {
        Some(s) => Ok(User { sub: s }),
        None => Err(GatewayError::InvalidCredential),
    }
}

/// Authenticates the raw `Authorization` header value against the
/// shared secret. Fails with `MissingCredential` exactly when there is
/// no header or no bearer token in it; a present bearer token yields
/// either its subject or `InvalidCredential`, as the signature and
/// claims verify or not.
pub fn authenticate(header: Option<&str>, secret: &str) -> (r: Result<User, GatewayError>)
    ensures
        match header {
            None => r == Err::<User, GatewayError>(GatewayError::MissingCredential),
            Some(h) => {
                &&& (r == Err::<User, GatewayError>(GatewayError::MissingCredential))
                    <==> !spec_has_bearer(h@)
                &&& spec_has_bearer(h@) ==> (r is Ok || r == Err::<User, GatewayError>(
                    GatewayError::InvalidCredential,
                ))
            },
        },
{
    let h = match header {
        Some(h) => h,
        None => {
            return Err(GatewayError::MissingCredential);
        },
    };
    let token = match bearer_token(h) {
        Some(t) => t,
        None => {
            return Err(GatewayError::MissingCredential);
        },
    };
    subject_of_claims(decode_subject(token, secret))
}

} // verus!
