use openai_proxy::auth::{authenticate, bearer_token, subject_of_claims, User};
use openai_proxy::errors::GatewayError;

const SECRET: &str = "test-signing-secret";

/// A timestamp far in the future, so crafted tokens do not expire
/// while the suite runs.
const FAR_FUTURE: u64 = 4102444800;

fn make_token(sub: &str, exp: u64, secret: &str) -> String {
    let mut claims = serde_json::Map::new();
    claims.insert("sub".to_string(), serde_json::Value::String(sub.to_string()));
    claims.insert("exp".to_string(), serde_json::Value::Number(serde_json::Number::from(exp)));
    jsonwebtoken::encode(
        &jsonwebtoken::Header::default(),
        &serde_json::Value::Object(claims),
        &jsonwebtoken::EncodingKey::from_secret(secret.as_bytes()),
    )
    .unwrap()
}

#[test]
fn missing_header_is_missing_credential() {
    let r = authenticate(None, SECRET);
    assert_eq!(r.unwrap_err(), GatewayError::MissingCredential);
}

#[test]
fn non_bearer_header_is_missing_credential() {
    let r = authenticate(Some("Basic dXNlcjpwYXNz"), SECRET);
    assert_eq!(r.unwrap_err(), GatewayError::MissingCredential);
}

#[test]
fn empty_header_is_missing_credential() {
    let r = authenticate(Some(""), SECRET);
    assert_eq!(r.unwrap_err(), GatewayError::MissingCredential);
}

#[test]
fn garbage_token_is_invalid_credential() {
    let r = authenticate(Some("Bearer not.a.token"), SECRET);
    assert_eq!(r.unwrap_err(), GatewayError::InvalidCredential);
}

#[test]
fn valid_token_yields_subject() {
    let token = make_token("alice", FAR_FUTURE, SECRET);
    let header = format!("Bearer {}", token);
    let user = authenticate(Some(&header), SECRET).unwrap();
    assert_eq!(user.sub, "alice");
}

#[test]
fn wrong_secret_is_invalid_credential() {
    let token = make_token("alice", FAR_FUTURE, "another-secret");
    let header = format!("Bearer {}", token);
    let r = authenticate(Some(&header), SECRET);
    assert_eq!(r.unwrap_err(), GatewayError::InvalidCredential);
}

#[test]
fn expired_token_is_invalid_credential() {
    let token = make_token("alice", 1000, SECRET);
    let header = format!("Bearer {}", token);
    let r = authenticate(Some(&header), SECRET);
    assert_eq!(r.unwrap_err(), GatewayError::InvalidCredential);
}

#[test]
fn token_without_subject_is_invalid_credential() {
    let mut claims = serde_json::Map::new();
    claims.insert(
        "exp".to_string(),
        serde_json::Value::Number(serde_json::Number::from(FAR_FUTURE)),
    );
    let token = jsonwebtoken::encode(
        &jsonwebtoken::Header::default(),
        &serde_json::Value::Object(claims),
        &jsonwebtoken::EncodingKey::from_secret(SECRET.as_bytes()),
    )
    .unwrap();
    let header = format!("Bearer {}", token);
    let r = authenticate(Some(&header), SECRET);
    assert_eq!(r.unwrap_err(), GatewayError::InvalidCredential);
}

#[test]
fn bearer_token_splits_scheme_off() {
    assert_eq!(bearer_token("Bearer abc.def"), Some("abc.def"));
    assert_eq!(bearer_token("Bearer "), Some(""));
    assert_eq!(bearer_token("bearer abc"), None);
    assert_eq!(bearer_token("Bearer"), None);
}

#[test]
fn subject_of_claims_maps_both_outcomes() {
    let ok = subject_of_claims(Some("bob".to_string()));
    assert_eq!(ok.unwrap().sub, "bob");
    let err = subject_of_claims(None);
    assert_eq!(err.unwrap_err(), GatewayError::InvalidCredential);
}

#[test]
fn subject_is_cloneable_for_attribution() {
    let user = User { sub: "carol".to_string() };
    let copy = user.clone();
    assert_eq!(copy.sub, "carol");
}
