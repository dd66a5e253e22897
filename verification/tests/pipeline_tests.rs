use openai_proxy::auth::{authenticate, User};
use openai_proxy::errors::GatewayError;
use openai_proxy::pipeline::{
    apply_admission, apply_auth, apply_relay, apply_validation, next_action, PipelineAction,
    PipelineState,
};
use openai_proxy::settings::Settings;

fn user(sub: &str) -> User {
    User { sub: sub.to_string() }
}

#[test]
fn missing_credential_responds_401_without_later_gates() {
    // A request with no bearer credential fails the first gate...
    let outcome = authenticate(None, "test-hs256-secret");
    let state = apply_auth(PipelineState::Unauthenticated, outcome);
    assert!(matches!(
        state,
        PipelineState::Rejected { error: GatewayError::MissingCredential }
    ));
    // ...and the pipeline's one next action is the 401 response: no
    // admission check, no upstream call.
    let action = next_action(&state);
    assert_eq!(action, PipelineAction::Respond { status: 401 });
    assert_ne!(action, PipelineAction::CheckAdmission);
    assert_ne!(action, PipelineAction::Relay { stream: false });
    assert_ne!(action, PipelineAction::Relay { stream: true });
}

#[test]
fn happy_path_walks_every_gate_in_order() {
    let state = PipelineState::Unauthenticated;
    assert_eq!(next_action(&state), PipelineAction::Authenticate);

    let state = apply_auth(state, Ok(user("alice")));
    assert!(matches!(&state, PipelineState::Authenticated { user } if user.sub == "alice"));
    assert_eq!(next_action(&state), PipelineAction::CheckAdmission);

    let state = apply_admission(state, Some(Ok(3)));
    assert!(matches!(&state, PipelineState::Admitted { user } if user.sub == "alice"));
    assert_eq!(next_action(&state), PipelineAction::Validate);

    let state = apply_validation(state, Ok(()), true);
    assert!(matches!(&state, PipelineState::Validated { user, stream: true } if user.sub == "alice"));
    assert_eq!(next_action(&state), PipelineAction::Relay { stream: true });

    let state = apply_relay(state, Ok(()));
    assert!(matches!(state, PipelineState::Relayed));
    assert_eq!(next_action(&state), PipelineAction::Respond { status: 200 });
}

#[test]
fn disabled_rate_limiting_passes_the_admission_gate() {
    let state = apply_auth(PipelineState::Unauthenticated, Ok(user("bob")));
    let state = apply_admission(state, None);
    assert!(matches!(&state, PipelineState::Admitted { user } if user.sub == "bob"));
}

#[test]
fn exceeded_quota_responds_429() {
    let state = apply_auth(PipelineState::Unauthenticated, Ok(user("bob")));
    let state = apply_admission(state, Some(Err(GatewayError::RateLimitExceeded)));
    assert_eq!(next_action(&state), PipelineAction::Respond { status: 429 });
}

#[test]
fn unreachable_store_fails_closed() {
    let state = apply_auth(PipelineState::Unauthenticated, Ok(user("bob")));
    let state = apply_admission(state, Some(Err(GatewayError::StoreUnavailable)));
    assert!(matches!(
        &state,
        PipelineState::Rejected { error: GatewayError::StoreUnavailable }
    ));
    assert_eq!(next_action(&state), PipelineAction::Respond { status: 429 });
}

#[test]
fn disallowed_model_responds_401() {
    let state = apply_auth(PipelineState::Unauthenticated, Ok(user("bob")));
    let state = apply_admission(state, None);
    let state = apply_validation(state, Err(GatewayError::ModelNotAllowed), false);
    assert_eq!(next_action(&state), PipelineAction::Respond { status: 401 });
}

#[test]
fn upstream_failure_responds_500() {
    let state = apply_auth(PipelineState::Unauthenticated, Ok(user("bob")));
    let state = apply_admission(state, None);
    let state = apply_validation(state, Ok(()), false);
    assert_eq!(next_action(&state), PipelineAction::Relay { stream: false });
    let state = apply_relay(state, Err(GatewayError::UpstreamError("boom".to_string())));
    assert_eq!(next_action(&state), PipelineAction::Respond { status: 500 });
}

#[test]
fn every_error_maps_to_its_status_and_reason() {
    let cases = vec![
        (GatewayError::MissingCredential, 401, "missing credential"),
        (GatewayError::InvalidCredential, 401, "invalid credential"),
        (GatewayError::ModelNotAllowed, 401, "model not allowed"),
        (GatewayError::RateLimitExceeded, 429, "rate limit exceeded"),
        (GatewayError::StoreUnavailable, 429, "counter store unavailable"),
        (GatewayError::UpstreamError("x".to_string()), 500, "upstream error"),
        (GatewayError::UnrecognizedRole("tool".to_string()), 500, "unrecognized role"),
    ];
    for (error, status, reason) in cases {
        assert_eq!(error.http_status(), status);
        assert_eq!(error.reason(), reason);
    }
}

#[test]
fn bind_addr_and_defaults_are_exact() {
    let settings = Settings {
        port: 8080,
        public_url: Settings::default_public_url(),
        cors_host: Settings::default_cors_host(),
        openai_api_key: "test-api-key".to_string(),
        allowed_models: vec![],
        openai_org_id: None,
        hs256_secret: "test-hs256-secret".to_string(),
        rate_limit: None,
    };
    assert_eq!(settings.bind_addr(), "0.0.0.0:8080");
    assert_eq!(Settings::default_port(), 4000);
    assert_eq!(Settings::default_public_url(), "http://localhost:4000");
    assert_eq!(Settings::default_cors_host(), "http://localhost:3000");
}
