//! The request pipeline: Authenticate → Rate-limit → Validate → Relay,
//! short-circuiting on the first failure.
//!
//! A request's progress is a [`PipelineState`]; every gate's outcome is
//! applied by one transition function, and [`next_action`] tells the
//! server the one thing to do for a request in a given state. The
//! server loop (unverified, it owns the sockets) performs the action
//! and feeds the outcome back. There is no backward transition, and a
//! rejected request's only next action is its response: no later gate
//! runs once an earlier one fails.

use vstd::prelude::*;
use crate::auth::User;
use crate::errors::{spec_http_status, GatewayError};

verus! {

/// Where one request stands, each state a gate it has passed — or the
/// terminal rejection.
#[derive(Debug, Clone)]
pub enum PipelineState {
    /// No gate passed yet.
    Unauthenticated,
    /// The credential verified to this subject.
    Authenticated { user: User },
    /// The rate limiter admitted the request, or was disabled.
    Admitted { user: User },
    /// The model passed the allow-list; the request relays as the
    /// caller's streaming flag asks.
    Validated { user: User, stream: bool },
    /// The upstream response went out.
    Relayed,
    /// A gate failed; processing stopped there.
    Rejected { error: GatewayError },
}

/// The one thing the server must do next for a request.
#[derive(Debug, Clone, PartialEq, Eq, Structural)]
pub enum PipelineAction {
    /// Verify the credential.
    Authenticate,
    /// Run the admission check against the counter store.
    CheckAdmission,
    /// Check the model against the allow-list.
    Validate,
    /// Call the upstream provider and relay its response.
    Relay { stream: bool },
    /// Emit the response with this status and stop.
    Respond { status: u16 },
}

/// The authentication gate's transition.
pub open spec fn spec_apply_auth(outcome: Result<User, GatewayError>) -> PipelineState {
    match outcome {
        Ok(user) => PipelineState::Authenticated { user },
        Err(e) => PipelineState::Rejected { error: e },
    }
}

/// The admission transition. No outcome means rate limiting is
/// turned off: every request goes through.
pub open spec fn spec_apply_admission(
    user: User,
    outcome: Option<Result<usize, GatewayError>>,
) -> PipelineState {
    match outcome {
        None => PipelineState::Admitted { user },
        Some(Ok(_)) => PipelineState::Admitted { user },
        Some(Err(e)) => PipelineState::Rejected { error: e },
    }
}

/// The validation gate's transition.
pub open spec fn spec_apply_validation(
    user: User,
    outcome: Result<(), GatewayError>,
    stream: bool,
) -> PipelineState {
    match outcome {
        Ok(_) => PipelineState::Validated { user, stream },
        Err(e) => PipelineState::Rejected { error: e },
    }
}

/// The relay gate's transition (non-streaming; a streaming relay that
/// has begun cannot fail into a rejection any more).
pub open spec fn spec_apply_relay(outcome: Result<(), GatewayError>) -> PipelineState {
    match outcome {
        Ok(_) => PipelineState::Relayed,
        Err(e) => PipelineState::Rejected { error: e },
    }
}

/// What the server must do next for a request in this state.
pub open spec fn spec_next_action(state: PipelineState) -> PipelineAction {
    match state {
        PipelineState::Unauthenticated => PipelineAction::Authenticate,
        PipelineState::Authenticated { .. } => PipelineAction::CheckAdmission,
        PipelineState::Admitted { .. } => PipelineAction::Validate,
        PipelineState::Validated { user: _, stream } => PipelineAction::Relay { stream },
        PipelineState::Relayed => PipelineAction::Respond { status: 200 },
        PipelineState::Rejected { error } => PipelineAction::Respond {
            status: spec_http_status(error),
        },
    }
}

/// Applies the authentication gate's outcome.
pub fn apply_auth(state: PipelineState, outcome: Result<User, GatewayError>) -> (r: PipelineState)
    requires
        state is Unauthenticated,
    ensures
        r == spec_apply_auth(outcome),
{
    match outcome {
        Ok(user) => PipelineState::Authenticated { user },
        Err(e) => PipelineState::Rejected { error: e },
    }
}

/// Applies the admission gate's outcome; with rate limiting
/// disabled the request passes through unchecked.
pub fn apply_admission(state: PipelineState, outcome: Option<Result<usize, GatewayError>>) -> (r:
    PipelineState)
    requires
        state is Authenticated,
    ensures
        r == spec_apply_admission(state->Authenticated_user, outcome),
{
    let user = match state {
        PipelineState::Authenticated { user } => user,
        _ => {
            return PipelineState::Rejected { error: GatewayError::MissingCredential };
        },
    };
    match outcome {
        None => PipelineState::Admitted { user },
        Some(Ok(_)) => PipelineState::Admitted { user },
        Some(Err(e)) => PipelineState::Rejected { error: e },
    }
}

/// Applies the validation gate's outcome, with the caller's streaming
/// flag for the relay to come.
pub fn apply_validation(
    state: PipelineState,
    outcome: Result<(), GatewayError>,
    stream: bool,
) -> (r: PipelineState)
    requires
        state is Admitted,
    ensures
        r == spec_apply_validation(state->Admitted_user, outcome, stream),
{
    let user = match state {
        PipelineState::Admitted { user } => user,
        _ => {
            return PipelineState::Rejected { error: GatewayError::MissingCredential };
        },
    };
    match outcome {
        Ok(_) => PipelineState::Validated { user, stream },
        Err(e) => PipelineState::Rejected { error: e },
    }
}

/// Applies the relay gate's outcome.
pub fn apply_relay(state: PipelineState, outcome: Result<(), GatewayError>) -> (r: PipelineState)
    requires
        state is Validated,
    ensures
        r == spec_apply_relay(outcome),
{
    match outcome {
        Ok(_) => PipelineState::Relayed,
        Err(e) => PipelineState::Rejected { error: e },
    }
}

/// The next thing the server must do for a request in this state.
pub fn next_action(state: &PipelineState) -> (r: PipelineAction)
    ensures
        r == spec_next_action(*state),
{
    match state {
        PipelineState::Unauthenticated => PipelineAction::Authenticate,
        PipelineState::Authenticated { .. } => PipelineAction::CheckAdmission,
        PipelineState::Admitted { .. } => PipelineAction::Validate,
        PipelineState::Validated { user: _, stream } => PipelineAction::Relay { stream: *stream },
        PipelineState::Relayed => PipelineAction::Respond { status: 200 },
        PipelineState::Rejected { error } => PipelineAction::Respond {
            status: error.http_status(),
        },
    }
}

/// A request lacking a bearer credential — authentication fails with
/// `MissingCredential` — is rejected with status 401, and the
/// pipeline's one next action is to respond: no admission check and no
/// upstream call follows.
pub proof fn lemma_missing_credential_short_circuits(outcome: Result<User, GatewayError>)
    requires
        outcome == Err::<User, GatewayError>(GatewayError::MissingCredential),
    ensures
        spec_apply_auth(outcome) == (PipelineState::Rejected {
            error: GatewayError::MissingCredential,
        }),
        spec_next_action(spec_apply_auth(outcome)) == (PipelineAction::Respond { status: 401 }),
        spec_next_action(spec_apply_auth(outcome)) != PipelineAction::CheckAdmission,
        forall|s: bool|
            spec_next_action(spec_apply_auth(outcome)) != (PipelineAction::Relay { stream: s }),
{
}

/// The pipeline moves strictly forward: every gate yields either the
/// next stage or the terminal rejection, and a rejected request's only
/// next action is its response, with the status its error maps to.
pub proof fn lemma_pipeline_strict_order(
    user: User,
    auth: Result<User, GatewayError>,
    admission: Option<Result<usize, GatewayError>>,
    validation: Result<(), GatewayError>,
    relay: Result<(), GatewayError>,
    stream: bool,
)
    ensures
        spec_apply_auth(auth) is Authenticated || spec_apply_auth(auth) is Rejected,
        spec_apply_admission(user, admission) is Admitted || spec_apply_admission(
            user,
            admission,
        ) is Rejected,
        spec_apply_validation(user, validation, stream) is Validated || spec_apply_validation(
            user,
            validation,
            stream,
        ) is Rejected,
        spec_apply_relay(relay) is Relayed || spec_apply_relay(relay) is Rejected,
        forall|e: GatewayError|
            spec_next_action(PipelineState::Rejected { error: e }) == (PipelineAction::Respond {
                status: spec_http_status(e),
            }),
{
}

} // verus!
