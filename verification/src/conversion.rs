//! The gateway's request and response shapes, the model allow-list
//! check, and the field-by-field mapping between the gateway's shape
//! and the upstream provider's.
//!
//! The upstream provider's wire types are opaque to this crate, so it
//! models them with its own `Upstream*` twins over plain values; the
//! unverified boundary copies fields between a twin and the provider's
//! type without looking at them. Everything the gateway decides about a
//! request or a response — which roles exist, which models are allowed,
//! that choice order and usage survive the relay — is decided here, on
//! the twins.

use vstd::prelude::*;
use crate::auth::User;
use crate::errors::GatewayError;
use crate::settings::Settings;

verus! {

/// A message author's role.
#[derive(Debug, Clone, Copy, PartialEq, Eq, Structural)]
pub enum Role {
    User,
    Assistant,
    System,
    Function,
}

/// The role a request message may name. Requests may carry the three
/// conversation roles; `function` appears only in upstream responses.
pub open spec fn spec_role_of(s: Seq<char>) -> Option<Role> {
    if s == "user"@ {
        Some(Role::User)
    } else if s == "assistant"@ {
        Some(Role::Assistant)
    } else if s == "system"@ {
        Some(Role::System)
    } else {
        None
    }
}

/// The wire name of a role.
pub open spec fn spec_role_name(r: Role) -> Seq<char> {
    match r {
        Role::User => "user"@,
        Role::Assistant => "assistant"@,
        Role::System => "system"@,
        Role::Function => "function"@,
    }
}

/// Every role a request may carry round-trips through its wire name;
/// the response-only role is exactly the one that does not parse back.
pub proof fn lemma_request_roles_round_trip(r: Role)
    ensures
        r != Role::Function ==> spec_role_of(spec_role_name(r)) == Some(r),
        r == Role::Function ==> spec_role_of(spec_role_name(r)) is None,
{
    reveal_strlit("user");
    reveal_strlit("assistant");
    reveal_strlit("system");
    reveal_strlit("function");
    // The four wire names all have different lengths, so none can be
    // mistaken for another.
    match r {
        Role::User => {
            assert(spec_role_of("user"@) == Some(Role::User));
        },
        Role::Assistant => {
            assert("assistant"@.len() == 9);
            assert(spec_role_of("assistant"@) == Some(Role::Assistant));
        },
        Role::System => {
            assert("system"@.len() == 6);
            assert(spec_role_of("system"@) == Some(Role::System));
        },
        Role::Function => {
            assert("function"@.len() == 8);
            assert(spec_role_of("function"@) is None);
        },
    }
}

/// Parses a request message's role string. An unrecognized role is a
/// typed failure carrying the offending string, never a panic.
pub fn parse_role(s: &str) -> (r: Result<Role, GatewayError>)
    ensures
        match spec_role_of(s@) {
            Some(role) => r == Ok::<Role, GatewayError>(role),
            None => r matches Err(GatewayError::UnrecognizedRole(m)) && m@ == s@,
        },
{
    let owned = s.to_owned();
    if owned == "user".to_owned() {
        Ok(Role::User)
    } else if owned == "assistant".to_owned() {
        Ok(Role::Assistant)
    } else if owned == "system".to_owned() {
        Ok(Role::System)
    } else {
        Err(GatewayError::UnrecognizedRole(owned))
    }
}

/// The wire name of a role, as sent back to the caller.
pub fn role_name(r: Role) -> (s: &'static str)
    ensures
        s@ == spec_role_name(r),
{
    match r {
        Role::User => "user",
        Role::Assistant => "assistant",
        Role::System => "system",
        Role::Function => "function",
    }
}

/// One message of a chat request, as the caller sends it.
#[derive(Debug, Clone)]
pub struct ChatCompletionMessage {
    pub content: String,
    pub role: String,
}

/// A chat request: a model name and the conversation so far, in order.
#[derive(Debug, Clone)]
pub struct ChatCompletionRequest {
    pub messages: Vec<ChatCompletionMessage>,
    pub model: String,
}

/// Whether a model passes the allow-list: an empty list allows every
/// model, a non-empty one exactly its members.
pub open spec fn spec_model_allowed(allowed: Seq<Seq<char>>, model: Seq<char>) -> bool {
    allowed.len() == 0 || exists|i: int| 0 <= i < allowed.len() && allowed[i] == model
}

/// An empty allow-list admits every model.
pub proof fn lemma_empty_allow_list_admits(allowed: Seq<Seq<char>>, model: Seq<char>)
    requires
        allowed.len() == 0,
    ensures
        spec_model_allowed(allowed, model),
{
}

impl ChatCompletionRequest {
    /// Checks the requested model against the configured allow-list:
    /// `ModelNotAllowed` exactly when the list is non-empty and the
    /// model is not in it.
    pub fn validate(&self, settings: &Settings) -> (r: Result<(), GatewayError>)
        ensures
            r is Ok <==> spec_model_allowed(
                settings.allowed_models@.map_values(|m: String| m@),
                self.model@,
            ),
            r is Err ==> r == Err::<(), GatewayError>(GatewayError::ModelNotAllowed),
    {
        let ghost allowed = settings.allowed_models@.map_values(|m: String| m@);
        if settings.allowed_models.is_empty() {
            return Ok(());
        }
        let n = settings.allowed_models.len();
        let mut i: usize = 0;
        while i < n
            invariant
                n == settings.allowed_models@.len(),
                i <= n,
                allowed == settings.allowed_models@.map_values(|m: String| m@),
                forall|j: int| 0 <= j < i ==> allowed[j] != self.model@,
            decreases n - i,
        {
            if settings.allowed_models[i] == self.model {
                assert(allowed[i as int] == self.model@);
                return Ok(());
            }
            assert(allowed[i as int] == settings.allowed_models@[i as int]@);
            i = i + 1;
        }
        Err(GatewayError::ModelNotAllowed)
    }
}

/// One message of the outbound upstream request.
#[derive(Debug, Clone)]
pub struct UpstreamMessage {
    pub role: Role,
    pub content: String,
}

/// The outbound upstream request: the validated model, the conversation
/// in its original order, and the subject the call is attributed to.
#[derive(Debug, Clone)]
pub struct UpstreamRequest {
    pub model: String,
    pub messages: Vec<UpstreamMessage>,
    pub user: Option<String>,
}

/// Whether an outbound message is the faithful image of a request
/// message: same content, and the parsed form of its role.
pub open spec fn spec_message_converted(um: UpstreamMessage, m: ChatCompletionMessage) -> bool {
    &&& um.content == m.content
    &&& spec_role_of(m.role@) == Some(um.role)
}

impl ChatCompletionRequest {
    /// Converts the request into the upstream shape, message for
    /// message and in order, with no subject attributed yet. Fails with
    /// `UnrecognizedRole` — carrying the offending string — exactly
    /// when some message's role is outside the recognized set.
    pub fn to_upstream(&self) -> (r: Result<UpstreamRequest, GatewayError>)
        ensures
            r is Ok <==> (forall|i: int|
                0 <= i < self.messages@.len() ==> spec_role_of(self.messages@[i].role@) is Some),
            r matches Ok(u) ==> {
                &&& u.model == self.model
                &&& u.user is None
                &&& u.messages@.len() == self.messages@.len()
                &&& forall|i: int|
                    0 <= i < self.messages@.len() ==> spec_message_converted(
                        u.messages@[i],
                        self.messages@[i],
                    )
            },
            r matches Err(e) ==> e matches GatewayError::UnrecognizedRole(m) && (exists|i: int|
                0 <= i < self.messages@.len() && m@ == self.messages@[i].role@ && spec_role_of(
                    self.messages@[i].role@,
                ) is None),
    {
        let n = self.messages.len();
        let mut messages: Vec<UpstreamMessage> = Vec::new();
        let mut i: usize = 0;
        while i < n
            invariant
                n == self.messages@.len(),
                i <= n,
                messages@.len() == i,
                forall|j: int|
                    0 <= j < i ==> spec_message_converted(messages@[j], self.messages@[j]),
            decreases n - i,
        {
            let m = &self.messages[i];
            match parse_role(m.role.as_str()) {
                Ok(role) => {
                    messages.push(UpstreamMessage { role, content: m.content.clone() });
                },
                Err(e) => {
                    proof {
                        assert(spec_role_of(self.messages@[i as int].role@) is None);
                    }
                    return Err(e);
                },
            }
            i = i + 1;
        }
        proof {
            assert forall|k: int|
                0 <= k < self.messages@.len() implies spec_role_of(
                self.messages@[k].role@,
            ) is Some by {
                assert(spec_message_converted(messages@[k], self.messages@[k]));
            }
        }
        Ok(UpstreamRequest { model: self.model.clone(), messages, user: None })
    }
}

impl UpstreamRequest {
    /// Stamps the authenticated subject onto the request's
    /// user-attribution field, for upstream abuse tracking. A pure
    /// transformation: everything else is unchanged.
    pub fn attribute(self, user: &User) -> (r: Self)
        ensures
            r.user == Some(user.sub),
            r.model == self.model,
            r.messages == self.messages,
    {
        UpstreamRequest { user: Some(user.sub.clone()), ..self }
    }
}

/// Token accounting, as the upstream provider reports it.
#[derive(Debug, Clone)]
pub struct ChatCompletionUsage {
    pub prompt_tokens: u32,
    pub completion_tokens: u32,
    pub total_tokens: u32,
}

/// The message inside one choice of the gateway's response.
#[derive(Debug, Clone)]
pub struct ChatCompletionChoiceMessage {
    pub content: Option<String>,
    pub role: String,
}

/// One choice of the gateway's response. The index orders choices on
/// the client side; the gateway never recomputes it.
#[derive(Debug, Clone)]
pub struct ChatCompletionChoice {
    pub index: u32,
    pub finish_reason: Option<String>,
    pub message: ChatCompletionChoiceMessage,
}

/// The gateway's response to a non-streaming chat completion.
#[derive(Debug, Clone)]
pub struct ChatCompletion {
    pub id: String,
    pub object: String,
    pub created: u32,
    pub model: String,
    pub usage: Option<ChatCompletionUsage>,
    pub choices: Vec<ChatCompletionChoice>,
}

/// Token accounting, as the upstream provider's client reports it.
#[derive(Debug, Clone)]
pub struct UpstreamUsage {
    pub prompt_tokens: u32,
    pub completion_tokens: u32,
    pub total_tokens: u32,
}

/// The message inside one upstream choice.
#[derive(Debug, Clone)]
pub struct UpstreamChoiceMessage {
    pub content: Option<String>,
    pub role: Role,
}

/// One choice of the upstream response.
#[derive(Debug, Clone)]
pub struct UpstreamChoice {
    pub index: u32,
    pub finish_reason: Option<String>,
    pub message: UpstreamChoiceMessage,
}

/// The upstream provider's non-streaming response.
#[derive(Debug, Clone)]
pub struct UpstreamResponse {
    pub id: String,
    pub object: String,
    pub created: u32,
    pub model: String,
    pub choices: Vec<UpstreamChoice>,
    pub usage: Option<UpstreamUsage>,
}

/// Whether usage came through unchanged in every field.
pub open spec fn spec_usage_converted(
    ru: Option<ChatCompletionUsage>,
    uu: Option<UpstreamUsage>,
) -> bool {
    match (ru, uu) {
        (Some(a), Some(b)) => a.prompt_tokens == b.prompt_tokens && a.completion_tokens
            == b.completion_tokens && a.total_tokens == b.total_tokens,
        (None, None) => true,
        _ => false,
    }
}

/// Whether a response choice is the faithful image of an upstream
/// choice: index, finish reason and content unchanged, the role by its
/// wire name.
pub open spec fn spec_choice_converted(rc: ChatCompletionChoice, uc: UpstreamChoice) -> bool {
    &&& rc.index == uc.index
    &&& rc.finish_reason == uc.finish_reason
    &&& rc.message.content == uc.message.content
    &&& rc.message.role@ == spec_role_name(uc.message.role)
}

/// Whether a gateway response is the faithful image of an upstream
/// response: every scalar field unchanged, usage unchanged, and the
/// choices mapped one for one in their original order.
pub open spec fn spec_completion_converted(rc: ChatCompletion, uc: UpstreamResponse) -> bool {
    &&& rc.id == uc.id
    &&& rc.object == uc.object
    &&& rc.created == uc.created
    &&& rc.model == uc.model
    &&& spec_usage_converted(rc.usage, uc.usage)
    &&& rc.choices@.len() == uc.choices@.len()
    &&& forall|i: int|
        0 <= i < uc.choices@.len() ==> spec_choice_converted(rc.choices@[i], uc.choices@[i])
}

impl ChatCompletionChoice {
    /// Maps one upstream choice into the gateway's shape.
    pub fn from_upstream(choice: UpstreamChoice) -> (r: Self)
        ensures
            spec_choice_converted(r, choice),
    {
        ChatCompletionChoice {
            index: choice.index,
            finish_reason: choice.finish_reason,
            message: ChatCompletionChoiceMessage {
                content: choice.message.content,
                role: role_name(choice.message.role).to_owned(),
            },
        }
    }
}

impl ChatCompletion {
    /// Maps the upstream response into the gateway's shape, preserving
    /// choice order and every usage field.
    pub fn from_upstream(completion: UpstreamResponse) -> (r: Self)
        ensures
            spec_completion_converted(r, completion),
    {
        let usage = match completion.usage {
            Some(u) => Some(
                ChatCompletionUsage {
                    prompt_tokens: u.prompt_tokens,
                    completion_tokens: u.completion_tokens,
                    total_tokens: u.total_tokens,
                },
            ),
            None => None,
        };
        let mut choices: Vec<ChatCompletionChoice> = Vec::new();
        let n = completion.choices.len();
        let ghost upstream_choices = completion.choices@;
        let mut upstream = completion.choices;
        let mut i: usize = 0;
        while i < n
            invariant
                n == upstream_choices.len(),
                i <= n,
                upstream@ == upstream_choices.subrange(i as int, n as int),
                choices@.len() == i,
                forall|j: int|
                    0 <= j < i ==> spec_choice_converted(choices@[j], upstream_choices[j]),
            decreases n - i,
        {
            proof {
                assert(upstream@[0] == upstream_choices[i as int]);
            }
            let c = upstream.remove(0);
            choices.push(ChatCompletionChoice::from_upstream(c));
            proof {
                assert(upstream@ =~= upstream_choices.subrange(i as int + 1, n as int));
            }
            i = i + 1;
        }
        ChatCompletion {
            id: completion.id,
            object: completion.object,
            created: completion.created,
            model: completion.model,
            usage,
            choices,
        }
    }
}

} // verus!
