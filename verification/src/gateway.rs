//! One request's way through the gateway, as a state machine.
//!
//! `Draining` reads the body to its end, `Resolving` waits for the key
//! set, `Finished` is the end.  The caller performs each [`Action`] and
//! reports what happened as the next [`Event`].

use vstd::prelude::*;
use crate::body::{chunk_view, BodyBuffer, BufferedBody};
use crate::claims::{Claims, ClaimsView};
use crate::discovery::{issuer_url, KeycloakClientConfig};
use crate::extractor::RequestHead;
use crate::interceptor::{credential, is_protected_path, preflight, protected};
use crate::rejection::Rejection;
use crate::signature::SigningAlgorithm;
use crate::validator::{
    check_password,
    fetched_view,
    outcome_view,
    validated,
    PolicyView,
    ValidationPolicy,
};

verus! {

/// The process-wide configuration that the gateway is started with.
#[derive(Debug, PartialEq, Eq)]
pub struct GatewayConfig {
    /// The provider's signing-keys URL, as discovery resolved it.  A
    /// gateway without one fails closed.
    pub signing_keys_url: Option<String>,
    /// What is demanded of a token.
    pub policy: ValidationPolicy,
}

impl GatewayConfig {
    /// The configuration out of what the process was started with.  With
    /// the provider's coordinates the policy asks for tokens of that
    /// realm's issuer, and the signing-keys URL is kept as given.  Without
    /// them there is no issuer to hold a token against, so the signing-keys
    /// URL is dropped too and the gateway fails closed.
    pub fn from_parts(signing_keys_url: Option<String>, client: Option<&KeycloakClientConfig>) -> (
        config: GatewayConfig
    )
        ensures
            match client {
                Some(client) => config.signing_keys_url == signing_keys_url && config.policy@
                    == (PolicyView {
                    issuer: issuer_url(client.auth_server_url@, client.realm@),
                    audience: None,
                    algorithm: SigningAlgorithm::Rs256,
                }),
                None => config.signing_keys_url is None && config.policy@ == (PolicyView {
                    issuer: Seq::<char>::empty(),
                    audience: None,
                    algorithm: SigningAlgorithm::Rs256,
                }),
            },
    {
        match client {
            Some(client) => GatewayConfig {
                signing_keys_url,
                policy: ValidationPolicy::new(client.openid_base_url()),
            },
            None => GatewayConfig {
                signing_keys_url: None,
                policy: ValidationPolicy::new(String::new()),
            },
        }
    }

    /// The signing-keys URL, as a plain value.
    pub open spec fn url_view(&self) -> Option<Seq<char>> {
        match self.signing_keys_url {
            Some(url) => Some(url@),
            None => None,
        }
    }
}

/// What travels with a request to the next stage: the replayable body, and
/// the claims of the caller where the gateway verified any.
pub struct RequestContext {
    pub body: BufferedBody,
    pub claims: Option<Claims>,
}

/// The plain content of a [`RequestContext`].
pub struct RequestContextView {
    pub body: Seq<u8>,
    pub claims: Option<ClaimsView>,
}

impl View for RequestContext {
    type V = RequestContextView;

    open spec fn view(&self) -> RequestContextView {
        RequestContextView {
            body: self.body@,
            claims: match self.claims {
                Some(claims) => Some(claims@),
                None => None,
            },
        }
    }
}

/// An answer that the gateway gives in place of the next stage.  It has
/// an empty body: the reason for a refusal stays on the server.
#[derive(Debug, Clone, Copy, PartialEq, Eq, Structural)]
pub enum Refusal {
    /// The credential was not accepted.
    Unauthorized,
    /// The gateway lacks its configuration.
    InternalError,
}

impl Refusal {
    /// The status code of the answer.
    pub open spec fn spec_status(self) -> u16 {
        match self {
            Refusal::Unauthorized => 401,
            Refusal::InternalError => 500,
        }
    }

    /// The status code of the answer.
    pub fn status(self) -> (code: u16)
        ensures
            code == self.spec_status(),
    {
        match self {
            Refusal::Unauthorized => 401,
            Refusal::InternalError => 500,
        }
    }
}

/// Where the interception of one request stands.
pub enum Interception {
    /// The body is being read.
    Draining { request: RequestHead, buffer: BodyBuffer },
    /// The body is read, the credential passed every check that needs no
    /// network, and the key set is awaited.
    Resolving { body: BufferedBody, token: String },
    /// Nothing is left to do.
    Finished,
}

/// The plain content of an [`Interception`].
pub enum InterceptionView {
    Draining { path: Seq<char>, authorization: Option<Seq<u8>>, body: Seq<u8> },
    Resolving { body: Seq<u8>, token: Seq<char> },
    Finished,
}

impl View for Interception {
    type V = InterceptionView;

    open spec fn view(&self) -> InterceptionView {
        match self {
            Interception::Draining { request, buffer } => InterceptionView::Draining {
                path: request.path@,
                authorization: request.authorization_view(),
                body: buffer@,
            },
            Interception::Resolving { body, token } => InterceptionView::Resolving {
                body: body@,
                token: token@,
            },
            Interception::Finished => InterceptionView::Finished,
        }
    }
}

/// What the outside reports back.
pub enum Event {
    /// The transport delivered another piece of the body.
    Chunk(bytes::Bytes),
    /// The body ended.
    EndOfBody,
    /// The transport failed before the body ended.
    BodyFailed,
    /// The fetch of the key set ended: with the document, or `None`
    /// where it failed.
    KeySet(Option<Vec<u8>>),
}

/// The plain content of an [`Event`].
pub enum EventView {
    Chunk(Seq<u8>),
    EndOfBody,
    BodyFailed,
    KeySet(Option<Seq<u8>>),
}

impl View for Event {
    type V = EventView;

    open spec fn view(&self) -> EventView {
        match self {
            Event::Chunk(chunk) => EventView::Chunk(chunk_view(*chunk)),
            Event::EndOfBody => EventView::EndOfBody,
            Event::BodyFailed => EventView::BodyFailed,
            Event::KeySet(fetched) => EventView::KeySet(
                match fetched {
                    Some(document) => Some(document@),
                    None => None,
                },
            ),
        }
    }
}

/// What the gateway asks the outside to do next.
pub enum Action {
    /// Read the next piece of the body.
    ReadBody,
    /// Fetch the key set from this URL.
    FetchKeySet { url: String },
    /// Call the next stage with this context.
    Forward { context: RequestContext },
    /// Answer the client; the next stage is never called.  The reason is
    /// for the server's log, never for the answer.
    Respond { refusal: Refusal, reason: Option<Rejection> },
    /// Give the request up without an answer: the transport failed, or
    /// the event does not belong to the state.
    Abort,
}

/// The plain content of an [`Action`].
pub enum ActionView {
    ReadBody,
    FetchKeySet { url: Seq<char> },
    Forward { context: RequestContextView },
    Respond { refusal: Refusal, reason: Option<Rejection> },
    Abort,
}

impl View for Action {
    type V = ActionView;

    open spec fn view(&self) -> ActionView {
        match self {
            Action::ReadBody => ActionView::ReadBody,
            Action::FetchKeySet { url } => ActionView::FetchKeySet { url: url@ },
            Action::Forward { context } => ActionView::Forward { context: context@ },
            Action::Respond { refusal, reason } => ActionView::Respond {
                refusal: *refusal,
                reason: *reason,
            },
            Action::Abort => ActionView::Abort,
        }
    }
}

/// What the gateway decides once the body is read.  A path outside the
/// protected prefix is forwarded as it came.  Under the prefix, a gateway
/// without a signing-keys URL fails closed; a credential that does not pass
/// the checks that need no network is refused without any fetch; any other
/// asks for the key set.
pub open spec fn after_body(
    path: Seq<char>,
    authorization: Option<Seq<u8>>,
    body: Seq<u8>,
    url: Option<Seq<char>>,
) -> (InterceptionView, ActionView) {
    if !protected(path) {
        (
            InterceptionView::Finished,
            ActionView::Forward { context: RequestContextView { body, claims: None } },
        )
    } else if url is None {
        (
            InterceptionView::Finished,
            ActionView::Respond { refusal: Refusal::InternalError, reason: None },
        )
    } else {
        match credential(authorization) {
            Err(e) => (
                InterceptionView::Finished,
                ActionView::Respond { refusal: Refusal::Unauthorized, reason: Some(e) },
            ),
            Ok(token) => (
                InterceptionView::Resolving { body, token },
                ActionView::FetchKeySet { url: url->0 },
            ),
        }
    }
}

/// What the gateway decides once validation has its outcome: claims are
/// attached and the request forwarded, or the client is refused.
pub open spec fn after_validation(body: Seq<u8>, outcome: Result<ClaimsView, Rejection>) -> (
    InterceptionView,
    ActionView,
) {
    match outcome {
        Ok(claims) => (
            InterceptionView::Finished,
            ActionView::Forward { context: RequestContextView { body, claims: Some(claims) } },
        ),
        Err(e) => (
            InterceptionView::Finished,
            ActionView::Respond { refusal: Refusal::Unauthorized, reason: Some(e) },
        ),
    }
}

/// The transition of the gateway: the next state and the action, for a
/// state, an event, the configuration and the time.
pub open spec fn transition(
    state: InterceptionView,
    event: EventView,
    url: Option<Seq<char>>,
    policy: PolicyView,
    now: nat,
) -> (InterceptionView, ActionView) {
    match state {
        InterceptionView::Draining { path, authorization, body } => match event {
            EventView::Chunk(chunk) => if body.len() + chunk.len() <= usize::MAX {
                (
                    InterceptionView::Draining { path, authorization, body: body + chunk },
                    ActionView::ReadBody,
                )
            } else {
                (InterceptionView::Finished, ActionView::Abort)
            },
            EventView::EndOfBody => after_body(path, authorization, body, url),
            _ => (InterceptionView::Finished, ActionView::Abort),
        },
        InterceptionView::Resolving { body, token } => match event {
            EventView::KeySet(fetched) => after_validation(
                body,
                validated(token, fetched, policy, now),
            ),
            _ => (InterceptionView::Finished, ActionView::Abort),
        },
        InterceptionView::Finished => (InterceptionView::Finished, ActionView::Abort),
    }
}

/// The gateway's transition, executed.
pub fn step(state: Interception, event: Event, config: &GatewayConfig, now: u64) -> (r: (
    Interception,
    Action,
))
    ensures
        (r.0@, r.1@) == transition(state@, event@, config.url_view(), config.policy@, now as nat),
{
    match state {
        Interception::Draining { request, buffer } => match event {
            Event::Chunk(chunk) => {
                let mut buffer = buffer;
                if buffer.push(chunk) {
                    (Interception::Draining { request, buffer }, Action::ReadBody)
                } else {
                    (Interception::Finished, Action::Abort)
                }
            },
            Event::EndOfBody => decide(request, buffer.finish(), config),
            _ => (Interception::Finished, Action::Abort),
        },
        Interception::Resolving { body, token } => match event {
            Event::KeySet(fetched) => {
                let document: Option<&[u8]> = match &fetched {
                    Some(document) => Some(document.as_slice()),
                    None => None,
                };
                let outcome = check_password(token.as_str(), document, &config.policy, now);
                conclude_interception(body, outcome)
            },
            _ => (Interception::Finished, Action::Abort),
        },
        Interception::Finished => (Interception::Finished, Action::Abort),
    }
}

/// The decision on a request whose body is read.
pub fn decide(request: RequestHead, body: BufferedBody, config: &GatewayConfig) -> (r: (
    Interception,
    Action,
))
    ensures
        (r.0@, r.1@) == after_body(
            request.path@,
            request.authorization_view(),
            body@,
            config.url_view(),
        ),
{
    if !is_protected_path(request.path.as_str()) {
        return (
            Interception::Finished,
            Action::Forward { context: RequestContext { body, claims: None } },
        );
    }
    let url = match &config.signing_keys_url {
        Some(url) => url.clone(),
        None => {
            return (
                Interception::Finished,
                Action::Respond { refusal: Refusal::InternalError, reason: None },
            );
        },
    };
    match preflight(&request) {
        Err(e) => (
            Interception::Finished,
            Action::Respond { refusal: Refusal::Unauthorized, reason: Some(e) },
        ),
        Ok(token) => (Interception::Resolving { body, token }, Action::FetchKeySet { url }),
    }
}

/// The decision on a request whose credential was validated: forward it
/// with the claims attached, or refuse it.
pub fn conclude_interception(body: BufferedBody, outcome: Result<Claims, Rejection>) -> (r: (
    Interception,
    Action,
))
    ensures
        (r.0@, r.1@) == after_validation(body@, outcome_view(outcome)),
{
    match outcome {
        Ok(claims) => (
            Interception::Finished,
            Action::Forward { context: RequestContext { body, claims: Some(claims) } },
        ),
        Err(e) => (
            Interception::Finished,
            Action::Respond { refusal: Refusal::Unauthorized, reason: Some(e) },
        ),
    }
}

impl Claims {
    /// The claims of the caller, for a handler behind the gateway.  A
    /// context without claims is unauthorized: a handler that needs an
    /// identity must not go on without one, even though the gateway is
    /// expected to have filtered such requests already.
    pub fn from_request(context: &RequestContext) -> (r: Result<Claims, Refusal>)
        ensures
            match context.claims {
                Some(claims) => r == Ok::<Claims, Refusal>(claims),
                None => r == Err::<Claims, Refusal>(Refusal::Unauthorized),
            },
    {
        match &context.claims {
            Some(claims) => Ok(claims.clone()),
            None => Err(Refusal::Unauthorized),
        }
    }
}

/// The gateway, as the web framework's middleware stack knows it: a
/// factory that wraps the next stage.
#[derive(Debug, Clone, Copy, PartialEq, Eq)]
pub struct RequestLogger;

/// The gateway around one next stage.
pub struct RequestLoggerService<S> {
    service: S,
}

impl RequestLogger {
    /// Wraps the next stage.
    pub fn new_transform<S>(&self, service: S) -> (wrapped: RequestLoggerService<S>)
        ensures
            wrapped.next_stage() == service,
    {
        RequestLoggerService { service }
    }
}

impl<S> RequestLoggerService<S> {
    /// The stage that forwarded requests go to.
    pub closed spec fn next_stage(&self) -> S {
        self.service
    }

    /// The stage that forwarded requests go to.
    pub fn service(&self) -> (service: &S)
        ensures
            *service == self.next_stage(),
    {
        &self.service
    }

    /// Takes up a request: interception starts with nothing of the body
    /// read.
    pub fn call(&self, request: RequestHead) -> (state: Interception)
        ensures
            state@ == (InterceptionView::Draining {
                path: request.path@,
                authorization: request.authorization_view(),
                body: Seq::<u8>::empty(),
            }),
    {
        Interception::Draining { request, buffer: BodyBuffer::new() }
    }
}

} // verus!
