//! The authentication flow's state machine. The surrounding program performs
//! the outside work (the HTTP requests, binding the listener, opening the
//! browser, waiting with a deadline) and feeds each outcome back as an event;
//! every decision between two pieces of outside work is made here.

use vstd::prelude::*;
use crate::callback::CallbackResult;
use crate::chars::str_eq;
use crate::discovery::{DiscoveredEndpoints, DiscoveryError};
use crate::domain::{normalize_domain, normalized_domain, redirect_uri_for, redirect_uri_spec};
use crate::pkce::{generate, generate_state, pkce_wf, PkceMaterial, STATE_LEN};
use crate::scope::{scope_is_valid, validate_scope};
use crate::urlenc::{url_with_params, url_with_params_spec};
use crate::validation::{
    json_str_field_of, parse_exchange_response, validation_outcome_spec, ExchangeError,
    ValidationOutcome, WarningReason,
};

verus! {

/// How long the orchestrator waits for the authorization redirect before the
/// flow fails with a timeout.
pub const CALLBACK_TIMEOUT_SECS: u64 = 300;

/// How long the token-validation probe may take before it counts as a
/// network failure.
pub const VALIDATION_TIMEOUT_SECS: u64 = 10;

/// The client identifier used when none is configured.
pub fn default_client_id() -> (r: &'static str)
    ensures
        r@ == "https://github.com/harperreed/micropub"@,
{
    "https://github.com/harperreed/micropub"
}

/// The scope requested when the caller names none.
pub fn default_scope() -> (r: &'static str)
    ensures
        r@ == "create update delete media"@,
{
    "create update delete media"
}

/// Everything one flow threads from binding the listener to validating the
/// token. Created after discovery, discarded when the flow ends; the PKCE
/// verifier never appears in any value handed to the outside.
#[derive(Debug)]
pub struct AuthSession {
    pub domain: String,
    pub scope: String,
    pub client_id: String,
    pub me: String,
    pub endpoints: DiscoveredEndpoints,
    pub pkce: PkceMaterial,
    pub csrf_state: String,
    pub port: u16,
    pub redirect_uri: String,
}

/// A well-formed session: the scope was validated, the PKCE pair is a
/// generated verifier with its derived challenge, the CSRF value has its full
/// length, and the identity and redirect URI are the ones derived from the
/// domain and the bound port.
pub open spec fn session_wf(s: AuthSession) -> bool {
    &&& scope_is_valid(s.scope@)
    &&& pkce_wf(s.pkce)
    &&& s.csrf_state@.len() == STATE_LEN
    &&& s.me@ == normalized_domain(s.domain@)
    &&& s.redirect_uri@ == redirect_uri_spec(s.port)
}

/// Why a flow ended without a token.
#[derive(Debug, Clone, PartialEq, Eq)]
pub enum FailureReason {
    /// Discovery failed; the inner value says how.
    Discovery(DiscoveryError),
    /// The requested scope holds a forbidden character; nothing was sent.
    InvalidScope,
    /// The authorization server redirected back with an error.
    AuthorizationDenied { error: String, description: Option<String> },
    /// The redirect's `state` differs from the generated CSRF value; the code
    /// is not trusted and no exchange happens.
    CsrfMismatch,
    /// No terminal redirect arrived within the configured ceiling.
    Timeout,
    /// The code-for-token exchange failed; the inner value says how.
    Exchange(ExchangeError),
    /// The validation probe rejected the fresh token.
    TokenRejected { status: u16 },
    /// The validation probe could not be made or timed out.
    TokenNetworkError,
}

/// The states of one authentication flow.
#[derive(Debug)]
pub enum FlowState {
    /// Waiting for the discovery request's outcome.
    Discovering { domain: String, scope: String, client_id: String },
    /// Endpoints found; waiting for the callback listener to bind a port.
    Binding { domain: String, scope: String, client_id: String, endpoints: DiscoveredEndpoints },
    /// Session built; the browser should be opened at `auth_url`.
    AwaitingBrowser { session: AuthSession, auth_url: String },
    /// Waiting for the authorization redirect or the deadline.
    AwaitingCallback { session: AuthSession },
    /// CSRF value checked; waiting for the token endpoint's answer.
    ExchangingCode { session: AuthSession, code: String },
    /// Token obtained; waiting for the validation probe's answer.
    ValidatingToken { session: AuthSession, token: String },
    /// The flow succeeded; the endpoints and the token go to storage.
    Done { endpoints: DiscoveredEndpoints, token: String, warning: Option<WarningReason> },
    /// The flow failed; every failure is terminal.
    Failed { reason: FailureReason },
}

/// One piece of outside work's outcome, fed back into the state machine.
#[derive(Debug)]
pub enum FlowEvent {
    /// The discovery request finished.
    DiscoveryOutcome { result: Result<DiscoveredEndpoints, DiscoveryError> },
    /// The callback listener bound this port.
    ListenerBound { port: u16 },
    /// The browser launch was attempted; failure to open it is not fatal.
    BrowserOpened { launched: bool },
    /// The listener's result cell was read after it signalled completion.
    CallbackObserved { result: CallbackResult },
    /// The deadline elapsed before the listener observed a terminal result.
    CallbackTimedOut,
    /// The token endpoint answered (status and body), or `None` when the
    /// request could not be made.
    ExchangeResponse { response: Option<(u16, String)> },
    /// The validation probe answered with a status, or `None` when the
    /// request could not be made or timed out.
    ValidationResponse { status: Option<u16> },
}

/// The invariant every state of a running flow keeps: the scope it carries
/// was validated, and once a session exists it is well formed.
pub open spec fn state_wf(s: FlowState) -> bool {
    match s {
        FlowState::Discovering { scope, .. } => scope_is_valid(scope@),
        FlowState::Binding { scope, .. } => scope_is_valid(scope@),
        FlowState::AwaitingBrowser { session, .. } => session_wf(session),
        FlowState::AwaitingCallback { session } => session_wf(session),
        FlowState::ExchangingCode { session, .. } => session_wf(session),
        FlowState::ValidatingToken { session, .. } => session_wf(session),
        FlowState::Done { .. } => true,
        FlowState::Failed { .. } => true,
    }
}

/// The query parameters of the authorization request, in order. The list
/// carries the challenge, never the verifier.
pub open spec fn authorize_params_spec(
    client_id: Seq<char>,
    redirect_uri: Seq<char>,
    csrf_state: Seq<char>,
    challenge: Seq<char>,
    scope: Seq<char>,
    me: Seq<char>,
) -> Seq<(Seq<char>, Seq<char>)> {
    seq![
        ("response_type"@, "code"@),
        ("client_id"@, client_id),
        ("redirect_uri"@, redirect_uri),
        ("state"@, csrf_state),
        ("code_challenge"@, challenge),
        ("code_challenge_method"@, "S256"@),
        ("scope"@, scope),
        ("me"@, me),
    ]
}

/// The full authorization URL for a session.
pub open spec fn auth_url_spec(s: AuthSession) -> Seq<char> {
    url_with_params_spec(
        s.endpoints.authorization_url@,
        authorize_params_spec(
            s.client_id@,
            s.redirect_uri@,
            s.csrf_state@,
            s.pkce.challenge@,
            s.scope@,
            s.me@,
        ),
    )
}

/// Build the authorization URL a session sends the user's browser to.
pub fn build_authorize_url(s: &AuthSession) -> (r: String)
    ensures
        r@ == auth_url_spec(*s),
{
    let mut params: Vec<(String, String)> = Vec::new();
    params.push(("response_type".to_owned(), "code".to_owned()));
    params.push(("client_id".to_owned(), s.client_id.clone()));
    params.push(("redirect_uri".to_owned(), s.redirect_uri.clone()));
    params.push(("state".to_owned(), s.csrf_state.clone()));
    params.push(("code_challenge".to_owned(), s.pkce.challenge.clone()));
    params.push(("code_challenge_method".to_owned(), "S256".to_owned()));
    params.push(("scope".to_owned(), s.scope.clone()));
    params.push(("me".to_owned(), s.me.clone()));
    assert(params.deep_view() =~~= authorize_params_spec(
        s.client_id@,
        s.redirect_uri@,
        s.csrf_state@,
        s.pkce.challenge@,
        s.scope@,
        s.me@,
    ));
    url_with_params(s.endpoints.authorization_url.as_str(), &params)
}

/// Begin a flow. The requested scope is validated here, before any request
/// is issued: a scope with a forbidden character fails the flow immediately,
/// so no network activity ever happens for it.
pub fn start_flow(domain: &str, scope: Option<&str>, client_id: Option<&str>) -> (s: FlowState)
    ensures
        state_wf(s),
        ({
            let sc = match scope {
                Some(v) => v@,
                None => "create update delete media"@,
            };
            let ci = match client_id {
                Some(v) => v@,
                None => "https://github.com/harperreed/micropub"@,
            };
            if !scope_is_valid(sc) {
                s == (FlowState::Failed { reason: FailureReason::InvalidScope })
            } else {
                match s {
                    FlowState::Discovering { domain: d, scope: scf, client_id: cf } => d@ == domain@
                        && scf@ == sc && cf@ == ci,
                    _ => false,
                }
            }
        }),
{
    let scope_str = match scope {
        Some(v) => v,
        None => default_scope(),
    };
    let client_id_str = match client_id {
        Some(v) => v,
        None => default_client_id(),
    };
    if !validate_scope(scope_str) {
        return FlowState::Failed { reason: FailureReason::InvalidScope };
    }
    FlowState::Discovering {
        domain: domain.to_owned(),
        scope: scope_str.to_owned(),
        client_id: client_id_str.to_owned(),
    }
}

/// Advance the flow by one observed event.
///
/// The contract carries the flow's safety laws: a finished or failed flow
/// never moves again; the exchange state is entered only from a callback
/// whose `state` equals the session's CSRF value, so a mismatched callback
/// can never reach the token exchange; and an elapsed deadline while waiting
/// for the callback fails the flow with `Timeout`, nothing else.
pub fn step(state: FlowState, event: FlowEvent) -> (next: FlowState)
    requires
        state_wf(state),
    ensures
        state_wf(next),
        (state is Done || state is Failed) ==> next == state,
        (next is ExchangingCode && !(state is ExchangingCode)) ==> (state matches
        FlowState::AwaitingCallback { session } && event matches FlowEvent::CallbackObserved {
            result: CallbackResult::Success { code, state: st },
        } && st@ == session.csrf_state@),
        ((state matches FlowState::AwaitingCallback { .. }) && (event matches
            FlowEvent::CallbackTimedOut)) ==> next == (FlowState::Failed {
            reason: FailureReason::Timeout,
        }),
        ({
            match state {
                FlowState::Discovering { domain, scope, client_id } => match event {
                    FlowEvent::DiscoveryOutcome { result } => match result {
                        Ok(endpoints) => next == (FlowState::Binding {
                            domain,
                            scope,
                            client_id,
                            endpoints,
                        }),
                        Err(e) => next == (FlowState::Failed {
                            reason: FailureReason::Discovery(e),
                        }),
                    },
                    _ => next == state,
                },
                FlowState::Binding { domain, scope, client_id, endpoints } => match event {
                    FlowEvent::ListenerBound { port } => match next {
                        FlowState::AwaitingBrowser { session, auth_url } => {
                            &&& session.domain == domain
                            &&& session.scope == scope
                            &&& session.client_id == client_id
                            &&& session.endpoints == endpoints
                            &&& session.port == port
                            &&& session_wf(session)
                            &&& auth_url@ == auth_url_spec(session)
                        },
                        _ => false,
                    },
                    _ => next == state,
                },
                FlowState::AwaitingBrowser { session, auth_url } => match event {
                    FlowEvent::BrowserOpened { .. } => next == (FlowState::AwaitingCallback {
                        session,
                    }),
                    _ => next == state,
                },
                FlowState::AwaitingCallback { session } => match event {
                    FlowEvent::CallbackObserved { result } => match result {
                        CallbackResult::Success { code, state: st } => {
                            if st@ == session.csrf_state@ {
                                next == (FlowState::ExchangingCode { session, code })
                            } else {
                                next == (FlowState::Failed {
                                    reason: FailureReason::CsrfMismatch,
                                })
                            }
                        },
                        CallbackResult::AuthorizationError { error, description } => next == (
                        FlowState::Failed {
                            reason: FailureReason::AuthorizationDenied { error, description },
                        }),
                        CallbackResult::Pending => next == state,
                    },
                    FlowEvent::CallbackTimedOut => next == (FlowState::Failed {
                        reason: FailureReason::Timeout,
                    }),
                    _ => next == state,
                },
                FlowState::ExchangingCode { session, code } => match event {
                    FlowEvent::ExchangeResponse { response } => match response {
                        None => next == (FlowState::Failed {
                            reason: FailureReason::Exchange(ExchangeError::NetworkFailure),
                        }),
                        Some((status, body)) => match next {
                            FlowState::ValidatingToken { session: s2, token } => {
                                &&& s2 == session
                                &&& 200 <= status < 300
                                &&& json_str_field_of(body@, "access_token"@) == Some(token@)
                            },
                            FlowState::Failed { reason } => match reason {
                                FailureReason::Exchange(e) => match e {
                                    ExchangeError::RequestFailed { status: st2, body: b2 } => !(200
                                        <= status < 300) && st2 == status && b2@ == body@,
                                    ExchangeError::MalformedResponse => 200 <= status < 300
                                        && json_str_field_of(body@, "access_token"@) is None,
                                    ExchangeError::NetworkFailure => false,
                                },
                                _ => false,
                            },
                            _ => false,
                        },
                    },
                    _ => next == state,
                },
                FlowState::ValidatingToken { session, token } => match event {
                    FlowEvent::ValidationResponse { status } => match status {
                        None => next == (FlowState::Failed {
                            reason: FailureReason::TokenNetworkError,
                        }),
                        Some(st) => match validation_outcome_spec(st) {
                            ValidationOutcome::Accepted => next == (FlowState::Done {
                                endpoints: session.endpoints,
                                token,
                                warning: None,
                            }),
                            ValidationOutcome::AcceptedWithWarning(w) => next == (FlowState::Done {
                                endpoints: session.endpoints,
                                token,
                                warning: Some(w),
                            }),
                            ValidationOutcome::Rejected => next == (FlowState::Failed {
                                reason: FailureReason::TokenRejected { status: st },
                            }),
                        },
                    },
                    _ => next == state,
                },
                FlowState::Done { .. } => next == state,
                FlowState::Failed { .. } => next == state,
            }
        }),
{
    match state {
        FlowState::Discovering { domain, scope, client_id } => match event {
            FlowEvent::DiscoveryOutcome { result } => match result {
                Ok(endpoints) => FlowState::Binding { domain, scope, client_id, endpoints },
                Err(e) => FlowState::Failed { reason: FailureReason::Discovery(e) },
            },
            _ => FlowState::Discovering { domain, scope, client_id },
        },
        FlowState::Binding { domain, scope, client_id, endpoints } => match event {
            FlowEvent::ListenerBound { port } => {
                let pkce = generate();
                let csrf_state = generate_state();
                let me = normalize_domain(domain.as_str());
                let redirect_uri = redirect_uri_for(port);
                let session = AuthSession {
                    domain,
                    scope,
                    client_id,
                    me,
                    endpoints,
                    pkce,
                    csrf_state,
                    port,
                    redirect_uri,
                };
                let auth_url = build_authorize_url(&session);
                FlowState::AwaitingBrowser { session, auth_url }
            },
            _ => FlowState::Binding { domain, scope, client_id, endpoints },
        },
        FlowState::AwaitingBrowser { session, auth_url } => match event {
            FlowEvent::BrowserOpened { .. } => FlowState::AwaitingCallback { session },
            _ => FlowState::AwaitingBrowser { session, auth_url },
        },
        FlowState::AwaitingCallback { session } => match event {
            FlowEvent::CallbackObserved { result } => match result {
                CallbackResult::Success { code, state: st } => {
                    if str_eq(st.as_str(), session.csrf_state.as_str()) {
                        FlowState::ExchangingCode { session, code }
                    } else {
                        FlowState::Failed { reason: FailureReason::CsrfMismatch }
                    }
                },
                CallbackResult::AuthorizationError { error, description } => FlowState::Failed {
                    reason: FailureReason::AuthorizationDenied { error, description },
                },
                CallbackResult::Pending => FlowState::AwaitingCallback { session },
            },
            FlowEvent::CallbackTimedOut => FlowState::Failed { reason: FailureReason::Timeout },
            _ => FlowState::AwaitingCallback { session },
        },
        FlowState::ExchangingCode { session, code } => match event {
            FlowEvent::ExchangeResponse { response } => match response {
                None => FlowState::Failed {
                    reason: FailureReason::Exchange(ExchangeError::NetworkFailure),
                },
                Some((status, body)) => match parse_exchange_response(status, body.as_str()) {
                    Ok(token) => FlowState::ValidatingToken { session, token },
                    Err(e) => FlowState::Failed { reason: FailureReason::Exchange(e) },
                },
            },
            _ => FlowState::ExchangingCode { session, code },
        },
        FlowState::ValidatingToken { session, token } => match event {
            FlowEvent::ValidationResponse { status } => match status {
                None => FlowState::Failed { reason: FailureReason::TokenNetworkError },
                Some(st) => match crate::validation::classify_validation_status(st) {
                    ValidationOutcome::Accepted => FlowState::Done {
                        endpoints: session.endpoints,
                        token,
                        warning: None,
                    },
                    ValidationOutcome::AcceptedWithWarning(w) => FlowState::Done {
                        endpoints: session.endpoints,
                        token,
                        warning: Some(w),
                    },
                    ValidationOutcome::Rejected => FlowState::Failed {
                        reason: FailureReason::TokenRejected { status: st },
                    },
                },
            },
            _ => FlowState::ValidatingToken { session, token },
        },
        FlowState::Done { endpoints, token, warning } => FlowState::Done {
            endpoints,
            token,
            warning,
        },
        FlowState::Failed { reason } => FlowState::Failed { reason },
    }
}

} // verus!
