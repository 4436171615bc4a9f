// Tests for the authentication flow state machine: scope gating, the CSRF
// check, the timeout, the exchange and validation transitions.

use micropub::callback::CallbackResult;
use micropub::discovery::{DiscoveredEndpoints, DiscoveryError};
use micropub::flow::{
    start_flow, step, FailureReason, FlowEvent, FlowState, CALLBACK_TIMEOUT_SECS,
};
use micropub::validation::{ExchangeError, WarningReason};

fn endpoints() -> DiscoveredEndpoints {
    DiscoveredEndpoints {
        micropub_url: "https://example.com/micropub".to_string(),
        authorization_url: "https://example.com/auth".to_string(),
        token_url: "https://example.com/token".to_string(),
    }
}

/// Drive a fresh flow to the point where it waits for the callback; returns
/// the state together with the CSRF value and the authorization URL it built.
fn flow_awaiting_callback() -> (FlowState, String, String) {
    let s = start_flow("example.com", Some("create update"), None);
    assert!(matches!(s, FlowState::Discovering { .. }));
    let s = step(s, FlowEvent::DiscoveryOutcome { result: Ok(endpoints()) });
    assert!(matches!(s, FlowState::Binding { .. }));
    let s = step(s, FlowEvent::ListenerBound { port: 8089 });
    let (csrf, auth_url) = match &s {
        FlowState::AwaitingBrowser { session, auth_url } => {
            (session.csrf_state.clone(), auth_url.clone())
        }
        other => panic!("expected AwaitingBrowser, got {:?}", other),
    };
    let s = step(s, FlowEvent::BrowserOpened { launched: true });
    assert!(matches!(s, FlowState::AwaitingCallback { .. }));
    (s, csrf, auth_url)
}

#[test]
fn test_invalid_scope_fails_before_any_request() {
    // "create;drop" holds a forbidden character: the flow is failed before
    // the discovery request would be issued, and stays failed whatever
    // happens afterwards, so no request is ever made for it.
    let s = start_flow("example.com", Some("create;drop"), None);
    assert!(matches!(
        s,
        FlowState::Failed { reason: FailureReason::InvalidScope }
    ));
    let s = step(s, FlowEvent::DiscoveryOutcome { result: Ok(endpoints()) });
    assert!(matches!(
        s,
        FlowState::Failed { reason: FailureReason::InvalidScope }
    ));
}

#[test]
fn test_valid_scope_starts_discovery() {
    let s = start_flow("example.com", Some("create update"), None);
    match s {
        FlowState::Discovering { domain, scope, client_id } => {
            assert_eq!(domain, "example.com");
            assert_eq!(scope, "create update");
            assert_eq!(client_id, "https://github.com/harperreed/micropub");
        }
        other => panic!("expected Discovering, got {:?}", other),
    }
}

#[test]
fn test_default_scope_is_used_when_none_given() {
    let s = start_flow("example.com", None, Some("https://client.example/"));
    match s {
        FlowState::Discovering { scope, client_id, .. } => {
            assert_eq!(scope, "create update delete media");
            assert_eq!(client_id, "https://client.example/");
        }
        other => panic!("expected Discovering, got {:?}", other),
    }
}

#[test]
fn test_discovery_failure_is_terminal() {
    let s = start_flow("example.com", Some("create"), None);
    let s = step(
        s,
        FlowEvent::DiscoveryOutcome { result: Err(DiscoveryError::NetworkFailure) },
    );
    assert!(matches!(
        s,
        FlowState::Failed { reason: FailureReason::Discovery(DiscoveryError::NetworkFailure) }
    ));
}

#[test]
fn test_authorization_url_carries_challenge_but_never_the_verifier() {
    let s = start_flow("example.com", Some("create update"), None);
    let s = step(s, FlowEvent::DiscoveryOutcome { result: Ok(endpoints()) });
    let s = step(s, FlowEvent::ListenerBound { port: 8089 });
    match &s {
        FlowState::AwaitingBrowser { session, auth_url } => {
            assert!(auth_url.starts_with("https://example.com/auth?response_type=code&"));
            assert!(auth_url.contains("&code_challenge="));
            assert!(auth_url.contains(&format!("&code_challenge={}", session.pkce.challenge)));
            assert!(auth_url.contains("&code_challenge_method=S256"));
            assert!(auth_url.contains(&format!("&state={}", session.csrf_state)));
            assert!(auth_url.contains("&scope=create%20update"));
            assert!(auth_url.contains("&me=https%3A%2F%2Fexample.com"));
            assert!(auth_url
                .contains("&redirect_uri=http%3A%2F%2F127.0.0.1%3A8089%2Fcallback"));
            // The verifier itself never appears in the URL.
            assert!(!auth_url.contains(&session.pkce.verifier));
        }
        other => panic!("expected AwaitingBrowser, got {:?}", other),
    }
}

#[test]
fn test_csrf_mismatch_never_reaches_exchange() {
    let (s, csrf, _) = flow_awaiting_callback();
    let mut wrong = csrf.clone();
    wrong.push('x');
    let next = step(
        s,
        FlowEvent::CallbackObserved {
            result: CallbackResult::Success { code: "code123".to_string(), state: wrong },
        },
    );
    // The flow fails with a CSRF mismatch and in particular never enters the
    // exchange state, so the token endpoint is never called.
    assert!(!matches!(next, FlowState::ExchangingCode { .. }));
    assert!(matches!(
        next,
        FlowState::Failed { reason: FailureReason::CsrfMismatch }
    ));
}

#[test]
fn test_matching_state_reaches_exchange() {
    let (s, csrf, _) = flow_awaiting_callback();
    let next = step(
        s,
        FlowEvent::CallbackObserved {
            result: CallbackResult::Success { code: "code123".to_string(), state: csrf },
        },
    );
    match next {
        FlowState::ExchangingCode { code, .. } => assert_eq!(code, "code123"),
        other => panic!("expected ExchangingCode, got {:?}", other),
    }
}

#[test]
fn test_authorization_error_is_terminal() {
    let (s, _, _) = flow_awaiting_callback();
    let next = step(
        s,
        FlowEvent::CallbackObserved {
            result: CallbackResult::AuthorizationError {
                error: "access_denied".to_string(),
                description: None,
            },
        },
    );
    match next {
        FlowState::Failed { reason: FailureReason::AuthorizationDenied { error, .. } } => {
            assert_eq!(error, "access_denied");
        }
        other => panic!("expected AuthorizationDenied, got {:?}", other),
    }
}

#[test]
fn test_callback_timeout_fails_with_timeout() {
    // A flow whose listener never receives a request fails with Timeout once
    // the configured ceiling elapses.
    assert_eq!(CALLBACK_TIMEOUT_SECS, 300);
    let (s, _, _) = flow_awaiting_callback();
    let next = step(s, FlowEvent::CallbackTimedOut);
    assert!(matches!(
        next,
        FlowState::Failed { reason: FailureReason::Timeout }
    ));
}

fn flow_exchanging() -> FlowState {
    let (s, csrf, _) = flow_awaiting_callback();
    step(
        s,
        FlowEvent::CallbackObserved {
            result: CallbackResult::Success { code: "code123".to_string(), state: csrf },
        },
    )
}

#[test]
fn test_exchange_success_moves_to_validation() {
    let s = flow_exchanging();
    let next = step(
        s,
        FlowEvent::ExchangeResponse {
            response: Some((200, "{\"access_token\": \"tok-1\"}".to_string())),
        },
    );
    match next {
        FlowState::ValidatingToken { token, .. } => assert_eq!(token, "tok-1"),
        other => panic!("expected ValidatingToken, got {:?}", other),
    }
}

#[test]
fn test_exchange_non_2xx_is_fatal_with_body_kept() {
    let s = flow_exchanging();
    let next = step(
        s,
        FlowEvent::ExchangeResponse { response: Some((400, "bad grant".to_string())) },
    );
    match next {
        FlowState::Failed {
            reason: FailureReason::Exchange(ExchangeError::RequestFailed { status, body }),
        } => {
            assert_eq!(status, 400);
            assert_eq!(body, "bad grant");
        }
        other => panic!("expected RequestFailed, got {:?}", other),
    }
}

#[test]
fn test_exchange_missing_token_is_malformed() {
    let s = flow_exchanging();
    let next = step(
        s,
        FlowEvent::ExchangeResponse { response: Some((200, "{\"ok\": true}".to_string())) },
    );
    assert!(matches!(
        next,
        FlowState::Failed { reason: FailureReason::Exchange(ExchangeError::MalformedResponse) }
    ));
}

fn flow_validating() -> FlowState {
    let s = flow_exchanging();
    step(
        s,
        FlowEvent::ExchangeResponse {
            response: Some((200, "{\"access_token\": \"tok-1\"}".to_string())),
        },
    )
}

#[test]
fn test_validation_accepted_finishes_the_flow() {
    let s = flow_validating();
    let next = step(s, FlowEvent::ValidationResponse { status: Some(200) });
    match next {
        FlowState::Done { endpoints: eps, token, warning } => {
            assert_eq!(token, "tok-1");
            assert_eq!(eps.micropub_url, "https://example.com/micropub");
            assert!(warning.is_none());
        }
        other => panic!("expected Done, got {:?}", other),
    }
}

#[test]
fn test_validation_rate_limited_finishes_with_warning() {
    let s = flow_validating();
    let next = step(s, FlowEvent::ValidationResponse { status: Some(429) });
    match next {
        FlowState::Done { warning, .. } => {
            assert_eq!(warning, Some(WarningReason::RateLimited));
        }
        other => panic!("expected Done, got {:?}", other),
    }
}

#[test]
fn test_validation_rejection_is_fatal() {
    let s = flow_validating();
    let next = step(s, FlowEvent::ValidationResponse { status: Some(401) });
    assert!(matches!(
        next,
        FlowState::Failed { reason: FailureReason::TokenRejected { status: 401 } }
    ));
}

#[test]
fn test_validation_network_failure_is_fatal() {
    let s = flow_validating();
    let next = step(s, FlowEvent::ValidationResponse { status: None });
    assert!(matches!(
        next,
        FlowState::Failed { reason: FailureReason::TokenNetworkError }
    ));
}
