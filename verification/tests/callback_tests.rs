// Tests for the callback listener's protocol: query decoding, request
// classification, the answer pages and the write-once result cell.

use micropub::callback::{
    candidate_ports, classify_callback, handle_callback_request, parse_query_params,
    CallbackRequest, CallbackResult,
};

#[test]
fn test_parse_query_params_decodes_values() {
    let params = parse_query_params("code=abc&state=xyz%20w&note=a%2Bb");
    assert_eq!(
        params,
        vec![
            ("code".to_string(), "abc".to_string()),
            ("state".to_string(), "xyz w".to_string()),
            ("note".to_string(), "a+b".to_string()),
        ]
    );
}

#[test]
fn test_classify_success_callback() {
    let params = parse_query_params("code=abc123&state=s1");
    match classify_callback(&params) {
        CallbackRequest::Granted { code, state } => {
            assert_eq!(code, "abc123");
            assert_eq!(state, "s1");
        }
        other => panic!("expected Granted, got {:?}", other),
    }
}

#[test]
fn test_classify_error_callback_wins_over_code() {
    let params = parse_query_params("error=access_denied&error_description=nope&code=x&state=y");
    match classify_callback(&params) {
        CallbackRequest::Denied { error, description } => {
            assert_eq!(error, "access_denied");
            assert_eq!(description.as_deref(), Some("nope"));
        }
        other => panic!("expected Denied, got {:?}", other),
    }
}

#[test]
fn test_classify_incomplete_callback_is_invalid() {
    let only_code = parse_query_params("code=abc");
    assert!(matches!(classify_callback(&only_code), CallbackRequest::Invalid));
    let empty = parse_query_params("");
    assert!(matches!(classify_callback(&empty), CallbackRequest::Invalid));
}

#[test]
fn test_success_request_stores_result_and_answers_200() {
    let r = handle_callback_request(
        CallbackResult::Pending,
        CallbackRequest::Granted { code: "c".to_string(), state: "s".to_string() },
    );
    assert_eq!(r.status, 200);
    assert!(r.body.contains("Authentication Successful!"));
    assert_eq!(
        r.stored,
        CallbackResult::Success { code: "c".to_string(), state: "s".to_string() }
    );
}

#[test]
fn test_error_request_stores_error_and_names_it() {
    let r = handle_callback_request(
        CallbackResult::Pending,
        CallbackRequest::Denied {
            error: "access_denied".to_string(),
            description: None,
        },
    );
    assert_eq!(r.status, 200);
    assert!(r.body.contains("Authentication Failed"));
    assert!(r.body.contains("access_denied"));
    assert!(r.body.contains("Unknown error"));
    assert!(matches!(r.stored, CallbackResult::AuthorizationError { .. }));
}

#[test]
fn test_invalid_request_answers_400_without_storing() {
    let r = handle_callback_request(CallbackResult::Pending, CallbackRequest::Invalid);
    assert_eq!(r.status, 400);
    assert!(r.body.contains("Invalid Callback"));
    assert_eq!(r.stored, CallbackResult::Pending);
}

#[test]
fn test_terminal_result_is_never_overwritten() {
    let first = CallbackResult::Success { code: "c1".to_string(), state: "s1".to_string() };
    let r = handle_callback_request(
        first.clone(),
        CallbackRequest::Granted { code: "c2".to_string(), state: "s2".to_string() },
    );
    assert_eq!(r.stored, first);

    let r2 = handle_callback_request(
        first.clone(),
        CallbackRequest::Denied { error: "e".to_string(), description: None },
    );
    assert_eq!(r2.stored, first);
}

#[test]
fn test_candidate_ports_are_the_preferred_range() {
    assert_eq!(candidate_ports(), vec![8089, 8090, 8091, 8092, 8093]);
}

#[test]
fn test_url_with_params_appends_to_existing_query() {
    let params = vec![("a b".to_string(), "c/d".to_string())];
    assert_eq!(
        micropub::urlenc::url_with_params("https://x.example/auth?keep=1", &params),
        "https://x.example/auth?keep=1&a%20b=c%2Fd"
    );
    assert_eq!(
        micropub::urlenc::url_with_params("https://x.example/auth", &params),
        "https://x.example/auth?a%20b=c%2Fd"
    );
}

#[test]
fn test_serve_callback_query_end_to_end() {
    let r = micropub::callback::serve_callback_query(
        CallbackResult::Pending,
        "code=abc&state=s%201",
    );
    assert_eq!(r.status, 200);
    assert_eq!(
        r.stored,
        CallbackResult::Success { code: "abc".to_string(), state: "s 1".to_string() }
    );
}
