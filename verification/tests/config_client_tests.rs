// Tests for configuration profiles, exchange-response handling and the
// error-message rendering of the content client.

use micropub::client::format_error_message;
use micropub::config::{Config, Profile};
use micropub::validation::{
    build_token_request_params, media_endpoint_from_config, parse_exchange_response,
    ExchangeError,
};

fn profile(domain: &str) -> Profile {
    Profile {
        domain: domain.to_string(),
        micropub_endpoint: Some(format!("https://{}/micropub", domain)),
        media_endpoint: None,
        token_endpoint: None,
        authorization_endpoint: None,
    }
}

#[test]
fn test_profile_upsert_and_lookup() {
    let mut config = Config::empty();
    assert!(config.get_profile("example.com").is_none());

    config.upsert_profile("example.com".to_string(), profile("example.com"));
    let p = config.get_profile("example.com").unwrap();
    assert_eq!(p.domain, "example.com");

    // Replacing under the same name keeps one entry with the new value.
    let mut newer = profile("example.com");
    newer.media_endpoint = Some("https://example.com/media".to_string());
    config.upsert_profile("example.com".to_string(), newer);
    assert_eq!(config.profiles.len(), 1);
    assert!(config.get_profile("example.com").unwrap().media_endpoint.is_some());

    // Other names are untouched.
    config.upsert_profile("other.org".to_string(), profile("other.org"));
    assert_eq!(config.profiles.len(), 2);
    assert_eq!(config.get_profile("other.org").unwrap().domain, "other.org");
    assert_eq!(config.get_profile("example.com").unwrap().domain, "example.com");
}

#[test]
fn test_parse_exchange_response_reads_token() {
    let r = parse_exchange_response(200, "{\"access_token\": \"tok123\", \"me\": \"x\"}");
    assert_eq!(r, Ok("tok123".to_string()));
}

#[test]
fn test_parse_exchange_response_keeps_failure_verbatim() {
    let r = parse_exchange_response(403, "denied body");
    assert_eq!(
        r,
        Err(ExchangeError::RequestFailed { status: 403, body: "denied body".to_string() })
    );
}

#[test]
fn test_parse_exchange_response_flags_missing_token() {
    assert_eq!(
        parse_exchange_response(200, "{\"scope\": \"create\"}"),
        Err(ExchangeError::MalformedResponse)
    );
    assert_eq!(
        parse_exchange_response(201, "not json at all"),
        Err(ExchangeError::MalformedResponse)
    );
}

#[test]
fn test_token_request_params_shape() {
    let params = build_token_request_params("c0de", "v3rifier", "http://127.0.0.1:8089/callback", "https://client.example/");
    assert_eq!(
        params,
        vec![
            ("grant_type".to_string(), "authorization_code".to_string()),
            ("code".to_string(), "c0de".to_string()),
            ("client_id".to_string(), "https://client.example/".to_string()),
            ("redirect_uri".to_string(), "http://127.0.0.1:8089/callback".to_string()),
            ("code_verifier".to_string(), "v3rifier".to_string()),
        ]
    );
}

#[test]
fn test_media_endpoint_from_config_reads_field() {
    let body = "{\"media-endpoint\": \"https://example.com/media\"}";
    assert_eq!(
        media_endpoint_from_config(200, body),
        Some("https://example.com/media".to_string())
    );
    assert_eq!(media_endpoint_from_config(500, body), None);
    assert_eq!(media_endpoint_from_config(200, "{}"), None);
}

#[test]
fn test_format_error_message_known_codes() {
    assert_eq!(
        format_error_message(&Some("insufficient_scope".to_string()), &Some("no create".to_string())),
        "Insufficient permissions: no create\n\nRe-authenticate with: micropub auth <domain>"
    );
    assert_eq!(
        format_error_message(&Some("invalid_request".to_string()), &None),
        "Invalid request: No description provided\n\nCheck your draft format and try again"
    );
    assert_eq!(
        format_error_message(&Some("unauthorized".to_string()), &Some("expired".to_string())),
        "Unauthorized: expired\n\nYour token may be expired. Re-authenticate with: micropub auth <domain>"
    );
}

#[test]
fn test_format_error_message_unknown_code() {
    assert_eq!(
        format_error_message(&None, &None),
        "Micropub error (unknown_error): No description provided"
    );
    assert_eq!(
        format_error_message(&Some("strange".to_string()), &Some("what".to_string())),
        "Micropub error (strange): what"
    );
}
