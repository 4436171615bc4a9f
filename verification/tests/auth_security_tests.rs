// Security-focused tests for the authentication flow: domain normalization,
// scope validation, PKCE material and token-validation handling.

use micropub::domain::{is_localhost_domain, normalize_domain, profile_name_for};
use micropub::flow::VALIDATION_TIMEOUT_SECS;
use micropub::pkce::{generate_code_verifier, generate_state};
use micropub::validate_scope;
use micropub::validation::{classify_validation_status, ValidationOutcome, WarningReason};

#[test]
fn test_profile_name_preserves_port_localhost() {
    let domain = "http://localhost:3000";
    let profile_name = profile_name_for(domain).unwrap();
    assert_eq!(profile_name, "localhost:3000");
}

#[test]
fn test_profile_name_preserves_port_https() {
    let domain = "https://example.com:8443";
    let profile_name = profile_name_for(domain).unwrap();
    assert_eq!(profile_name, "example.com:8443");
}

#[test]
fn test_profile_name_no_port_uses_default() {
    let domain = "https://example.com";
    let profile_name = profile_name_for(domain).unwrap();
    // No port means using default (443 for https)
    assert_eq!(profile_name, "example.com");
}

#[test]
fn test_profile_name_prevents_collision() {
    // Two different servers on same host but different ports should have different names
    let profile1 = profile_name_for("http://localhost:3000").unwrap();
    let profile2 = profile_name_for("http://localhost:3001").unwrap();

    assert_ne!(profile1, profile2);
    assert_eq!(profile1, "localhost:3000");
    assert_eq!(profile2, "localhost:3001");
}

#[test]
fn test_localhost_detection_variations() {
    // Test all variations of localhost
    let localhost_variants = vec![
        "localhost",
        "127.0.0.1",
        "::1",
        "[::1]",
        "http://localhost",
        "http://127.0.0.1",
        "http://::1",
        "http://[::1]",
        "https://localhost",
        "https://127.0.0.1",
        "https://::1",
        "https://[::1]",
        "localhost:3000",
        "127.0.0.1:8080",
    ];

    for domain in localhost_variants {
        assert!(
            is_localhost_domain(domain),
            "Expected {} to be detected as localhost",
            domain
        );
    }
}

#[test]
fn test_remote_domain_not_localhost() {
    let remote_domains = vec![
        "example.com",
        "https://example.com",
        "http://example.com",
        "mylocalhost.com", // Contains "localhost" but isn't localhost
        "127.0.0.2",       // Different IP
    ];

    for domain in remote_domains {
        assert!(
            !is_localhost_domain(domain),
            "Expected {} to NOT be detected as localhost",
            domain
        );
    }
}

#[test]
fn test_url_scheme_enforcement_remote() {
    // A domain that names a scheme is used as given; what protects remote
    // hosts is the downgrade rule on the response: a final URL on plain HTTP
    // at a non-loopback host is rejected.
    let domain = "http://example.com";
    assert_eq!(normalize_domain(domain), "http://example.com");
    let no_headers: Vec<String> = Vec::new();
    assert_eq!(
        micropub::discovery::discover_from_response("http://example.com/", &no_headers, ""),
        Err(micropub::discovery::DiscoveryError::InsecureRedirect)
    );
}

#[test]
fn test_url_scheme_allows_http_localhost() {
    // Localhost should allow HTTP
    let domain = "http://localhost:3000";
    assert_eq!(normalize_domain(domain), "http://localhost:3000");
}

#[test]
fn test_timeout_duration_is_reasonable() {
    // Verify that the timeout constant is sensible (10 seconds)
    let timeout_seconds = VALIDATION_TIMEOUT_SECS;

    assert!(
        timeout_seconds >= 5,
        "Timeout should be at least 5 seconds for slow networks"
    );
    assert!(
        timeout_seconds <= 30,
        "Timeout should not exceed 30 seconds to avoid hanging"
    );
}

#[test]
fn test_validate_scope_allows_empty() {
    let scope = "";
    let is_valid = validate_scope(scope);
    assert!(is_valid, "Empty scope should be valid");
}

#[test]
fn test_validate_scope_allows_simple_word() {
    let scope = "create";
    let is_valid = validate_scope(scope);
    assert!(is_valid, "Simple word scope should be valid");
}

#[test]
fn test_validate_scope_allows_multiple_words() {
    let scope = "create update delete media";
    let is_valid = validate_scope(scope);
    assert!(is_valid, "Multiple word scope should be valid");
}

#[test]
fn test_validate_scope_allows_hyphens() {
    let scope = "create-post update-post";
    let is_valid = validate_scope(scope);
    assert!(is_valid, "Scope with hyphens should be valid");
}

#[test]
fn test_validate_scope_allows_underscores() {
    let scope = "create_post update_post";
    let is_valid = validate_scope(scope);
    assert!(is_valid, "Scope with underscores should be valid");
}

#[test]
fn test_validate_scope_rejects_newlines() {
    let scope = "create\ndelete";
    let is_valid = validate_scope(scope);
    assert!(!is_valid, "Scope with newlines should be invalid");
}

#[test]
fn test_validate_scope_rejects_ampersands() {
    let scope = "create&delete";
    let is_valid = validate_scope(scope);
    assert!(!is_valid, "Scope with ampersands should be invalid");
}

#[test]
fn test_validate_scope_rejects_special_chars() {
    let invalid_scopes = vec![
        "create;delete",    // Semicolon
        "create=delete",    // Equals
        "create|delete",    // Pipe
        "create<script>",   // HTML tag
        "create\r\ndelete", // CRLF
        "create\tdelete",   // Tab
        "create/delete",    // Slash
        "create\\delete",   // Backslash
        "create\"delete",   // Quote
        "create'delete",    // Single quote
        "create`delete",    // Backtick
        "create{delete}",   // Braces
        "create[delete]",   // Brackets
        "create(delete)",   // Parentheses
    ];

    for scope in invalid_scopes {
        let is_valid = validate_scope(scope);
        assert!(
            !is_valid,
            "Scope '{}' with special characters should be invalid",
            scope
        );
    }
}

#[test]
fn test_validate_scope_rejects_unicode() {
    let scope = "create \u{5220}\u{9664}"; // Contains Chinese characters
    let is_valid = validate_scope(scope);
    assert!(
        !is_valid,
        "Scope with non-ASCII characters should be invalid"
    );
}

#[test]
fn test_validate_scope_edge_cases() {
    // Test edge cases
    assert!(validate_scope("a"), "Single character should be valid");

    assert!(
        validate_scope("a-b_c d"),
        "Mix of all allowed chars should be valid"
    );

    assert!(validate_scope("123"), "Numbers only should be valid");
}

#[test]
fn test_http_status_code_categories() {
    // Test that we can categorize HTTP status codes correctly

    // Success codes
    assert!((200..300).contains(&200));
    assert!((200..300).contains(&201));
    assert!((200..300).contains(&204));

    // Client error codes
    assert!((400..500).contains(&400));
    assert!((400..500).contains(&401));
    assert!((400..500).contains(&403));
    assert!((400..500).contains(&404));
    assert!((400..500).contains(&429));

    // Server error codes
    assert!((500..600).contains(&500));
    assert!((500..600).contains(&502));
    assert!((500..600).contains(&503));
}

#[test]
fn test_token_validation_response_categories() {
    // Test the logic for categorizing validation responses

    let test_cases = vec![
        (200, "success", true),       // Should accept
        (201, "success", true),       // Should accept
        (401, "unauthorized", false), // Should reject
        (403, "forbidden", false),    // Should reject
        (429, "rate_limit", true),    // Should warn but accept
        (500, "server_error", true),  // Should warn but accept
        (502, "bad_gateway", true),   // Should warn but accept
        (503, "unavailable", true),   // Should warn but accept
        (400, "bad_request", false),  // Should reject (unexpected)
        (404, "not_found", false),    // Should reject (unexpected)
    ];

    for (status, label, should_accept) in test_cases {
        let outcome = classify_validation_status(status);
        let accepted = !matches!(outcome, ValidationOutcome::Rejected);
        assert_eq!(
            accepted, should_accept,
            "Status {} ({}) classified wrongly",
            status, label
        );
    }
}

#[test]
fn test_code_verifier_length() {
    // PKCE spec requires 43-128 characters
    // Our implementation uses 128
    let verifier = generate_code_verifier();
    let verifier_length = verifier.len();

    assert_eq!(verifier_length, 128);
    assert!(
        verifier_length >= 43,
        "Code verifier must be at least 43 chars"
    );
    assert!(
        verifier_length <= 128,
        "Code verifier must be at most 128 chars"
    );
}

#[test]
fn test_code_verifier_character_set() {
    // PKCE allows unreserved characters: A-Z, a-z, 0-9, -, ., _, ~
    // Our implementation uses A-Z, a-z, 0-9

    let valid_chars = "ABCDEFGHIJKLMNOPQRSTUVWXYZabcdefghijklmnopqrstuvwxyz0123456789";

    for c in valid_chars.chars() {
        assert!(
            c.is_ascii_alphanumeric(),
            "Char {} should be alphanumeric",
            c
        );
    }

    let verifier = generate_code_verifier();
    for c in verifier.chars() {
        assert!(
            c.is_ascii_alphanumeric(),
            "Generated verifier char {} should be alphanumeric",
            c
        );
    }
}

#[test]
fn test_state_parameter_length() {
    // State should be long enough to prevent guessing
    // Our implementation: 32 random bytes, hex encoded = 64 chars
    let state = generate_state();
    let state_length = state.len();

    assert_eq!(state_length, 64);
    assert!(
        state_length >= 32,
        "State should have at least 32 chars for security"
    );
}

#[test]
fn test_security_fixes_are_documented() {
    // This test serves as documentation of what was fixed

    let fixes = [
        "Fix 1: Profile names preserve port numbers to prevent collisions",
        "Fix 2: OS random port fallback when preferred ports occupied",
        "Fix 3: HTTP allowed for localhost/127.0.0.1 development",
        "Fix 4: Token validation has 10-second timeout",
        "Fix 5: Scope validation prevents injection attacks",
        "Fix 6: client_id validation ensures valid URLs",
        "Fix 7: Token validation handles HTTP status codes correctly",
        "Fix 8: Port binding prevents race conditions",
    ];

    assert_eq!(fixes.len(), 8, "Should have 8 security fixes documented");
}

#[test]
fn test_validation_outcome_fixtures() {
    // The five literal fixture scenarios of the outcome table.
    assert_eq!(classify_validation_status(200), ValidationOutcome::Accepted);
    assert_eq!(classify_validation_status(401), ValidationOutcome::Rejected);
    assert_eq!(
        classify_validation_status(429),
        ValidationOutcome::AcceptedWithWarning(WarningReason::RateLimited)
    );
    assert_eq!(
        classify_validation_status(500),
        ValidationOutcome::AcceptedWithWarning(WarningReason::ServerError)
    );
    assert_eq!(classify_validation_status(404), ValidationOutcome::Rejected);
}

#[test]
fn test_loopback_requires_host_boundary() {
    // A name that merely begins with a loopback host is not loopback: after
    // the host only the end of the text, a port or a path may follow.
    let impostors = vec![
        "localhost.evil.com",
        "127.0.0.12",
        "127.0.0.10:8080",
        "http://localhost.evil.com",
        "https://127.0.0.12/x",
        "localhostx",
    ];
    for domain in impostors {
        assert!(
            !is_localhost_domain(domain),
            "Expected {} to NOT be detected as localhost",
            domain
        );
    }
    // Such a domain is requested over HTTPS like any other remote host.
    assert_eq!(
        normalize_domain("localhost.evil.com"),
        "https://localhost.evil.com"
    );
    assert_eq!(normalize_domain("127.0.0.12"), "https://127.0.0.12");

    // Properly delimited loopback forms stay loopback.
    assert!(is_localhost_domain("localhost/path"));
    assert!(is_localhost_domain("http://127.0.0.1:3000/cb"));
    assert_eq!(normalize_domain("localhost:3000"), "http://localhost:3000");
}
