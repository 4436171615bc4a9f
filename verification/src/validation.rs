//! Classification of the token-validation probe's HTTP status, and the
//! handling of the code-for-token exchange response.

use vstd::prelude::*;

verus! {

/// Why a token could not be confirmed but is kept anyway.
#[derive(Debug, Clone, Copy, PartialEq, Eq, Structural)]
pub enum WarningReason {
    /// The endpoint answered 429: the token is plausibly valid, verification
    /// was rate limited.
    RateLimited,
    /// The endpoint answered 5xx: a temporary server fault is no ground to
    /// discard the token.
    ServerError,
}

/// The outcome of probing the content endpoint with the fresh token.
#[derive(Debug, Clone, Copy, PartialEq, Eq, Structural)]
pub enum ValidationOutcome {
    /// The endpoint accepted the token (2xx).
    Accepted,
    /// The endpoint could not confirm the token, but did not reject it.
    AcceptedWithWarning(WarningReason),
    /// The endpoint rejected the token (401, 403, or an unexpected status).
    Rejected,
}

/// The classification table for the probe's HTTP status: 2xx accepted;
/// 401 and 403 rejected; 429 kept with a rate-limit warning; 5xx kept with a
/// server-error warning; everything else rejected.
pub open spec fn validation_outcome_spec(status: u16) -> ValidationOutcome {
    if 200 <= status < 300 {
        ValidationOutcome::Accepted
    } else if status == 401 || status == 403 {
        ValidationOutcome::Rejected
    } else if status == 429 {
        ValidationOutcome::AcceptedWithWarning(WarningReason::RateLimited)
    } else if 500 <= status < 600 {
        ValidationOutcome::AcceptedWithWarning(WarningReason::ServerError)
    } else {
        ValidationOutcome::Rejected
    }
}

/// Classify the HTTP status of the token-validation probe.
pub fn classify_validation_status(status: u16) -> (r: ValidationOutcome)
    ensures
        r == validation_outcome_spec(status),
{
    if 200 <= status && status < 300 {
        ValidationOutcome::Accepted
    } else if status == 401 || status == 403 {
        ValidationOutcome::Rejected
    } else if status == 429 {
        ValidationOutcome::AcceptedWithWarning(WarningReason::RateLimited)
    } else if 500 <= status && status < 600 {
        ValidationOutcome::AcceptedWithWarning(WarningReason::ServerError)
    } else {
        ValidationOutcome::Rejected
    }
}

/// The string field a JSON document holds under a top-level key, as
/// `serde_json` reads it: `None` when the text is not valid JSON, the key is
/// absent, or its value is not a string.
pub uninterp spec fn json_str_field_of(body: Seq<char>, key: Seq<char>) -> Option<Seq<char>>;

/// Relies on `serde_json::from_str`, `serde_json::Value::get` and
/// `serde_json::Value::as_str`: parsing a document and reading a top-level
/// string field is a pure function of the body text and the key.
#[verifier::external_body]
pub fn json_string_field(body: &str, key: &str) -> (r: Option<String>)
    ensures
        match r {
            Some(v) => json_str_field_of(body@, key@) == Some(v@),
            None => json_str_field_of(body@, key@) is None,
        },
{
    let value: serde_json::Value = serde_json::from_str(body).ok()?;
    let field = value.get(key)?.as_str()?;
    Some(field.to_string())
}

/// Why the code-for-token exchange failed.
#[derive(Debug, Clone, PartialEq, Eq)]
pub enum ExchangeError {
    /// The request could not be made or answered.
    NetworkFailure,
    /// The token endpoint answered with a non-2xx status; the status and the
    /// body are kept verbatim for diagnosis.
    RequestFailed { status: u16, body: String },
    /// The endpoint answered 2xx but the body holds no `access_token` string.
    MalformedResponse,
}

/// Read the access token out of the token endpoint's response: a non-2xx
/// status fails with the status and body kept verbatim; a 2xx body must hold
/// a top-level `access_token` string.
pub fn parse_exchange_response(status: u16, body: &str) -> (r: Result<String, ExchangeError>)
    ensures
        match r {
            Ok(token) => 200 <= status < 300 && json_str_field_of(body@, "access_token"@) == Some(
                token@,
            ),
            Err(e) => match e {
                ExchangeError::RequestFailed { status: s, body: b } => !(200 <= status < 300) && s
                    == status && b@ == body@,
                ExchangeError::MalformedResponse => 200 <= status < 300 && json_str_field_of(
                    body@,
                    "access_token"@,
                ) is None,
                ExchangeError::NetworkFailure => false,
            },
        },
{
    if !(200 <= status && status < 300) {
        return Err(ExchangeError::RequestFailed { status, body: body.to_owned() });
    }
    match json_string_field(body, "access_token") {
        Some(token) => Ok(token),
        None => Err(ExchangeError::MalformedResponse),
    }
}

/// The form parameters of the code-for-token POST, in order.
pub open spec fn token_request_params_spec(
    code: Seq<char>,
    verifier: Seq<char>,
    redirect_uri: Seq<char>,
    client_id: Seq<char>,
) -> Seq<(Seq<char>, Seq<char>)> {
    seq![
        ("grant_type"@, "authorization_code"@),
        ("code"@, code),
        ("client_id"@, client_id),
        ("redirect_uri"@, redirect_uri),
        ("code_verifier"@, verifier),
    ]
}

/// Build the form parameters for the code-for-token exchange.
pub fn build_token_request_params(code: &str, verifier: &str, redirect_uri: &str, client_id: &str)
    -> (r: Vec<(String, String)>)
    ensures
        r.deep_view() == token_request_params_spec(code@, verifier@, redirect_uri@, client_id@),
{
    let mut v: Vec<(String, String)> = Vec::new();
    v.push(("grant_type".to_owned(), "authorization_code".to_owned()));
    v.push(("code".to_owned(), code.to_owned()));
    v.push(("client_id".to_owned(), client_id.to_owned()));
    v.push(("redirect_uri".to_owned(), redirect_uri.to_owned()));
    v.push(("code_verifier".to_owned(), verifier.to_owned()));
    assert(v.deep_view() =~~= token_request_params_spec(code@, verifier@, redirect_uri@, client_id@));
    v
}

/// Read the media endpoint out of the content endpoint's configuration
/// answer, when the query succeeded and the body names one.
pub fn media_endpoint_from_config(status: u16, body: &str) -> (r: Option<String>)
    ensures
        match r {
            Some(u) => 200 <= status < 300 && json_str_field_of(body@, "media-endpoint"@) == Some(
                u@,
            ),
            None => !(200 <= status < 300) || json_str_field_of(body@, "media-endpoint"@) is None,
        },
{
    if 200 <= status && status < 300 {
        json_string_field(body, "media-endpoint")
    } else {
        None
    }
}

} // verus!
