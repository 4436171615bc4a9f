//! The callback listener's protocol: parsing the redirect's query parameters,
//! classifying the request, and the write-once result cell semantics.

use vstd::prelude::*;
use crate::chars::{chars_to_string, push_str_chars};

verus! {

/// The result slot shared between the callback listener and the orchestrator.
/// It starts `Pending` and is written at most once with a terminal value.
#[derive(Debug, Clone, PartialEq, Eq)]
pub enum CallbackResult {
    /// No redirect carrying a usable result has arrived yet.
    Pending,
    /// The authorization server redirected back with a code.
    Success { code: String, state: String },
    /// The authorization server redirected back with an error.
    AuthorizationError { error: String, description: Option<String> },
}

impl CallbackResult {
    /// A terminal result ends the listener's life and may never be replaced.
    pub open spec fn is_terminal(&self) -> bool {
        !(self is Pending)
    }
}

/// The key/value pairs that `url::form_urlencoded::parse` decodes out of a
/// query string, in order.
pub uninterp spec fn query_params_of(q: Seq<char>) -> Seq<(Seq<char>, Seq<char>)>;

/// Relies on `url::form_urlencoded::parse`: decoding a query string into its
/// key/value pairs is a pure function of the text.
#[verifier::external_body]
pub fn parse_query_params(q: &str) -> (r: Vec<(String, String)>)
    ensures
        r.deep_view() == query_params_of(q@),
{
    url::form_urlencoded::parse(q.as_bytes()).into_owned().collect()
}

/// The value of the last pair carrying the wanted key. The redirect's
/// parameters are read the way a map built from them would answer: a repeated
/// key keeps its last value.
pub open spec fn last_for_key(ps: Seq<(Seq<char>, Seq<char>)>, key: Seq<char>) -> Option<Seq<char>>
    decreases ps.len(),
{
    if ps.len() == 0 {
        None
    } else if ps.last().0 == key {
        Some(ps.last().1)
    } else {
        last_for_key(ps.drop_last(), key)
    }
}

/// Find the last value for a key among decoded query parameters.
pub fn find_last_for_key(ps: &Vec<(String, String)>, key: &str) -> (r: Option<String>)
    ensures
        match r {
            Some(v) => last_for_key(ps.deep_view(), key@) == Some(v@),
            None => last_for_key(ps.deep_view(), key@) is None,
        },
{
    let ghost pv = ps.deep_view();
    let mut i: usize = ps.len();
    proof {
        assert(pv.take(i as int) =~~= pv);
    }
    while i > 0
        invariant
            i <= pv.len(),
            pv == ps.deep_view(),
            last_for_key(pv, key@) == last_for_key(pv.take(i as int), key@),
        decreases i,
    {
        let ghost pre = pv.take(i as int);
        proof {
            assert(pre.len() == i);
            assert(pre.last() == pv[i - 1]);
            assert(ps@[i - 1].deep_view() == pv[i - 1]);
            assert(pre.drop_last() =~~= pv.take(i - 1));
        }
        i = i - 1;
        if crate::chars::str_eq(ps[i].0.as_str(), key) {
            return Some(ps[i].1.clone());
        }
    }
    proof {
        assert(pv.take(0) =~~= Seq::<(Seq<char>, Seq<char>)>::empty());
    }
    None
}

/// What one inbound request to the callback endpoint means.
#[derive(Debug, Clone, PartialEq, Eq)]
pub enum CallbackRequest {
    /// The query carries `error` (and possibly `error_description`).
    Denied { error: String, description: Option<String> },
    /// The query carries both `code` and `state`.
    Granted { code: String, state: String },
    /// Anything else: answered with 400 and ignored.
    Invalid,
}

/// Classify the decoded query parameters of one inbound request: an `error`
/// parameter makes it a denial whatever else is present; otherwise both
/// `code` and `state` must be present for a grant; anything else is invalid.
pub fn classify_callback(params: &Vec<(String, String)>) -> (r: CallbackRequest)
    ensures
        ({
            let ps = params.deep_view();
            match r {
                CallbackRequest::Denied { error, description } => {
                    &&& last_for_key(ps, "error"@) == Some(error@)
                    &&& match description {
                        Some(d) => last_for_key(ps, "error_description"@) == Some(d@),
                        None => last_for_key(ps, "error_description"@) is None,
                    }
                },
                CallbackRequest::Granted { code, state } => {
                    &&& last_for_key(ps, "error"@) is None
                    &&& last_for_key(ps, "code"@) == Some(code@)
                    &&& last_for_key(ps, "state"@) == Some(state@)
                },
                CallbackRequest::Invalid => {
                    &&& last_for_key(ps, "error"@) is None
                    &&& (last_for_key(ps, "code"@) is None || last_for_key(ps, "state"@) is None)
                },
            }
        }),
{
    match find_last_for_key(params, "error") {
        Some(error) => {
            let description = find_last_for_key(params, "error_description");
            CallbackRequest::Denied { error, description }
        },
        None => {
            match (find_last_for_key(params, "code"), find_last_for_key(params, "state")) {
                (Some(code), Some(state)) => CallbackRequest::Granted { code, state },
                _ => CallbackRequest::Invalid,
            }
        },
    }
}

/// The HTML page answering a denied authorization, naming the error and its
/// description (or a fixed placeholder).
pub open spec fn failure_page_spec(error: Seq<char>, description: Seq<char>) -> Seq<char> {
    "<html><body><h1>Authentication Failed</h1><p>Error: "@ + error + "</p><p>"@ + description
        + "</p><p>You can close this window.</p></body></html>"@
}

/// The HTML page answering a successful authorization redirect.
pub open spec fn success_page_spec() -> Seq<char> {
    "<html><body><h1>Authentication Successful!</h1><p>You can close this window and return to the terminal.</p><script>window.close();</script></body></html>"@
}

/// The HTML page answering a request without usable parameters.
pub open spec fn invalid_page_spec() -> Seq<char> {
    "<html><body><h1>Invalid Callback</h1><p>Missing required parameters.</p></body></html>"@
}

/// How the listener answers one request and what it leaves in the result
/// cell.
pub struct CallbackResponse {
    pub status: u16,
    pub body: String,
    pub stored: CallbackResult,
}

/// Serve one inbound callback request against the current cell value: a
/// terminal cell is never overwritten; a pending cell takes the request's
/// terminal value, if it has one; an invalid request is answered with 400 and
/// stores nothing.
pub fn handle_callback_request(current: CallbackResult, request: CallbackRequest) -> (r:
    CallbackResponse)
    ensures
        current.is_terminal() ==> r.stored == current,
        !current.is_terminal() ==> match request {
            CallbackRequest::Denied { error, description } => r.stored
                == (CallbackResult::AuthorizationError { error, description }),
            CallbackRequest::Granted { code, state } => r.stored == (CallbackResult::Success {
                code,
                state,
            }),
            CallbackRequest::Invalid => r.stored == CallbackResult::Pending,
        },
        match request {
            CallbackRequest::Denied { error, description } => r.status == 200 && r.body@
                == failure_page_spec(
                error@,
                match description {
                    Some(d) => d@,
                    None => "Unknown error"@,
                },
            ),
            CallbackRequest::Granted { .. } => r.status == 200 && r.body@ == success_page_spec(),
            CallbackRequest::Invalid => r.status == 400 && r.body@ == invalid_page_spec(),
        },
{
    match request {
        CallbackRequest::Denied { error, description } => {
            let mut page: Vec<char> = Vec::new();
            push_str_chars(&mut page, "<html><body><h1>Authentication Failed</h1><p>Error: ");
            push_str_chars(&mut page, error.as_str());
            push_str_chars(&mut page, "</p><p>");
            match &description {
                Some(d) => push_str_chars(&mut page, d.as_str()),
                None => push_str_chars(&mut page, "Unknown error"),
            }
            push_str_chars(&mut page, "</p><p>You can close this window.</p></body></html>");
            let body = chars_to_string(&page);
            let pending = match &current {
                CallbackResult::Pending => true,
                _ => false,
            };
            let stored = if pending {
                CallbackResult::AuthorizationError { error, description }
            } else {
                current
            };
            CallbackResponse { status: 200, body, stored }
        },
        CallbackRequest::Granted { code, state } => {
            let body =
                "<html><body><h1>Authentication Successful!</h1><p>You can close this window and return to the terminal.</p><script>window.close();</script></body></html>".to_owned();
            let pending = match &current {
                CallbackResult::Pending => true,
                _ => false,
            };
            let stored = if pending {
                CallbackResult::Success { code, state }
            } else {
                current
            };
            CallbackResponse { status: 200, body, stored }
        },
        CallbackRequest::Invalid => {
            let body =
                "<html><body><h1>Invalid Callback</h1><p>Missing required parameters.</p></body></html>".to_owned();
            CallbackResponse { status: 400, body, stored: current }
        },
    }
}

/// Serve one raw query string against the current cell value: decode it,
/// classify it, and answer as `handle_callback_request` does.
pub fn serve_callback_query(current: CallbackResult, query: &str) -> (r: CallbackResponse)
    ensures
        current.is_terminal() ==> r.stored == current,
        ({
            let ps = query_params_of(query@);
            match last_for_key(ps, "error"@) {
                Some(e) => {
                    &&& r.status == 200
                    &&& r.body@ == failure_page_spec(
                        e,
                        match last_for_key(ps, "error_description"@) {
                            Some(d) => d,
                            None => "Unknown error"@,
                        },
                    )
                    &&& (!current.is_terminal() ==> match r.stored {
                        CallbackResult::AuthorizationError { error, description } => error@ == e
                            && (match description {
                            Some(d) => last_for_key(ps, "error_description"@) == Some(d@),
                            None => last_for_key(ps, "error_description"@) is None,
                        }),
                        _ => false,
                    })
                },
                None => {
                    if last_for_key(ps, "code"@) is Some && last_for_key(ps, "state"@) is Some {
                        r.status == 200 && r.body@ == success_page_spec() && (
                        !current.is_terminal() ==> match r.stored {
                            CallbackResult::Success { code, state } => last_for_key(ps, "code"@)
                                == Some(code@) && last_for_key(ps, "state"@) == Some(state@),
                            _ => false,
                        })
                    } else {
                        r.status == 400 && r.body@ == invalid_page_spec() && (
                        !current.is_terminal() ==> r.stored == CallbackResult::Pending)
                    }
                },
            }
        }),
{
    let params = parse_query_params(query);
    let request = classify_callback(&params);
    handle_callback_request(current, request)
}

/// The ports the listener tries first, in order, before falling back to an
/// ephemeral port assigned by the operating system.
pub fn candidate_ports() -> (r: Vec<u16>)
    ensures
        r@ == seq![8089u16, 8090u16, 8091u16, 8092u16, 8093u16],
{
    let mut v: Vec<u16> = Vec::new();
    v.push(8089);
    v.push(8090);
    v.push(8091);
    v.push(8092);
    v.push(8093);
    assert(v@ =~= seq![8089u16, 8090u16, 8091u16, 8092u16, 8093u16]);
    v
}

} // verus!
