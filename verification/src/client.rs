//! The content-submission client's response shape and the rendering of its
//! error answers into actionable messages.

use vstd::prelude::*;
use crate::chars::{chars_to_string, push_str_chars, str_eq};

verus! {

/// What the content-submission endpoint answers: the location of a created
/// post on success, or an error code with an optional description.
#[derive(Debug, Clone, PartialEq, Eq)]
pub struct MicropubResponse {
    pub url: Option<String>,
    pub error: Option<String>,
    pub error_description: Option<String>,
}

/// The message shown for an error answer: the known error codes get specific
/// guidance, everything else a generic line; a missing code or description is
/// replaced by a fixed placeholder.
pub open spec fn error_message_spec(error: Option<Seq<char>>, description: Option<Seq<char>>)
    -> Seq<char> {
    let code = match error {
        Some(e) => e,
        None => "unknown_error"@,
    };
    let desc = match description {
        Some(d) => d,
        None => "No description provided"@,
    };
    if code == "insufficient_scope"@ {
        "Insufficient permissions: "@ + desc + "\n\nRe-authenticate with: micropub auth <domain>"@
    } else if code == "invalid_request"@ {
        "Invalid request: "@ + desc + "\n\nCheck your draft format and try again"@
    } else if code == "unauthorized"@ {
        "Unauthorized: "@ + desc
            + "\n\nYour token may be expired. Re-authenticate with: micropub auth <domain>"@
    } else {
        "Micropub error ("@ + code + "): "@ + desc
    }
}

/// Render an error answer into the message shown to the user.
pub fn format_error_message(error: &Option<String>, description: &Option<String>) -> (r: String)
    ensures
        r@ == error_message_spec(
            match error {
                Some(e) => Some(e@),
                None => None,
            },
            match description {
                Some(d) => Some(d@),
                None => None,
            },
        ),
{
    let code: &str = match error {
        Some(e) => e.as_str(),
        None => "unknown_error",
    };
    let desc: &str = match description {
        Some(d) => d.as_str(),
        None => "No description provided",
    };
    let mut out: Vec<char> = Vec::new();
    if str_eq(code, "insufficient_scope") {
        push_str_chars(&mut out, "Insufficient permissions: ");
        push_str_chars(&mut out, desc);
        push_str_chars(&mut out, "\n\nRe-authenticate with: micropub auth <domain>");
    } else if str_eq(code, "invalid_request") {
        push_str_chars(&mut out, "Invalid request: ");
        push_str_chars(&mut out, desc);
        push_str_chars(&mut out, "\n\nCheck your draft format and try again");
    } else if str_eq(code, "unauthorized") {
        push_str_chars(&mut out, "Unauthorized: ");
        push_str_chars(&mut out, desc);
        push_str_chars(
            &mut out,
            "\n\nYour token may be expired. Re-authenticate with: micropub auth <domain>",
        );
    } else {
        push_str_chars(&mut out, "Micropub error (");
        push_str_chars(&mut out, code);
        push_str_chars(&mut out, "): ");
        push_str_chars(&mut out, desc);
    }
    chars_to_string(&out)
}

} // verus!
