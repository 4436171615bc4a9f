//! Pushing a local draft to the server as a server-side draft: the identifier
//! and status rules that guard the operation.

use vstd::prelude::*;

verus! {

/// What a successful push reports: the post's URL on the server, whether an
/// existing server draft was updated, and the media uploads that happened
/// (file name and resulting URL).
#[derive(Debug, Clone, PartialEq, Eq)]
pub struct PushResult {
    pub url: String,
    pub is_update: bool,
    pub uploads: Vec<(String, String)>,
}

/// Whether a character counts as alphanumeric for draft identifiers, as
/// `char::is_alphanumeric` decides it over the full Unicode range.
pub uninterp spec fn is_unicode_alnum(c: char) -> bool;

/// Relies on `char::is_alphanumeric`: a pure classification of the character.
#[verifier::external_body]
fn char_is_alphanumeric(c: char) -> (r: bool)
    ensures
        r == is_unicode_alnum(c),
{
    c.is_alphanumeric()
}

/// Why a draft identifier was rejected.
#[derive(Debug, Clone, Copy, PartialEq, Eq, Structural)]
pub enum DraftIdError {
    /// The identifier holds a NUL byte.
    NullByte,
    /// The identifier holds `..`, `/` or `\`, which could escape the drafts
    /// directory.
    PathTraversal,
    /// The identifier holds a character outside alphanumerics, hyphens and
    /// underscores.
    InvalidCharacters,
}

impl DraftIdError {
    /// The message shown for this rejection.
    pub fn message(&self) -> (r: &'static str)
        ensures
            match self {
                DraftIdError::NullByte => r@ == "Draft ID contains null byte"@,
                DraftIdError::PathTraversal => r@ == "Draft ID contains invalid path characters"@,
                DraftIdError::InvalidCharacters => r@
                    == "Draft ID must contain only alphanumeric characters, hyphens, and underscores"@,
            },
    {
        match self {
            DraftIdError::NullByte => "Draft ID contains null byte",
            DraftIdError::PathTraversal => "Draft ID contains invalid path characters",
            DraftIdError::InvalidCharacters => "Draft ID must contain only alphanumeric characters, hyphens, and underscores",
        }
    }
}

/// The identifier holds two consecutive dots somewhere.
pub open spec fn has_dot_dot(s: Seq<char>) -> bool {
    exists|i: int| 0 <= i && i + 1 < s.len() && #[trigger] s[i] == '.' && s[i + 1] == '.'
}

/// The verdict on a draft identifier: the checks run in the order NUL byte,
/// path traversal, character set; the first failing check names the error.
pub open spec fn draft_id_verdict(s: Seq<char>) -> Option<DraftIdError> {
    if exists|i: int| 0 <= i < s.len() && #[trigger] s[i] == '\0' {
        Some(DraftIdError::NullByte)
    } else if has_dot_dot(s) || (exists|i: int| 0 <= i < s.len() && (#[trigger] s[i] == '/' || s[i] == '\\')) {
        Some(DraftIdError::PathTraversal)
    } else if exists|i: int|
        0 <= i < s.len() && !(is_unicode_alnum(#[trigger] s[i]) || s[i] == '-' || s[i] == '_') {
        Some(DraftIdError::InvalidCharacters)
    } else {
        None
    }
}

/// Validate a draft identifier before it is used in a file path, rejecting
/// NUL bytes, path traversal and unexpected characters.
pub fn validate_draft_id(draft_id: &str) -> (r: Result<(), DraftIdError>)
    ensures
        match r {
            Ok(_) => draft_id_verdict(draft_id@) is None,
            Err(e) => draft_id_verdict(draft_id@) == Some(e),
        },
{
    let len = draft_id.unicode_len();
    for i in 0..len
        invariant
            len == draft_id@.len(),
            forall|j: int| 0 <= j < i ==> draft_id@[j] != '\0',
    {
        if draft_id.get_char(i) == '\0' {
            return Err(DraftIdError::NullByte);
        }
    }
    for i in 0..len
        invariant
            len == draft_id@.len(),
            forall|j: int| 0 <= j < len ==> draft_id@[j] != '\0',
            forall|j: int|
                0 <= j < i ==> !(j + 1 < len && #[trigger] draft_id@[j] == '.' && draft_id@[j + 1]
                    == '.'),
            forall|j: int| 0 <= j < i ==> draft_id@[j] != '/' && draft_id@[j] != '\\',
    {
        let c = draft_id.get_char(i);
        if c == '/' || c == '\\' {
            return Err(DraftIdError::PathTraversal);
        }
        if c == '.' && i + 1 < len {
            if draft_id.get_char(i + 1) == '.' {
                assert(has_dot_dot(draft_id@));
                return Err(DraftIdError::PathTraversal);
            }
        }
    }
    assert(!has_dot_dot(draft_id@)) by {
        if has_dot_dot(draft_id@) {
            let i = choose|i: int|
                0 <= i && i + 1 < draft_id@.len() && #[trigger] draft_id@[i] == '.' && draft_id@[i
                    + 1] == '.';
            assert(!(i + 1 < len && draft_id@[i] == '.' && draft_id@[i + 1] == '.'));
        }
    }
    for i in 0..len
        invariant
            len == draft_id@.len(),
            forall|j: int| 0 <= j < len ==> draft_id@[j] != '\0',
            !has_dot_dot(draft_id@),
            forall|j: int| 0 <= j < len ==> draft_id@[j] != '/' && draft_id@[j] != '\\',
            forall|j: int|
                0 <= j < i ==> (is_unicode_alnum(#[trigger] draft_id@[j]) || draft_id@[j] == '-'
                    || draft_id@[j] == '_'),
    {
        let c = draft_id.get_char(i);
        if !(char_is_alphanumeric(c) || c == '-' || c == '_') {
            return Err(DraftIdError::InvalidCharacters);
        }
    }
    Ok(())
}

/// The stored statuses under which a draft may be pushed as an update: a
/// server draft, a local draft, or no recorded status. A published post is
/// never overwritten by a push.
pub open spec fn pushable_status(status: Option<Seq<char>>) -> bool {
    match status {
        None => true,
        Some(s) => s == "server-draft"@ || s == "draft"@,
    }
}

/// Decide whether a draft with this recorded status may be pushed as an
/// update.
pub fn can_push_status(status: &Option<String>) -> (r: bool)
    ensures
        r == pushable_status(
            match status {
                Some(s) => Some(s@),
                None => None,
            },
        ),
{
    match status {
        None => true,
        Some(s) => crate::chars::str_eq(s.as_str(), "server-draft") || crate::chars::str_eq(
            s.as_str(),
            "draft",
        ),
    }
}

/// Relies on `uuid::Uuid::new_v4` and its `Display` form: a random version-4
/// UUID rendered in the hyphenated form, which is always 36 characters;
/// nothing else is promised of the random value.
#[verifier::external_body]
pub fn generate_draft_id() -> (r: String)
    ensures
        r@.len() == 36,
{
    uuid::Uuid::new_v4().to_string()
}

} // verus!
