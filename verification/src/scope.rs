//! Validation of the OAuth scope string requested during authentication.

use vstd::prelude::*;

verus! {

/// A character is allowed in a scope string if it is an ASCII letter, an
/// ASCII digit, a space, a hyphen or an underscore.
pub open spec fn is_scope_char(c: char) -> bool {
    ||| ('a' <= c && c <= 'z')
    ||| ('A' <= c && c <= 'Z')
    ||| ('0' <= c && c <= '9')
    ||| c == ' '
    ||| c == '-'
    ||| c == '_'
}

/// A scope string is valid when every character of it is allowed; the empty
/// string is valid.
pub open spec fn scope_is_valid(s: Seq<char>) -> bool {
    forall|i: int| 0 <= i < s.len() ==> is_scope_char(#[trigger] s[i])
}

fn scope_char_ok(c: char) -> (r: bool)
    ensures
        r == is_scope_char(c),
{
    ('a' <= c && c <= 'z') || ('A' <= c && c <= 'Z') || ('0' <= c && c <= '9') || c == ' '
        || c == '-' || c == '_'
}

/// Accept a requested scope string only if it contains nothing but ASCII
/// alphanumerics, spaces, hyphens and underscores, so that it can be embedded
/// in a request without risk of header or query injection.
pub fn validate_scope(scope: &str) -> (valid: bool)
    ensures
        valid == scope_is_valid(scope@),
{
    let len = scope.unicode_len();
    for i in 0..len
        invariant
            len == scope@.len(),
            forall|j: int| 0 <= j < i ==> is_scope_char(#[trigger] scope@[j]),
    {
        let c = scope.get_char(i);
        if !scope_char_ok(c) {
            return false;
        }
    }
    true
}

} // verus!
