//! PKCE material: the random code verifier, the S256 code challenge derived
//! from it, and the independent anti-CSRF state value.

use vstd::prelude::*;
use crate::chars::chars_to_string;
use base64::Engine;
use sha2::Digest;
use vstd::string::StringSliceAdditionalSpecFns;

verus! {

/// A character allowed in a code verifier: an ASCII letter or digit.
pub open spec fn is_verifier_char(c: char) -> bool {
    ('A' <= c && c <= 'Z') || ('a' <= c && c <= 'z') || ('0' <= c && c <= '9')
}

/// A lower-case hexadecimal digit.
pub open spec fn is_hex_char(c: char) -> bool {
    ('0' <= c && c <= '9') || ('a' <= c && c <= 'f')
}

/// The SHA-256 digest of a byte sequence, as computed by the `sha2` crate.
pub uninterp spec fn sha256_of(bytes: Seq<u8>) -> Seq<u8>;

/// The URL-safe, unpadded base64 encoding of a byte sequence, as computed by
/// the `base64` crate's `URL_SAFE_NO_PAD` engine.
pub uninterp spec fn b64url_no_pad_of(bytes: Seq<u8>) -> Seq<char>;

/// The S256 code challenge belonging to a verifier: the unpadded URL-safe
/// base64 encoding of the SHA-256 digest of the verifier's UTF-8 bytes.
pub open spec fn challenge_of(verifier: Seq<char>) -> Seq<char> {
    b64url_no_pad_of(sha256_of(vstd::utf8::encode_utf8(verifier)))
}

/// Law: the challenge derivation is a pure function of the verifier, so
/// deriving twice from the same verifier always yields the same challenge.
pub proof fn lemma_challenge_deterministic(v1: Seq<char>, v2: Seq<char>)
    requires
        v1 == v2,
    ensures
        challenge_of(v1) == challenge_of(v2),
{
}

/// Relies on `sha2::Sha256` through `Digest::digest`: a pure function of the
/// input bytes whose output is exactly 32 bytes.
#[verifier::external_body]
fn sha256_bytes(s: &str) -> (r: Vec<u8>)
    ensures
        r@ == sha256_of(s.spec_bytes()),
        r@.len() == 32,
{
    sha2::Sha256::digest(s.as_bytes()).to_vec()
}

/// Relies on `base64::Engine::encode` with the `URL_SAFE_NO_PAD` engine: a
/// pure function of the input bytes; without padding the encoding of `n`
/// bytes has exactly `ceil(4n/3)` characters.
#[verifier::external_body]
fn b64url_encode(bytes: &Vec<u8>) -> (r: String)
    ensures
        r@ == b64url_no_pad_of(bytes@),
        r@.len() == (bytes@.len() * 4 + 2) / 3,
{
    base64::engine::general_purpose::URL_SAFE_NO_PAD.encode(bytes.as_slice())
}

/// Relies on `rand::Rng::gen_range` over `0..62` on the thread-local secure
/// generator: the result always lies below 62; nothing else is promised of
/// the random value.
#[verifier::external_body]
fn random_alnum_index() -> (r: u8)
    ensures
        r < 62,
{
    rand::Rng::gen_range(&mut rand::thread_rng(), 0..62u8)
}

/// Relies on `rand::Rng::gen::<u8>` on the thread-local secure generator;
/// nothing is promised of the random value.
#[verifier::external_body]
fn random_byte() -> (r: u8) {
    rand::Rng::gen(&mut rand::thread_rng())
}

/// The alphanumeric alphabet the verifier draws from, indexed 0 to 61:
/// upper-case letters, then lower-case letters, then digits.
pub open spec fn alnum_char(i: nat) -> char
    recommends
        i < 62,
{
    if i < 26 {
        ('A' as u32 + i as u32) as char
    } else if i < 52 {
        ('a' as u32 + (i - 26) as u32) as char
    } else {
        ('0' as u32 + (i - 52) as u32) as char
    }
}

fn index_to_alnum(i: u8) -> (c: char)
    requires
        i < 62,
    ensures
        c == alnum_char(i as nat),
        is_verifier_char(c),
{
    if i < 26 {
        (('A' as u32) + (i as u32)) as u8 as char
    } else if i < 52 {
        (('a' as u32) + ((i - 26) as u32)) as u8 as char
    } else {
        (('0' as u32) + ((i - 52) as u32)) as u8 as char
    }
}

/// Number of characters in a generated code verifier.
pub const VERIFIER_LEN: usize = 128;

/// Generate a fresh PKCE code verifier: 128 characters drawn from the
/// 62-symbol alphanumeric alphabet.
pub fn generate_code_verifier() -> (r: String)
    ensures
        r@.len() == VERIFIER_LEN,
        forall|i: int| 0 <= i < r@.len() ==> is_verifier_char(#[trigger] r@[i]),
{
    let mut v: Vec<char> = Vec::new();
    for k in 0..VERIFIER_LEN
        invariant
            v@.len() == k,
            forall|i: int| 0 <= i < v@.len() ==> is_verifier_char(#[trigger] v@[i]),
    {
        let idx = random_alnum_index();
        v.push(index_to_alnum(idx));
    }
    chars_to_string(&v)
}

/// Derive the S256 code challenge from a verifier. The result is a pure
/// function of the verifier: deriving twice from the same verifier yields the
/// same challenge.
pub fn generate_code_challenge(verifier: &str) -> (r: String)
    ensures
        r@ == challenge_of(verifier@),
        r@.len() == 43,
{
    let digest = sha256_bytes(verifier);
    b64url_encode(&digest)
}

/// The challenge method transmitted alongside the challenge.
pub fn code_challenge_method() -> (r: &'static str)
    ensures
        r@ == "S256"@,
{
    "S256"
}

fn hex_digit(d: u8) -> (c: char)
    requires
        d < 16,
    ensures
        is_hex_char(c),
{
    if d < 10 {
        (('0' as u32) + (d as u32)) as u8 as char
    } else {
        (('a' as u32) + ((d - 10) as u32)) as u8 as char
    }
}

/// Number of hexadecimal characters in a generated CSRF state value
/// (32 random bytes, two digits each: 256 bits of entropy).
pub const STATE_LEN: usize = 64;

/// Generate the anti-CSRF state value: 32 random bytes, drawn independently
/// of the PKCE verifier, encoded as 64 lower-case hexadecimal characters.
pub fn generate_state() -> (r: String)
    ensures
        r@.len() == STATE_LEN,
        forall|i: int| 0 <= i < r@.len() ==> is_hex_char(#[trigger] r@[i]),
{
    let mut v: Vec<char> = Vec::new();
    for k in 0..32usize
        invariant
            v@.len() == 2 * k,
            forall|i: int| 0 <= i < v@.len() ==> is_hex_char(#[trigger] v@[i]),
    {
        let b = random_byte();
        v.push(hex_digit(b / 16));
        v.push(hex_digit(b % 16));
    }
    chars_to_string(&v)
}

/// The verifier/challenge pair for one authentication flow. The verifier
/// stays in the process; only the challenge is transmitted.
#[derive(Debug)]
pub struct PkceMaterial {
    pub verifier: String,
    pub challenge: String,
}

/// A well-formed PKCE pair: the verifier has the generated shape and the
/// challenge is exactly the S256 derivation of it.
pub open spec fn pkce_wf(m: PkceMaterial) -> bool {
    &&& m.verifier@.len() == VERIFIER_LEN
    &&& (forall|i: int| 0 <= i < m.verifier@.len() ==> is_verifier_char(#[trigger] m.verifier@[i]))
    &&& m.challenge@ == challenge_of(m.verifier@)
}

/// Generate a fresh verifier together with its challenge.
pub fn generate() -> (m: PkceMaterial)
    ensures
        pkce_wf(m),
{
    let verifier = generate_code_verifier();
    let challenge = generate_code_challenge(verifier.as_str());
    PkceMaterial { verifier, challenge }
}

} // verus!
