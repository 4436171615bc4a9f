// Tests for PKCE material: the challenge derivation against the real hash
// and encoding, determinism, and collision-freedom over many samples.

use base64::Engine;
use micropub::pkce::{
    generate, generate_code_challenge, generate_code_verifier, generate_state,
};
use sha2::Digest;
use std::collections::HashSet;

#[test]
fn test_challenge_matches_known_value() {
    assert_eq!(
        generate_code_challenge("test"),
        "n4bQgYhMfWWaL-qgxVrQFaO_TxsrC4Is0V1sFbDwCgg"
    );
    let long = "a".repeat(128);
    assert_eq!(
        generate_code_challenge(&long),
        "aDbPE7rEAOkQUHHNavRwhN-srU5eMCyUv-0k4BOvtz4"
    );
}

#[test]
fn test_challenge_agrees_with_direct_derivation() {
    let verifier = generate_code_verifier();
    let digest = sha2::Sha256::digest(verifier.as_bytes());
    let expected = base64::engine::general_purpose::URL_SAFE_NO_PAD.encode(digest);
    assert_eq!(generate_code_challenge(&verifier), expected);
}

#[test]
fn test_challenge_is_deterministic() {
    let verifier = generate_code_verifier();
    let c1 = generate_code_challenge(&verifier);
    let c2 = generate_code_challenge(&verifier);
    assert_eq!(c1, c2);
    assert_eq!(c1.len(), 43);
}

#[test]
fn test_no_challenge_collisions_over_many_samples() {
    let mut seen: HashSet<String> = HashSet::new();
    for _ in 0..10_000 {
        let verifier = generate_code_verifier();
        let challenge = generate_code_challenge(&verifier);
        assert!(
            seen.insert(challenge),
            "two distinct verifiers produced the same challenge"
        );
    }
}

#[test]
fn test_generated_material_is_well_formed() {
    let m = generate();
    assert_eq!(m.verifier.len(), 128);
    assert_eq!(m.challenge, generate_code_challenge(&m.verifier));
}

#[test]
fn test_state_is_hex_and_independent() {
    let s1 = generate_state();
    let s2 = generate_state();
    assert_eq!(s1.len(), 64);
    assert!(s1.chars().all(|c| c.is_ascii_hexdigit()));
    assert_ne!(s1, s2, "two fresh CSRF values should differ");
}

#[test]
fn test_verifiers_differ_between_calls() {
    let v1 = generate_code_verifier();
    let v2 = generate_code_verifier();
    assert_ne!(v1, v2);
}

#[test]
fn test_code_challenge_method_is_s256() {
    assert_eq!(micropub::pkce::code_challenge_method(), "S256");
}
