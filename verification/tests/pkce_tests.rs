use codex_auth::pkce::{generate_pkce, generate_state};

#[test]
fn test_pkce_generation() {
    let codes = generate_pkce();

    // Verify length constraints
    assert!(codes.code_verifier.len() >= 43);
    assert!(codes.code_verifier.len() <= 128);
    assert!(codes.code_challenge.len() >= 32); // SHA256 base64 encoded

    // Verify challenge is derived from verifier
    let digest = <sha2::Sha256 as sha2::Digest>::digest(codes.code_verifier.as_bytes());
    let expected_challenge =
        base64::Engine::encode(&base64::engine::general_purpose::URL_SAFE_NO_PAD, digest);
    assert_eq!(codes.code_challenge, expected_challenge);
}

#[test]
fn pkce_verifier_encodes_64_bytes() {
    let codes = generate_pkce();
    assert_eq!(codes.code_verifier.len(), 86);
    assert_eq!(codes.code_challenge.len(), 43);
    let raw = base64::Engine::decode(
        &base64::engine::general_purpose::URL_SAFE_NO_PAD,
        codes.code_verifier.as_bytes(),
    )
    .expect("verifier must be valid unpadded url-safe base64");
    assert_eq!(raw.len(), 64);
}

#[test]
fn state_token_is_43_chars_of_base64() {
    let s = generate_state();
    assert_eq!(s.len(), 43);
    let raw = base64::Engine::decode(
        &base64::engine::general_purpose::URL_SAFE_NO_PAD,
        s.as_bytes(),
    )
    .expect("state must be valid unpadded url-safe base64");
    assert_eq!(raw.len(), 32);
}

#[test]
fn pkce_pairs_differ_between_attempts() {
    let a = generate_pkce();
    let b = generate_pkce();
    assert_ne!(a.code_verifier, b.code_verifier);
}
