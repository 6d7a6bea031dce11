use vstd::prelude::*;

use crate::crypto::{b64url_encode, b64url_of, random_bytes, sha256_digest, sha256_of};

verus! {

/// A PKCE verifier together with its S256 challenge.
///
/// The challenge is always the unpadded URL-safe base64 encoding of the
/// SHA-256 digest of the verifier's bytes; the pair is generated together
/// and used exactly once per login attempt.
#[derive(Debug, Clone)]
pub struct PkceCodes {
    pub code_verifier: String,
    pub code_challenge: String,
}

impl PkceCodes {
    /// The challenge is recomputable from the verifier by the S256 method.
    pub open spec fn wf(self) -> bool {
        &&& self.code_challenge@ == b64url_of(
            sha256_of(vstd::utf8::encode_utf8(self.code_verifier@)),
        )
        &&& 43 <= self.code_verifier@.len() <= 128
    }
}

/// Generates a fresh PKCE pair: the verifier is the unpadded URL-safe
/// base64 encoding of 64 random bytes (86 characters, within the allowed
/// 43..=128), and the challenge is the same encoding of the SHA-256
/// digest of the verifier's bytes.
pub fn generate_pkce() -> (codes: PkceCodes)
    ensures
        codes.wf(),
        codes.code_verifier@.len() == 86,
        codes.code_challenge@.len() == 43,
{
    let raw = random_bytes(64);
    let code_verifier = b64url_encode(raw.as_slice());
    let digest = sha256_digest(code_verifier.as_str().as_bytes());
    let code_challenge = b64url_encode(digest.as_slice());
    PkceCodes { code_verifier, code_challenge }
}

/// Generates an unguessable anti-forgery token for the `state` query
/// parameter: the unpadded URL-safe base64 encoding of 32 random bytes.
pub fn generate_state() -> (state: String)
    ensures
        state@.len() == 43,
{
    let raw = random_bytes(32);
    b64url_encode(raw.as_slice())
}

} // verus!
