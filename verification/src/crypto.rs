use vstd::prelude::*;

verus! {

/// The SHA-256 digest of a byte sequence: 32 bytes determined by the
/// input alone.
pub uninterp spec fn sha256_of(bytes: Seq<u8>) -> Seq<u8>;

/// Unpadded URL-safe base64 encoding of a byte sequence.
pub uninterp spec fn b64url_of(bytes: Seq<u8>) -> Seq<char>;

/// Unpadded URL-safe base64 decoding of a byte sequence: `None` exactly
/// on inputs that are not valid unpadded URL-safe base64.
pub uninterp spec fn b64url_decode_of(bytes: Seq<u8>) -> Option<Seq<u8>>;

/// Relies on rand's `thread_rng` and `RngCore::fill_bytes`: fills the
/// whole buffer with cryptographically secure random bytes. Nothing can
/// be promised of the values themselves.
#[verifier::external_body]
pub(crate) fn random_bytes(n: usize) -> (r: Vec<u8>)
    ensures
        r@.len() == n,
{
    let mut buf = vec![0u8; n];
    rand::RngCore::fill_bytes(&mut rand::thread_rng(), &mut buf);
    buf
}

/// Relies on sha2's `Sha256::digest`: a 32-byte digest that is a function
/// of the input alone.
#[verifier::external_body]
pub(crate) fn sha256_digest(bytes: &[u8]) -> (r: Vec<u8>)
    ensures
        r@ == sha256_of(bytes@),
        r@.len() == 32,
{
    <sha2::Sha256 as sha2::Digest>::digest(bytes).to_vec()
}

/// Relies on base64's `URL_SAFE_NO_PAD` engine: encodes with the URL-safe
/// alphabet and no padding, producing `4·⌈n/3⌉` characters with the
/// padding dropped, as a function of the input alone.
#[verifier::external_body]
pub(crate) fn b64url_encode(bytes: &[u8]) -> (r: String)
    ensures
        r@ == b64url_of(bytes@),
        r@.len() == (bytes@.len() * 4 + 2) / 3,
{
    base64::Engine::encode(&base64::engine::general_purpose::URL_SAFE_NO_PAD, bytes)
}

/// Relies on base64's `URL_SAFE_NO_PAD` engine: decoding is a function of
/// the input alone and fails exactly on inputs that are not valid
/// unpadded URL-safe base64.
#[verifier::external_body]
pub(crate) fn b64url_decode(bytes: &[u8]) -> (r: Option<Vec<u8>>)
    ensures
        r is Some <==> b64url_decode_of(bytes@) is Some,
        r matches Some(v) ==> b64url_decode_of(bytes@) == Some(v@),
{
    match base64::Engine::decode(&base64::engine::general_purpose::URL_SAFE_NO_PAD, bytes) {
        Ok(v) => Some(v),
        Err(_) => None,
    }
}

} // verus!
