use vstd::prelude::*;

verus! {

/// Failure while parsing a compact identity token.
///
/// Parsing never yields a partial result: each way it can go wrong is
/// reported distinctly.
#[derive(Debug, Clone, Copy, PartialEq, Eq, Structural)]
pub enum TokenError {
    /// The token does not consist of exactly three dot-separated segments.
    InvalidJwt,
    /// The payload segment is not valid unpadded URL-safe base64.
    Base64Error,
    /// The decoded payload segment is not valid JSON.
    JsonError,
}

/// Failure of a credential-store or token-exchange operation.
#[derive(Debug, Clone, Copy, PartialEq, Eq, Structural)]
pub enum AuthError {
    /// Token data was requested while the credentials are in API-key mode.
    ApiKeyModeHasNoTokens,
    /// No authentication data is cached.
    NoAuthData,
    /// Authentication data is cached but holds no token set.
    NoTokens,
    /// The persisted credential file is not valid JSON, or a field in it
    /// has the wrong shape.
    ParseError,
    /// The identity token in a token response or in the persisted file
    /// could not be parsed.
    IdToken(TokenError),
    /// A token response lacks the required `access_token` field.
    MissingAccessToken,
    /// A token response lacks the required `id_token` field.
    MissingIdToken,
    /// A token response lacks a `refresh_token` and no prior one is
    /// available to fall back to.
    MissingRefreshToken,
    /// The issuer is not a well-formed URL.
    InvalidIssuerUrl,
}

} // verus!
