use codex_auth::errors::{AuthError, TokenError};
use codex_auth::oauth_server::{
    begin_login, build_authorize_url, exchange_form, exchange_outcome_response, handle_request,
    parse_token_response, redirect_uri_for_port, refresh_form, response_for_action,
    save_failure_response, state_after_action, state_after_exchange, token_url, CallbackAction,
    LoginState, ServerOptions,
};

fn b64url(data: &[u8]) -> String {
    base64::Engine::encode(&base64::engine::general_purpose::URL_SAFE_NO_PAD, data)
}

fn make_jwt(payload: &str) -> String {
    let header = "{\"alg\":\"none\",\"typ\":\"JWT\"}";
    format!(
        "{}.{}.{}",
        b64url(header.as_bytes()),
        b64url(payload.as_bytes()),
        b64url(b"sig")
    )
}

#[test]
fn server_options_defaults() {
    let opts = ServerOptions::new("/home/u/.codex".to_string(), "client-1".to_string());
    assert_eq!(opts.codex_home, "/home/u/.codex");
    assert_eq!(opts.client_id, "client-1");
    assert_eq!(opts.issuer, "https://auth.openai.com");
    assert_eq!(opts.port, 1455);
    assert!(opts.open_browser);
    assert!(opts.login_timeout.is_none());
}

#[test]
fn redirect_uri_renders_port() {
    assert_eq!(redirect_uri_for_port(1455), "http://127.0.0.1:1455/callback");
    assert_eq!(redirect_uri_for_port(7), "http://127.0.0.1:7/callback");
    assert_eq!(
        redirect_uri_for_port(65535),
        "http://127.0.0.1:65535/callback"
    );
}

#[test]
fn authorize_url_matches_url_crate() {
    let issuer = "https://auth.example.com";
    let client_id = "client 1";
    let redirect_uri = "http://127.0.0.1:1455/callback";
    let state = "st-42";
    let challenge = "ch_42";
    let built = build_authorize_url(issuer, client_id, redirect_uri, state, challenge).unwrap();

    let mut expected = url::Url::parse(&format!("{}/authorize", issuer)).unwrap();
    expected
        .query_pairs_mut()
        .append_pair("response_type", "code")
        .append_pair("client_id", client_id)
        .append_pair("redirect_uri", redirect_uri)
        .append_pair("scope", "openid email")
        .append_pair("state", state)
        .append_pair("code_challenge", challenge)
        .append_pair("code_challenge_method", "S256");
    assert_eq!(built, expected.to_string());
}

#[test]
fn authorize_url_exact_text() {
    let built = build_authorize_url(
        "https://auth.example.com",
        "cid",
        "http://127.0.0.1:1455/callback",
        "st",
        "ch",
    )
    .unwrap();
    assert_eq!(
        built,
        "https://auth.example.com/authorize?response_type=code&client_id=cid\
         &redirect_uri=http%3A%2F%2F127.0.0.1%3A1455%2Fcallback&scope=openid+email\
         &state=st&code_challenge=ch&code_challenge_method=S256"
    );
}

#[test]
fn authorize_url_rejects_bad_issuer() {
    let r = build_authorize_url("not a url", "cid", "r", "s", "c");
    assert_eq!(r, Err(AuthError::InvalidIssuerUrl));
}

#[test]
fn begin_login_produces_consistent_attempt() {
    let opts = ServerOptions::new("/h".to_string(), "cid".to_string());
    let (attempt, auth_url) = begin_login(&opts).unwrap();
    assert_eq!(attempt.issuer, "https://auth.openai.com");
    assert_eq!(attempt.client_id, "cid");
    assert_eq!(attempt.redirect_uri, "http://127.0.0.1:1455/callback");
    assert_eq!(attempt.state.len(), 43);
    // the challenge in the URL is the S256 challenge of the verifier
    let digest = <sha2::Sha256 as sha2::Digest>::digest(attempt.pkce.code_verifier.as_bytes());
    let challenge = b64url(&digest);
    assert_eq!(attempt.pkce.code_challenge, challenge);
    assert!(auth_url.starts_with(
        "https://auth.openai.com/authorize?response_type=code&client_id=cid&redirect_uri="
    ));
    assert!(auth_url.contains(&format!("&state={}", attempt.state)));
    assert!(auth_url.contains(&format!("&code_challenge={}", challenge)));
    assert!(auth_url.ends_with("&code_challenge_method=S256"));
}

#[test]
fn non_callback_path_keeps_listening() {
    let action = handle_request("good", "/");
    assert_eq!(action, CallbackAction::ServeWaitingPage);
    assert_eq!(state_after_action(&action), LoginState::Listening);
}

#[test]
fn error_parameter_fails_attempt() {
    let action = handle_request("good", "/callback?error=access_denied");
    assert_eq!(
        action,
        CallbackAction::FailOauthError("access_denied".to_string())
    );
    assert_eq!(state_after_action(&action), LoginState::Failure);
}

#[test]
fn state_mismatch_fails_without_exchange() {
    let action = handle_request("good", "/callback?code=abc&state=bad");
    assert_eq!(action, CallbackAction::FailInvalidState);
    assert_eq!(state_after_action(&action), LoginState::Failure);
}

#[test]
fn missing_state_counts_as_mismatch() {
    let action = handle_request("good", "/callback?code=abc");
    assert_eq!(action, CallbackAction::FailInvalidState);
}

#[test]
fn matching_state_without_code_keeps_listening() {
    let action = handle_request("good", "/callback?state=good");
    assert_eq!(action, CallbackAction::ServeWaitingPage);
    assert_eq!(state_after_action(&action), LoginState::Listening);
}

#[test]
fn matching_state_with_code_exchanges() {
    let action = handle_request("good", "/callback?code=abc&state=good");
    assert_eq!(action, CallbackAction::ExchangeCode("abc".to_string()));
    assert_eq!(state_after_exchange(true), LoginState::Success);
    assert_eq!(state_after_exchange(false), LoginState::Failure);
}

#[test]
fn query_values_are_form_decoded() {
    let action = handle_request("a b/c", "/callback?state=a+b%2Fc&code=x%41");
    assert_eq!(action, CallbackAction::ExchangeCode("xA".to_string()));
}

#[test]
fn repeated_parameter_last_occurrence_wins() {
    let action = handle_request("good", "/callback?state=bad&state=good&code=c");
    assert_eq!(action, CallbackAction::ExchangeCode("c".to_string()));
}

#[test]
fn invalid_utf8_in_code_is_replaced() {
    let action = handle_request("s", "/callback?state=s&code=%FF");
    assert_eq!(action, CallbackAction::ExchangeCode("\u{FFFD}".to_string()));
}

#[test]
fn error_takes_precedence_over_state_check() {
    let action = handle_request("good", "/callback?error=nope&state=bad&code=c");
    assert_eq!(action, CallbackAction::FailOauthError("nope".to_string()));
}

#[test]
fn bare_callback_without_query_is_a_state_mismatch() {
    assert_eq!(handle_request("s", "/callback"), CallbackAction::FailInvalidState);
}

#[test]
fn response_pages() {
    let (status, body) = response_for_action(&CallbackAction::ServeWaitingPage).unwrap();
    assert_eq!(status, 200);
    assert!(body.contains("Waiting for authentication"));

    let (status, body) =
        response_for_action(&CallbackAction::FailOauthError("boom".to_string())).unwrap();
    assert_eq!(status, 400);
    assert!(body.contains("Error: boom"));

    let (status, body) = response_for_action(&CallbackAction::FailInvalidState).unwrap();
    assert_eq!(status, 400);
    assert!(body.contains("Invalid state parameter"));

    assert!(response_for_action(&CallbackAction::ExchangeCode("c".to_string())).is_none());

    let (status, body) = exchange_outcome_response(true, "");
    assert_eq!(status, 200);
    assert!(body.contains("Authentication Successful"));

    let (status, body) = exchange_outcome_response(false, "bad code");
    assert_eq!(status, 500);
    assert!(body.contains("Error: bad code"));

    let (status, body) = save_failure_response();
    assert_eq!(status, 500);
    assert!(body.contains("Failed to save tokens"));
}

#[test]
fn token_endpoint_url() {
    assert_eq!(token_url("https://auth.openai.com"), "https://auth.openai.com/token");
}

#[test]
fn exchange_form_fields() {
    let opts = ServerOptions::new("/h".to_string(), "cid".to_string());
    let (attempt, _) = begin_login(&opts).unwrap();
    let params = exchange_form("the-code", &attempt.pkce, "cid", &attempt.redirect_uri);
    assert_eq!(params.len(), 5);
    assert_eq!(params[0], ("grant_type".to_string(), "authorization_code".to_string()));
    assert_eq!(params[1], ("client_id".to_string(), "cid".to_string()));
    assert_eq!(params[2], ("code".to_string(), "the-code".to_string()));
    assert_eq!(
        params[3],
        ("redirect_uri".to_string(), "http://127.0.0.1:1455/callback".to_string())
    );
    assert_eq!(
        params[4],
        ("code_verifier".to_string(), attempt.pkce.code_verifier.clone())
    );
}

#[test]
fn refresh_form_fields() {
    let params = refresh_form("tok", "cid");
    assert_eq!(params.len(), 3);
    assert_eq!(params[0], ("grant_type".to_string(), "refresh_token".to_string()));
    assert_eq!(params[1], ("client_id".to_string(), "cid".to_string()));
    assert_eq!(params[2], ("refresh_token".to_string(), "tok".to_string()));
}

#[test]
fn token_response_parses_complete_body() {
    let jwt = make_jwt("{\"email\":\"a@b.com\"}");
    let body = format!(
        "{{\"access_token\":\"acc\",\"refresh_token\":\"ref\",\"id_token\":\"{}\"}}",
        jwt
    );
    let t = parse_token_response(body.as_bytes(), None).unwrap();
    assert_eq!(t.access_token, "acc");
    assert_eq!(t.refresh_token, "ref");
    assert_eq!(t.id_token.raw_jwt, jwt);
    assert_eq!(t.id_token.email, Some("a@b.com".to_string()));
    assert_eq!(t.account_id, None);
}

#[test]
fn token_response_requires_access_token() {
    let jwt = make_jwt("{}");
    let body = format!("{{\"refresh_token\":\"ref\",\"id_token\":\"{}\"}}", jwt);
    assert_eq!(
        parse_token_response(body.as_bytes(), None),
        Err(AuthError::MissingAccessToken)
    );
}

#[test]
fn token_response_requires_refresh_token_on_initial_exchange() {
    let jwt = make_jwt("{}");
    let body = format!("{{\"access_token\":\"acc\",\"id_token\":\"{}\"}}", jwt);
    assert_eq!(
        parse_token_response(body.as_bytes(), None),
        Err(AuthError::MissingRefreshToken)
    );
}

#[test]
fn token_response_falls_back_to_prior_refresh_token() {
    let jwt = make_jwt("{}");
    let body = format!("{{\"access_token\":\"acc\",\"id_token\":\"{}\"}}", jwt);
    let t = parse_token_response(body.as_bytes(), Some("old-refresh".to_string())).unwrap();
    assert_eq!(t.refresh_token, "old-refresh");
}

#[test]
fn token_response_requires_id_token() {
    let body = "{\"access_token\":\"acc\",\"refresh_token\":\"ref\"}";
    assert_eq!(
        parse_token_response(body.as_bytes(), None),
        Err(AuthError::MissingIdToken)
    );
}

#[test]
fn token_response_rejects_malformed_body() {
    assert_eq!(
        parse_token_response(b"not json", None),
        Err(AuthError::ParseError)
    );
}

#[test]
fn token_response_rejects_malformed_id_token() {
    let body = "{\"access_token\":\"acc\",\"refresh_token\":\"ref\",\"id_token\":\"x.y\"}";
    assert_eq!(
        parse_token_response(body.as_bytes(), None),
        Err(AuthError::IdToken(TokenError::InvalidJwt))
    );
}
