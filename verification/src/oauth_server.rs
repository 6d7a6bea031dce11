use vstd::prelude::*;
use vstd::string::StringExecFns;
use vstd::string::StringSliceAdditionalSpecFns;

use crate::errors::AuthError;
use crate::crypto::b64url_decode_of;
use crate::jsonval::{json_is_valid, json_parse_ok, json_str_field, json_str_field_of};
use crate::pkce::{generate_pkce, generate_state, PkceCodes};
use crate::query::{query_param, spec_query_param};
use crate::strutil::{bytes_eq, find_byte_from, find_from, str_bytes};
use crate::token_data::{
    id_token_parse_err, id_token_payload, parse_id_token, spec_id_claims_ok, TokenData,
};
use crate::urlenc::{
    ascii_chars, bytes_to_string_lossy, dec_digits, enc_chars, form_urlencode, u16_to_string,
    utf8_lossy_of,
};

verus! {

/// Issuer used when none is configured.
pub const DEFAULT_ISSUER: &'static str = "https://auth.openai.com";

/// Port of the local redirect endpoint when none is configured.
pub const DEFAULT_PORT: u16 = 1455;

/// Configuration of one login attempt.
#[derive(Debug, Clone)]
pub struct ServerOptions {
    pub codex_home: String,
    pub client_id: String,
    pub issuer: String,
    pub port: u16,
    pub open_browser: bool,
    /// Optional bound on the wait, in milliseconds; `None` waits forever.
    pub login_timeout: Option<u64>,
}

impl ServerOptions {
    /// Options with the default issuer and port, browser opening on and
    /// no timeout.
    pub fn new(codex_home: String, client_id: String) -> (opts: ServerOptions)
        ensures
            opts.codex_home@ == codex_home@,
            opts.client_id@ == client_id@,
            opts.issuer@ == "https://auth.openai.com"@,
            opts.port == 1455,
            opts.open_browser == true,
            opts.login_timeout is None,
    {
        ServerOptions {
            codex_home,
            client_id,
            issuer: DEFAULT_ISSUER.to_owned(),
            port: DEFAULT_PORT,
            open_browser: true,
            login_timeout: None,
        }
    }
}

/// The secrets and parameters of one login attempt, alive only until the
/// attempt reaches a terminal state.
#[derive(Debug, Clone)]
pub struct LoginAttempt {
    /// Unguessable anti-forgery token round-tripped through the redirect.
    pub state: String,
    pub pkce: PkceCodes,
    pub redirect_uri: String,
    pub issuer: String,
    pub client_id: String,
}

/// State of the one-shot callback listener.
#[derive(Debug, Clone, Copy, PartialEq, Eq, Structural)]
pub enum LoginState {
    Listening,
    Success,
    Failure,
    Cancelled,
}

/// What to do with one incoming request on the callback endpoint.
#[derive(Debug, Clone, PartialEq, Eq)]
pub enum CallbackAction {
    /// Serve the waiting page and keep listening.
    ServeWaitingPage,
    /// The provider reported an error: respond 400 and fail the attempt.
    FailOauthError(String),
    /// The state parameter does not match the attempt: respond 400 and
    /// fail the attempt without any token exchange.
    FailInvalidState,
    /// State matched and a code is present: exchange it for tokens.
    ExchangeCode(String),
}

/// Ghost classification of a callback request, used by the contracts.
#[derive(Debug, Clone, Copy, PartialEq, Eq, Structural)]
pub enum CallbackDecision {
    Waiting,
    FailError,
    FailState,
    Exchange,
}

/// The path part of a request URL: everything before the first `?`.
pub open spec fn spec_req_path(u: Seq<u8>) -> Seq<u8> {
    u.take(find_from(u, 63u8, 0))
}

/// The query part of a request URL: everything after the first `?`, or
/// empty when there is none.
pub open spec fn spec_req_query(u: Seq<u8>) -> Seq<u8> {
    if find_from(u, 63u8, 0) == u.len() {
        Seq::empty()
    } else {
        u.skip(find_from(u, 63u8, 0) + 1)
    }
}

/// Whether the request is addressed to the callback endpoint.
pub open spec fn cb_is_callback(u: Seq<u8>) -> bool {
    spec_req_path(u) == "/callback".spec_bytes()
}

/// The decoded `error` parameter of the request, if any.
pub open spec fn cb_error(u: Seq<u8>) -> Option<Seq<u8>> {
    spec_query_param(spec_req_query(u), "error".spec_bytes())
}

/// The decoded `state` parameter of the request, if any.
pub open spec fn cb_state(u: Seq<u8>) -> Option<Seq<u8>> {
    spec_query_param(spec_req_query(u), "state".spec_bytes())
}

/// The decoded `code` parameter of the request, if any.
pub open spec fn cb_code(u: Seq<u8>) -> Option<Seq<u8>> {
    spec_query_param(spec_req_query(u), "code".spec_bytes())
}

/// How the listener reacts to a request, given the request URL bytes and
/// the attempt's expected state: requests outside `/callback` and
/// code-less callbacks keep it waiting; an `error` parameter fails it; a
/// state mismatch fails it before any exchange is considered; otherwise
/// the code is exchanged.
pub open spec fn spec_callback_decision(u: Seq<u8>, expected: Seq<u8>) -> CallbackDecision {
    if !cb_is_callback(u) {
        CallbackDecision::Waiting
    } else if cb_error(u) is Some {
        CallbackDecision::FailError
    } else if cb_state(u) != Some(expected) {
        CallbackDecision::FailState
    } else if cb_code(u) is None {
        CallbackDecision::Waiting
    } else {
        CallbackDecision::Exchange
    }
}

/// Decides how to answer one incoming request while listening, following
/// `spec_callback_decision` on the request URL and the attempt's state.
pub fn handle_request(expected_state: &str, request_url: &str) -> (action: CallbackAction)
    ensures
        match spec_callback_decision(request_url.spec_bytes(), expected_state.spec_bytes()) {
            CallbackDecision::Waiting => action is ServeWaitingPage,
            CallbackDecision::FailError => cb_error(request_url.spec_bytes()) matches Some(e) && (
            action matches CallbackAction::FailOauthError(m) && m@ == utf8_lossy_of(e)),
            CallbackDecision::FailState => action is FailInvalidState,
            CallbackDecision::Exchange => cb_code(request_url.spec_bytes()) matches Some(c) && (
            action matches CallbackAction::ExchangeCode(s) && s@ == utf8_lossy_of(c)),
        },
{
    let u = request_url.as_bytes();
    let n = u.len();
    let qpos = find_byte_from(u, 63u8, 0);
    let path = vstd::slice::slice_subrange(u, 0, qpos);
    proof {
        assert(path@ =~= spec_req_path(u@));
    }
    if !bytes_eq(path, "/callback".as_bytes()) {
        return CallbackAction::ServeWaitingPage;
    }
    let qstart = if qpos == n {
        qpos
    } else {
        qpos + 1
    };
    let query = vstd::slice::slice_subrange(u, qstart, n);
    proof {
        if qpos == n {
            assert(query@ =~= spec_req_query(u@));
        } else {
            assert(query@ =~= u@.skip(qpos + 1));
        }
    }
    if let Some(e) = query_param(query, "error".as_bytes()) {
        return CallbackAction::FailOauthError(bytes_to_string_lossy(e.as_slice()));
    }
    let state_ok = match query_param(query, "state".as_bytes()) {
        Some(v) => bytes_eq(v.as_slice(), expected_state.as_bytes()),
        None => false,
    };
    if !state_ok {
        return CallbackAction::FailInvalidState;
    }
    match query_param(query, "code".as_bytes()) {
        Some(c) => CallbackAction::ExchangeCode(bytes_to_string_lossy(c.as_slice())),
        None => CallbackAction::ServeWaitingPage,
    }
}

/// A state mismatch on a callback request always decides failure, and in
/// particular never decides the token exchange.
pub proof fn lemma_state_mismatch_never_exchanges(u: Seq<u8>, expected: Seq<u8>)
    requires
        cb_is_callback(u),
        cb_error(u) is None,
        cb_state(u) != Some(expected),
    ensures
        spec_callback_decision(u, expected) == CallbackDecision::FailState,
        spec_callback_decision(u, expected) != CallbackDecision::Exchange,
{
}

/// The listener state after answering a request: failures are terminal,
/// everything short of an exchange keeps listening.
pub fn state_after_action(action: &CallbackAction) -> (s: LoginState)
    ensures
        action is ServeWaitingPage ==> s is Listening,
        action is FailOauthError ==> s is Failure,
        action is FailInvalidState ==> s is Failure,
        action is ExchangeCode ==> s is Listening,
{
    match action {
        CallbackAction::ServeWaitingPage => LoginState::Listening,
        CallbackAction::FailOauthError(_) => LoginState::Failure,
        CallbackAction::FailInvalidState => LoginState::Failure,
        CallbackAction::ExchangeCode(_) => LoginState::Listening,
    }
}

/// The listener state after the token exchange that an `ExchangeCode`
/// action triggered: success ends the attempt, failure fails it.
pub fn state_after_exchange(exchange_and_save_ok: bool) -> (s: LoginState)
    ensures
        s == (if exchange_and_save_ok {
            LoginState::Success
        } else {
            LoginState::Failure
        }),
{
    if exchange_and_save_ok {
        LoginState::Success
    } else {
        LoginState::Failure
    }
}

/// The HTTP reply to a request that is answered at once: the waiting
/// page for requests that keep the listener going, a 400 page for the
/// two failures. An exchange is answered only after the exchange ran,
/// by `exchange_outcome_response`.
pub fn response_for_action(action: &CallbackAction) -> (r: Option<(u16, String)>)
    ensures
        action is ServeWaitingPage ==> (r matches Some(p) && p.0 == 200 && p.1@
            == "<html><body><h1>Codexia Authentication</h1><p>Waiting for authentication...</p></body></html>"@),
        action matches CallbackAction::FailOauthError(e) ==> (r matches Some(p) && p.0 == 400
            && p.1@ == "<html><body><h1>Authentication Failed</h1><p>Error: "@ + e@
            + "</p></body></html>"@),
        action is FailInvalidState ==> (r matches Some(p) && p.0 == 400 && p.1@
            == "<html><body><h1>Authentication Failed</h1><p>Invalid state parameter</p></body></html>"@),
        action is ExchangeCode ==> r is None,
{
    match action {
        CallbackAction::ServeWaitingPage => Some(
            (
                200,
                (
                "<html><body><h1>Codexia Authentication</h1><p>Waiting for authentication...</p></body></html>").to_owned(),
            ),
        ),
        CallbackAction::FailOauthError(e) => {
            let mut body = ("<html><body><h1>Authentication Failed</h1><p>Error: ").to_owned();
            body.append(e.as_str());
            body.append("</p></body></html>");
            Some((400, body))
        },
        CallbackAction::FailInvalidState => Some(
            (
                400,
                (
                "<html><body><h1>Authentication Failed</h1><p>Invalid state parameter</p></body></html>").to_owned(),
            ),
        ),
        CallbackAction::ExchangeCode(_) => None,
    }
}

/// The HTTP reply once the token exchange that an `ExchangeCode` action
/// triggered has run: the success page, or a 500 page with the error.
pub fn exchange_outcome_response(ok: bool, error_msg: &str) -> (r: (u16, String))
    ensures
        ok ==> r.0 == 200 && r.1@
            == "<html><body><h1>Authentication Successful!</h1><p>You can now close this window and return to Codexia.</p></body></html>"@,
        !ok ==> r.0 == 500 && r.1@ == "<html><body><h1>Authentication Failed</h1><p>Error: "@
            + error_msg@ + "</p></body></html>"@,
{
    if ok {
        (
            200,
            (
            "<html><body><h1>Authentication Successful!</h1><p>You can now close this window and return to Codexia.</p></body></html>").to_owned(),
        )
    } else {
        let mut body = ("<html><body><h1>Authentication Failed</h1><p>Error: ").to_owned();
        body.append(error_msg);
        body.append("</p></body></html>");
        (500, body)
    }
}

/// The HTTP reply when tokens were obtained but could not be persisted.
pub fn save_failure_response() -> (r: (u16, String))
    ensures
        r.0 == 500,
        r.1@
            == "<html><body><h1>Authentication Failed</h1><p>Failed to save tokens</p></body></html>"@,
{
    (
        500,
        (
        "<html><body><h1>Authentication Failed</h1><p>Failed to save tokens</p></body></html>").to_owned(),
    )
}

/// The local redirect endpoint for a port.
pub open spec fn spec_redirect_uri(port: u16) -> Seq<char> {
    "http://127.0.0.1:"@ + ascii_chars(dec_digits(port as nat)) + "/callback"@
}

/// Builds the redirect URI for the local callback endpoint on a port.
pub fn redirect_uri_for_port(port: u16) -> (r: String)
    ensures
        r@ == spec_redirect_uri(port),
{
    let mut s = ("http://127.0.0.1:").to_owned();
    s.append(u16_to_string(port).as_str());
    s.append("/callback");
    s
}

/// The provider authorization URL: `{issuer}/authorize` with the fixed
/// response type, the client id, redirect URI, scope, state and PKCE
/// challenge as www-form-urlencoded query parameters, and the S256
/// challenge method.
pub open spec fn spec_authorize_url(
    issuer: Seq<char>,
    client_id: Seq<u8>,
    redirect_uri: Seq<u8>,
    state_tok: Seq<u8>,
    challenge: Seq<u8>,
) -> Seq<char> {
    issuer + "/authorize"@ + "?response_type=code"@ + "&client_id="@ + enc_chars(client_id)
        + "&redirect_uri="@ + enc_chars(redirect_uri) + "&scope="@ + enc_chars(
        "openid email".spec_bytes(),
    ) + "&state="@ + enc_chars(state_tok) + "&code_challenge="@ + enc_chars(challenge)
        + "&code_challenge_method=S256"@
}

/// Whether `url::Url::parse` accepts a string: a function of the string
/// alone.
pub uninterp spec fn url_parse_ok(s: Seq<char>) -> bool;

/// Relies on `url::Url::parse`: whether a string is a well-formed URL is
/// a function of the string alone.
#[verifier::external_body]
pub(crate) fn is_valid_url(s: &str) -> (r: bool)
    ensures
        r == url_parse_ok(s@),
{
    url::Url::parse(s).is_ok()
}

/// Composes the provider authorization URL. Pure function of its inputs;
/// fails exactly when the issuer does not give a well-formed
/// `{issuer}/authorize` URL.
pub fn build_authorize_url(
    issuer: &str,
    client_id: &str,
    redirect_uri: &str,
    state_tok: &str,
    code_challenge: &str,
) -> (r: Result<String, AuthError>)
    ensures
        r is Ok <==> url_parse_ok(issuer@ + "/authorize"@),
        r matches Ok(u) ==> u@ == spec_authorize_url(
            issuer@,
            client_id.spec_bytes(),
            redirect_uri.spec_bytes(),
            state_tok.spec_bytes(),
            code_challenge.spec_bytes(),
        ),
{
    let mut base = issuer.to_owned();
    base.append("/authorize");
    if !is_valid_url(base.as_str()) {
        return Err(AuthError::InvalidIssuerUrl);
    }
    let mut u = base;
    u.append("?response_type=code");
    u.append("&client_id=");
    u.append(form_urlencode(client_id).as_str());
    u.append("&redirect_uri=");
    u.append(form_urlencode(redirect_uri).as_str());
    u.append("&scope=");
    u.append(form_urlencode("openid email").as_str());
    u.append("&state=");
    u.append(form_urlencode(state_tok).as_str());
    u.append("&code_challenge=");
    u.append(form_urlencode(code_challenge).as_str());
    u.append("&code_challenge_method=S256");
    Ok(u)
}

/// Creates the secrets of a fresh login attempt and the authorization
/// URL to open: PKCE pair and state token, the local redirect URI for
/// the configured port, and the composed URL. Fails exactly when the
/// issuer is not a well-formed URL base.
pub fn begin_login(opts: &ServerOptions) -> (r: Result<(LoginAttempt, String), AuthError>)
    ensures
        r is Ok <==> url_parse_ok(opts.issuer@ + "/authorize"@),
        r matches Ok((attempt, auth_url)) ==> {
            &&& attempt.pkce.wf()
            &&& attempt.state@.len() == 43
            &&& attempt.redirect_uri@ == spec_redirect_uri(opts.port)
            &&& attempt.issuer@ == opts.issuer@
            &&& attempt.client_id@ == opts.client_id@
            &&& auth_url@ == spec_authorize_url(
                opts.issuer@,
                str_bytes(opts.client_id@),
                str_bytes(spec_redirect_uri(opts.port)),
                str_bytes(attempt.state@),
                str_bytes(attempt.pkce.code_challenge@),
            )
        },
{
    let pkce = generate_pkce();
    let state_tok = generate_state();
    let redirect_uri = redirect_uri_for_port(opts.port);
    let auth_url = match build_authorize_url(
        opts.issuer.as_str(),
        opts.client_id.as_str(),
        redirect_uri.as_str(),
        state_tok.as_str(),
        pkce.code_challenge.as_str(),
    ) {
        Ok(u) => u,
        Err(e) => {
            return Err(e);
        },
    };
    let attempt = LoginAttempt {
        state: state_tok,
        pkce,
        redirect_uri,
        issuer: opts.issuer.clone(),
        client_id: opts.client_id.clone(),
    };
    Ok((attempt, auth_url))
}

/// The provider token endpoint for an issuer.
pub fn token_url(issuer: &str) -> (r: String)
    ensures
        r@ == issuer@ + "/token"@,
{
    let mut s = issuer.to_owned();
    s.append("/token");
    s
}

/// The form fields POSTed to the token endpoint to exchange an
/// authorization code, binding the code to the attempt's PKCE verifier.
pub fn exchange_form(
    code: &str,
    pkce: &PkceCodes,
    client_id: &str,
    redirect_uri: &str,
) -> (params: Vec<(String, String)>)
    ensures
        params@.len() == 5,
        params@[0].0@ == "grant_type"@ && params@[0].1@ == "authorization_code"@,
        params@[1].0@ == "client_id"@ && params@[1].1@ == client_id@,
        params@[2].0@ == "code"@ && params@[2].1@ == code@,
        params@[3].0@ == "redirect_uri"@ && params@[3].1@ == redirect_uri@,
        params@[4].0@ == "code_verifier"@ && params@[4].1@ == pkce.code_verifier@,
{
    let mut params: Vec<(String, String)> = Vec::new();
    params.push(("grant_type".to_owned(), "authorization_code".to_owned()));
    params.push(("client_id".to_owned(), client_id.to_owned()));
    params.push(("code".to_owned(), code.to_owned()));
    params.push(("redirect_uri".to_owned(), redirect_uri.to_owned()));
    params.push(("code_verifier".to_owned(), pkce.code_verifier.clone()));
    params
}

/// The form fields POSTed to the token endpoint to refresh a token set.
pub fn refresh_form(refresh_token: &str, client_id: &str) -> (params: Vec<(String, String)>)
    ensures
        params@.len() == 3,
        params@[0].0@ == "grant_type"@ && params@[0].1@ == "refresh_token"@,
        params@[1].0@ == "client_id"@ && params@[1].1@ == client_id@,
        params@[2].0@ == "refresh_token"@ && params@[2].1@ == refresh_token@,
{
    let mut params: Vec<(String, String)> = Vec::new();
    params.push(("grant_type".to_owned(), "refresh_token".to_owned()));
    params.push(("client_id".to_owned(), client_id.to_owned()));
    params.push(("refresh_token".to_owned(), refresh_token.to_owned()));
    params
}

/// The view of an optional string.
pub open spec fn opt_view(o: Option<String>) -> Option<Seq<char>> {
    match o {
        Some(s) => Some(s@),
        None => None,
    }
}

/// What assembling a token set from response fields yields, for every
/// outcome: a missing `access_token` fails first, then a missing
/// `refresh_token` without a fallback, then a missing `id_token`, then
/// any identity-token parse failure, each with its own error; otherwise
/// the result is the token set whose fields are exactly the response's,
/// with the prior refresh token kept when the response rotated none,
/// no account id, and the identity claims of the decoded payload.
pub open spec fn spec_assembled(
    r: Result<TokenData, AuthError>,
    access: Option<Seq<char>>,
    refresh: Option<Seq<char>>,
    id: Option<Seq<char>>,
    fallback: Option<Seq<char>>,
) -> bool {
    match access {
        None => r == Err::<TokenData, AuthError>(AuthError::MissingAccessToken),
        Some(a) => if refresh is None && fallback is None {
            r == Err::<TokenData, AuthError>(AuthError::MissingRefreshToken)
        } else {
            match id {
                None => r == Err::<TokenData, AuthError>(AuthError::MissingIdToken),
                Some(raw) => match id_token_parse_err(str_bytes(raw)) {
                    Some(e) => r == Err::<TokenData, AuthError>(AuthError::IdToken(e)),
                    None => r matches Ok(t) && {
                        &&& t.access_token@ == a
                        &&& t.id_token.raw_jwt@ == raw
                        &&& t.account_id is None
                        &&& (match refresh {
                            Some(rt) => t.refresh_token@ == rt,
                            None => (fallback matches Some(fb) && t.refresh_token@ == fb),
                        })
                        &&& (b64url_decode_of(id_token_payload(str_bytes(raw))) matches Some(p)
                            && spec_id_claims_ok(t.id_token, p))
                    },
                },
            }
        },
    }
}

/// Assembles a token set from the fields of a token response.
/// `access_token` and `id_token` are required; a missing `refresh_token`
/// falls back to the prior one when the caller has it, and is an error
/// otherwise. The identity token is parsed in full; any parse failure
/// fails the whole assembly, never yielding a partial token set.
pub fn assemble_token_data(
    access_token: Option<String>,
    refresh_token: Option<String>,
    id_token_raw: Option<String>,
    fallback_refresh: Option<String>,
) -> (r: Result<TokenData, AuthError>)
    ensures
        spec_assembled(
            r,
            opt_view(access_token),
            opt_view(refresh_token),
            opt_view(id_token_raw),
            opt_view(fallback_refresh),
        ),
{
    let access = match access_token {
        Some(a) => a,
        None => {
            return Err(AuthError::MissingAccessToken);
        },
    };
    let refresh = match refresh_token {
        Some(rt) => rt,
        None => match fallback_refresh {
            Some(fb) => fb,
            None => {
                return Err(AuthError::MissingRefreshToken);
            },
        },
    };
    let raw = match id_token_raw {
        Some(raw) => raw,
        None => {
            return Err(AuthError::MissingIdToken);
        },
    };
    let id_token = match parse_id_token(raw.as_str()) {
        Ok(info) => info,
        Err(e) => {
            return Err(AuthError::IdToken(e));
        },
    };
    Ok(TokenData { id_token, access_token: access, refresh_token: refresh, account_id: None })
}

/// Parses a token-endpoint response body: the body must be JSON, the
/// string fields `access_token`, `refresh_token` and `id_token` are
/// read out of it, and the token set is assembled exactly as
/// `spec_assembled` describes, over those fields and the given fallback
/// refresh token.
pub fn parse_token_response(body: &[u8], fallback_refresh: Option<String>) -> (r: Result<
    TokenData,
    AuthError,
>)
    ensures
        !json_parse_ok(body@) ==> r == Err::<TokenData, AuthError>(AuthError::ParseError),
        json_parse_ok(body@) ==> spec_assembled(
            r,
            json_str_field_of(body@, "access_token"@),
            json_str_field_of(body@, "refresh_token"@),
            json_str_field_of(body@, "id_token"@),
            opt_view(fallback_refresh),
        ),
{
    if !json_is_valid(body) {
        return Err(AuthError::ParseError);
    }
    let access_token = json_str_field(body, "access_token");
    let refresh_token = json_str_field(body, "refresh_token");
    let id_token_raw = json_str_field(body, "id_token");
    assemble_token_data(access_token, refresh_token, id_token_raw, fallback_refresh)
}

} // verus!
