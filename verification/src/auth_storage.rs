use vstd::prelude::*;
use vstd::string::StringExecFns;

use crate::crypto::b64url_decode_of;
use crate::errors::AuthError;
use crate::jsonout::{esc_chars, escape_json_chars};
use crate::jsonval::{
    json_field2_nonnull, json_field2_nonnull_of, json_field_nonnull, json_field_nonnull_of,
    json_is_valid, json_parse_ok, json_str_field, json_str_field2, json_str_field2_of,
    json_str_field_of,
};
use crate::strutil::str_bytes;
use crate::token_data::{
    id_token_parse_err, id_token_payload, parse_id_token, spec_id_claims_ok, spec_known_plan_of,
    AuthMode, KnownPlan, PlanType, TokenData,
};
use crate::urlenc::ascii_chars;

verus! {

/// Elapsed seconds after which a cached token set counts as stale:
/// provider tokens expire at sixty minutes, so refresh is triggered ten
/// minutes early.
pub const REFRESH_AFTER_SECS: i64 = 3000;

/// True when a token set last refreshed at `last_refresh_secs` must be
/// refreshed before use at time `now_secs`. The boundary is exclusive:
/// at exactly `REFRESH_AFTER_SECS` elapsed seconds no refresh is due.
pub fn needs_refresh(now_secs: i64, last_refresh_secs: i64) -> (stale: bool)
    ensures
        stale == (now_secs - last_refresh_secs > REFRESH_AFTER_SECS),
{
    (now_secs as i128) - (last_refresh_secs as i128) > (REFRESH_AFTER_SECS as i128)
}

/// The contents of the persisted credential file: an optional API key,
/// an optional token set, and an optional last-refresh time, all
/// independent; an API key and tokens may coexist, and which mode they
/// yield is resolved at read time.
#[derive(Debug, PartialEq, Eq)]
pub struct AuthDotJson {
    pub openai_api_key: Option<String>,
    pub tokens: Option<TokenData>,
    /// Seconds since the epoch of the last successful save or refresh.
    pub last_refresh: Option<i64>,
}

impl Clone for AuthDotJson {
    fn clone(&self) -> (r: Self)
        ensures
            r == *self,
    {
        AuthDotJson {
            openai_api_key: match &self.openai_api_key {
                Some(k) => Some(k.clone()),
                None => None,
            },
            tokens: match &self.tokens {
                Some(t) => Some(t.clone()),
                None => None,
            },
            last_refresh: self.last_refresh,
        }
    }
}

/// In-memory credentials: the derived mode, the API key when one is
/// stored, and the cached file contents in session mode.
#[derive(Debug, Clone)]
pub struct CodexAuth {
    pub mode: AuthMode,
    pub api_key: Option<String>,
    pub auth_dot_json: Option<AuthDotJson>,
    pub auth_file: String,
}

impl PartialEq for CodexAuth {
    fn eq(&self, other: &Self) -> (r: bool) {
        let modes_eq = self.mode == other.mode;
        let keys_eq = match (&self.api_key, &other.api_key) {
            (None, None) => true,
            (Some(a), Some(b)) => *a == *b,
            _ => false,
        };
        modes_eq && keys_eq
    }
}

impl vstd::std_specs::cmp::PartialEqSpecImpl for CodexAuth {
    open spec fn obeys_eq_spec() -> bool {
        true
    }

    open spec fn eq_spec(&self, other: &Self) -> bool {
        &&& self.mode == other.mode
        &&& match (self.api_key, other.api_key) {
            (None, None) => true,
            (Some(a), Some(b)) => a@ == b@,
            _ => false,
        }
    }
}

impl CodexAuth {
    /// Credentials as the store constructs them: API-key mode always
    /// holds a key and no cache; session mode always caches a token set.
    pub open spec fn wf(self) -> bool {
        &&& (self.mode is ApiKey ==> self.api_key is Some && self.auth_dot_json is None)
        &&& (self.mode is ChatGPT ==> (self.auth_dot_json matches Some(a) && a.tokens is Some))
    }

    /// The stored API key in API-key mode; `None` in session mode.
    pub fn get_api_key(&self) -> (r: Option<String>)
        ensures
            r == (if self.mode is ApiKey {
                self.api_key
            } else {
                None::<String>
            }),
    {
        match self.mode {
            AuthMode::ApiKey => match &self.api_key {
                Some(k) => Some(k.clone()),
                None => None,
            },
            AuthMode::ChatGPT => None,
        }
    }

    /// Queries the cached token set at time `now_secs`, exactly as
    /// `spec_token_query` describes: API-key mode never has token data;
    /// session mode returns the cached set while it is fresh, and asks
    /// for a refresh once more than `REFRESH_AFTER_SECS` seconds have
    /// elapsed since the last refresh (the boundary is exclusive).
    pub fn get_token_data(&self, now_secs: i64) -> (q: TokenQuery)
        ensures
            q == spec_token_query(self.mode, self.auth_dot_json, now_secs),
    {
        match self.mode {
            AuthMode::ApiKey => TokenQuery::Unavailable(AuthError::ApiKeyModeHasNoTokens),
            AuthMode::ChatGPT => match &self.auth_dot_json {
                None => TokenQuery::Unavailable(AuthError::NoAuthData),
                Some(auth_json) => match &auth_json.tokens {
                    None => TokenQuery::Unavailable(AuthError::NoTokens),
                    Some(tokens) => match auth_json.last_refresh {
                        Some(last) => if needs_refresh(now_secs, last) {
                            TokenQuery::RefreshNeeded(tokens.refresh_token.clone())
                        } else {
                            TokenQuery::Ready(tokens.clone())
                        },
                        None => TokenQuery::Ready(tokens.clone()),
                    },
                },
            },
        }
    }

    /// Installs a freshly refreshed token set in the cache and stamps
    /// the refresh time. Returns the new file contents to persist, or
    /// `None` when no auth data is cached, in which case nothing
    /// changes. Only a successful refresh ever overwrites the cache.
    pub fn apply_refresh(&mut self, tokens: &TokenData, now_secs: i64) -> (r: Option<AuthDotJson>)
        ensures
            old(self).auth_dot_json is None ==> *final(self) == *old(self) && r is None,
            old(self).auth_dot_json matches Some(a) ==> {
                &&& final(self).auth_dot_json == Some(
                    (AuthDotJson {
                        openai_api_key: a.openai_api_key,
                        tokens: Some(*tokens),
                        last_refresh: Some(now_secs),
                    }),
                )
                &&& r == final(self).auth_dot_json
                &&& final(self).mode == old(self).mode
                &&& final(self).api_key == old(self).api_key
                &&& final(self).auth_file == old(self).auth_file
            },
    {
        match &self.auth_dot_json {
            None => None,
            Some(auth_json) => {
                let updated = AuthDotJson {
                    openai_api_key: match &auth_json.openai_api_key {
                        Some(k) => Some(k.clone()),
                        None => None,
                    },
                    tokens: Some(tokens.clone()),
                    last_refresh: Some(now_secs),
                };
                self.auth_dot_json = Some(updated.clone());
                Some(updated)
            },
        }
    }
}

/// Answer to a token-data query.
#[derive(Debug, PartialEq, Eq)]
pub enum TokenQuery {
    /// The cached token set, still fresh.
    Ready(TokenData),
    /// The cached set is stale: exchange this refresh token, then call
    /// `apply_refresh` with the result.
    RefreshNeeded(String),
    /// No token data can be produced in this state.
    Unavailable(AuthError),
}

/// What a token-data query yields: nothing in API-key mode or without a
/// cached token set; otherwise the cached set, unless more than
/// `REFRESH_AFTER_SECS` seconds have passed since the last refresh, in
/// which case a refresh with the cached refresh token is required.
pub open spec fn spec_token_query(
    mode: AuthMode,
    cache: Option<AuthDotJson>,
    now_secs: i64,
) -> TokenQuery {
    if mode is ApiKey {
        TokenQuery::Unavailable(AuthError::ApiKeyModeHasNoTokens)
    } else {
        match cache {
            None => TokenQuery::Unavailable(AuthError::NoAuthData),
            Some(a) => match a.tokens {
                None => TokenQuery::Unavailable(AuthError::NoTokens),
                Some(t) => match a.last_refresh {
                    Some(last) => if now_secs - last > REFRESH_AFTER_SECS {
                        TokenQuery::RefreshNeeded(t.refresh_token)
                    } else {
                        TokenQuery::Ready(t)
                    },
                    None => TokenQuery::Ready(t),
                },
            },
        }
    }
}

/// Refresh triggers exactly when more than `REFRESH_AFTER_SECS` seconds
/// have elapsed since the last refresh; at exactly the boundary the
/// cached set is still returned.
pub proof fn lemma_refresh_boundary(a: AuthDotJson, t: TokenData, last: i64, now_secs: i64)
    requires
        a.tokens == Some(t),
        a.last_refresh == Some(last),
    ensures
        now_secs - last > REFRESH_AFTER_SECS ==> spec_token_query(AuthMode::ChatGPT, Some(a), now_secs)
            == TokenQuery::RefreshNeeded(t.refresh_token),
        now_secs - last <= REFRESH_AFTER_SECS ==> spec_token_query(AuthMode::ChatGPT, Some(a), now_secs)
            == TokenQuery::Ready(t),
{
}

/// The path of the credential file under a configuration directory.
pub fn get_auth_file(codex_home: &str) -> (r: String)
    ensures
        r@ == codex_home@ + "/auth.json"@,
{
    let mut s = codex_home.to_owned();
    s.append("/auth.json");
    s
}

/// Whether the file contents hold a usable (non-empty) API key.
pub open spec fn spec_has_api_key(a: AuthDotJson) -> bool {
    a.openai_api_key matches Some(k) && k@.len() > 0
}

/// The mode that stored contents resolve to: a non-empty API key wins
/// unless a token set with a non-metered plan prefers session mode;
/// tokens alone mean session mode; neither means no credentials.
pub open spec fn spec_resolved_mode(a: AuthDotJson) -> Option<AuthMode> {
    if spec_has_api_key(a) {
        match a.tokens {
            Some(t) => if t.spec_should_use_api_key() {
                Some(AuthMode::ApiKey)
            } else {
                Some(AuthMode::ChatGPT)
            },
            None => Some(AuthMode::ApiKey),
        }
    } else {
        if a.tokens is Some {
            Some(AuthMode::ChatGPT)
        } else {
            None
        }
    }
}

/// The cache the resolved credentials carry: the file contents in
/// session mode, nothing in API-key mode.
pub open spec fn spec_resolved_cache(a: AuthDotJson) -> Option<AuthDotJson> {
    if spec_resolved_mode(a) == Some(AuthMode::ChatGPT) {
        Some(a)
    } else {
        None
    }
}

/// Resolves parsed file contents to credentials, following
/// `spec_resolved_mode` for the mode: the stored API key is kept when
/// present, and the contents are cached exactly in session mode.
pub fn resolve_loaded(a: AuthDotJson, auth_file: String) -> (r: Option<CodexAuth>)
    ensures
        match spec_resolved_mode(a) {
            None => r is None,
            Some(m) => r matches Some(auth) && {
                &&& auth.mode == m
                &&& auth.api_key == (if spec_has_api_key(a) {
                    a.openai_api_key
                } else {
                    None::<String>
                })
                &&& auth.auth_dot_json == spec_resolved_cache(a)
                &&& auth.auth_file == auth_file
                &&& auth.wf()
            },
        },
{
    let has_key = match &a.openai_api_key {
        Some(k) => k.as_str().unicode_len() > 0,
        None => false,
    };
    if has_key {
        let use_api_key = match &a.tokens {
            Some(t) => t.is_plan_that_should_use_api_key(),
            None => true,
        };
        let api_key = match &a.openai_api_key {
            Some(k) => Some(k.clone()),
            None => None,
        };
        if use_api_key {
            Some(CodexAuth { mode: AuthMode::ApiKey, api_key, auth_dot_json: None, auth_file })
        } else {
            Some(
                CodexAuth {
                    mode: AuthMode::ChatGPT,
                    api_key,
                    auth_dot_json: Some(a),
                    auth_file,
                },
            )
        }
    } else if matches!(&a.tokens, Some(_)) {
        Some(
            CodexAuth {
                mode: AuthMode::ChatGPT,
                api_key: None,
                auth_dot_json: Some(a),
                auth_file,
            },
        )
    } else {
        None
    }
}

/// Whether a token set holds exactly the named fields of the document's
/// `tokens` object: the required `id_token`, `access_token` and
/// `refresh_token` strings, the fully parsed identity claims, and the
/// optional `account_id`.
pub open spec fn spec_tokens_fields(t: TokenData, doc: Seq<u8>) -> bool {
    &&& (json_str_field2_of(doc, "tokens"@, "id_token"@) matches Some(raw) && {
        &&& t.id_token.raw_jwt@ == raw
        &&& id_token_parse_err(str_bytes(raw)) is None
        &&& (b64url_decode_of(id_token_payload(str_bytes(raw))) matches Some(p)
            && spec_id_claims_ok(t.id_token, p))
    })
    &&& json_str_field2_of(doc, "tokens"@, "access_token"@) == Some(t.access_token@)
    &&& json_str_field2_of(doc, "tokens"@, "refresh_token"@) == Some(t.refresh_token@)
    &&& (match t.account_id {
        Some(acc) => json_str_field2_of(doc, "tokens"@, "account_id"@) == Some(acc@),
        None => !json_field2_nonnull_of(doc, "tokens"@, "account_id"@),
    })
}

/// Whether parsed file contents hold exactly the named fields of the
/// document: each of the three fields is present if and only if the
/// document has it non-null and well-shaped.
pub open spec fn spec_auth_fields(a: AuthDotJson, doc: Seq<u8>) -> bool {
    &&& (match a.openai_api_key {
        Some(k) => json_field_nonnull_of(doc, "OPENAI_API_KEY"@) && json_str_field_of(
            doc,
            "OPENAI_API_KEY"@,
        ) == Some(k@),
        None => !json_field_nonnull_of(doc, "OPENAI_API_KEY"@),
    })
    &&& (match a.tokens {
        Some(t) => json_field_nonnull_of(doc, "tokens"@) && spec_tokens_fields(t, doc),
        None => !json_field_nonnull_of(doc, "tokens"@),
    })
    &&& (match a.last_refresh {
        Some(ts) => json_field_nonnull_of(doc, "last_refresh"@) && (json_str_field_of(
            doc,
            "last_refresh"@,
        ) matches Some(s) && rfc3339_secs(s) == Some(ts)),
        None => !json_field_nonnull_of(doc, "last_refresh"@),
    })
}

/// How the `tokens` object of the file fails to parse, or `None`: a
/// missing or non-string `id_token` first, then an identity token that
/// does not parse (keeping its distinct error), then the required
/// `access_token` and `refresh_token` strings, then a present non-null
/// `account_id` that is not a string.
pub open spec fn spec_tokens_err(doc: Seq<u8>) -> Option<AuthError> {
    match json_str_field2_of(doc, "tokens"@, "id_token"@) {
        None => Some(AuthError::ParseError),
        Some(raw) => match id_token_parse_err(str_bytes(raw)) {
            Some(e) => Some(AuthError::IdToken(e)),
            None => if json_str_field2_of(doc, "tokens"@, "access_token"@) is None {
                Some(AuthError::ParseError)
            } else if json_str_field2_of(doc, "tokens"@, "refresh_token"@) is None {
                Some(AuthError::ParseError)
            } else if json_field2_nonnull_of(doc, "tokens"@, "account_id"@) && json_str_field2_of(
                doc,
                "tokens"@,
                "account_id"@,
            ) is None {
                Some(AuthError::ParseError)
            } else {
                None
            },
        },
    }
}

/// How the `last_refresh` field fails to parse, or `None`: a present
/// non-null value that is not a string, or a string that is not an
/// RFC 3339 timestamp.
pub open spec fn spec_last_refresh_err(doc: Seq<u8>) -> Option<AuthError> {
    if json_field_nonnull_of(doc, "last_refresh"@) {
        match json_str_field_of(doc, "last_refresh"@) {
            None => Some(AuthError::ParseError),
            Some(s) => if rfc3339_secs(s) is None {
                Some(AuthError::ParseError)
            } else {
                None
            },
        }
    } else {
        None
    }
}

/// How parsing the credential file fails, or `None` when it succeeds:
/// text that is not JSON, a present non-null `OPENAI_API_KEY` that is
/// not a string, a malformed `tokens` object (a malformed identity
/// token inside it fails the whole parse with its own distinct error),
/// or a malformed `last_refresh` time.
pub open spec fn spec_parse_auth_err(doc: Seq<u8>) -> Option<AuthError> {
    if !json_parse_ok(doc) {
        Some(AuthError::ParseError)
    } else if json_field_nonnull_of(doc, "OPENAI_API_KEY"@) && json_str_field_of(
        doc,
        "OPENAI_API_KEY"@,
    ) is None {
        Some(AuthError::ParseError)
    } else if json_field_nonnull_of(doc, "tokens"@) {
        match spec_tokens_err(doc) {
            Some(e) => Some(e),
            None => spec_last_refresh_err(doc),
        }
    } else {
        spec_last_refresh_err(doc)
    }
}

/// Parses the credential file: the contents must be JSON; the API key,
/// token set and last-refresh time are each optional, but a present
/// non-null field must have the right shape, and the identity token
/// inside the token set must parse. Succeeds if and only if
/// `spec_parse_auth_err` assigns no error, returning exactly the named
/// fields of the document.
pub fn parse_auth_json(contents: &str) -> (r: Result<AuthDotJson, AuthError>)
    ensures
        r is Err <==> spec_parse_auth_err(str_bytes(contents@)) is Some,
        r matches Err(e) ==> spec_parse_auth_err(str_bytes(contents@)) == Some(e),
        r matches Ok(a) ==> spec_auth_fields(a, str_bytes(contents@)),
{
    let doc = contents.as_bytes();
    if !json_is_valid(doc) {
        return Err(AuthError::ParseError);
    }
    let openai_api_key = if json_field_nonnull(doc, "OPENAI_API_KEY") {
        match json_str_field(doc, "OPENAI_API_KEY") {
            Some(k) => Some(k),
            None => {
                return Err(AuthError::ParseError);
            },
        }
    } else {
        None
    };
    let tokens = if json_field_nonnull(doc, "tokens") {
        let id_raw = match json_str_field2(doc, "tokens", "id_token") {
            Some(s) => s,
            None => {
                return Err(AuthError::ParseError);
            },
        };
        let id_token = match parse_id_token(id_raw.as_str()) {
            Ok(info) => info,
            Err(e) => {
                return Err(AuthError::IdToken(e));
            },
        };
        let access_token = match json_str_field2(doc, "tokens", "access_token") {
            Some(s) => s,
            None => {
                return Err(AuthError::ParseError);
            },
        };
        let refresh_token = match json_str_field2(doc, "tokens", "refresh_token") {
            Some(s) => s,
            None => {
                return Err(AuthError::ParseError);
            },
        };
        let account_id = if json_field2_nonnull(doc, "tokens", "account_id") {
            match json_str_field2(doc, "tokens", "account_id") {
                Some(s) => Some(s),
                None => {
                    return Err(AuthError::ParseError);
                },
            }
        } else {
            None
        };
        Some(TokenData { id_token, access_token, refresh_token, account_id })
    } else {
        None
    };
    let last_refresh = if json_field_nonnull(doc, "last_refresh") {
        match json_str_field(doc, "last_refresh") {
            Some(s) => match parse_rfc3339_secs(s.as_str()) {
                Some(secs) => Some(secs),
                None => {
                    return Err(AuthError::ParseError);
                },
            },
            None => {
                return Err(AuthError::ParseError);
            },
        }
    } else {
        None
    };
    Ok(AuthDotJson { openai_api_key, tokens, last_refresh })
}

/// The API key string the file stores, if any.
pub open spec fn spec_file_api_key(doc: Seq<u8>) -> Option<Seq<char>> {
    json_str_field_of(doc, "OPENAI_API_KEY"@)
}

/// Whether the file stores a usable (non-empty) API key.
pub open spec fn spec_file_has_key(doc: Seq<u8>) -> bool {
    &&& json_field_nonnull_of(doc, "OPENAI_API_KEY"@)
    &&& (spec_file_api_key(doc) matches Some(k) && k.len() > 0)
}

/// The plan claim string inside the file's identity token, if any:
/// the `tokens` object's `id_token`, its decoded payload, and the
/// nested `chatgpt_plan_type` claim.
pub open spec fn spec_file_plan_claim(doc: Seq<u8>) -> Option<Seq<char>> {
    match json_str_field2_of(doc, "tokens"@, "id_token"@) {
        None => None,
        Some(raw) => match b64url_decode_of(id_token_payload(str_bytes(raw))) {
            None => None,
            Some(p) => json_str_field2_of(p, "https://api.openai.com/auth"@, "chatgpt_plan_type"@),
        },
    }
}

/// Whether the file's plan prefers metered API-key billing: an absent
/// claim, or one naming the enterprise plan.
pub open spec fn spec_file_should_use_api_key(doc: Seq<u8>) -> bool {
    match spec_file_plan_claim(doc) {
        None => true,
        Some(s) => spec_known_plan_of(s) == Some(KnownPlan::Enterprise),
    }
}

/// The mode a well-formed file resolves to, stated over the document
/// itself: a usable API key wins unless the stored plan prefers a
/// session; tokens alone mean session mode; neither means no
/// credentials.
pub open spec fn spec_file_mode(doc: Seq<u8>) -> Option<AuthMode> {
    if spec_file_has_key(doc) {
        if json_field_nonnull_of(doc, "tokens"@) {
            if spec_file_should_use_api_key(doc) {
                Some(AuthMode::ApiKey)
            } else {
                Some(AuthMode::ChatGPT)
            }
        } else {
            Some(AuthMode::ApiKey)
        }
    } else {
        if json_field_nonnull_of(doc, "tokens"@) {
            Some(AuthMode::ChatGPT)
        } else {
            None
        }
    }
}

/// Contents that hold exactly the document's named fields resolve to
/// the document's own mode.
proof fn lemma_mode_agrees(a: AuthDotJson, doc: Seq<u8>)
    requires
        spec_auth_fields(a, doc),
    ensures
        spec_has_api_key(a) == spec_file_has_key(doc),
        spec_resolved_mode(a) == spec_file_mode(doc),
{
    match a.tokens {
        Some(t) => {
            match json_str_field2_of(doc, "tokens"@, "id_token"@) {
                Some(raw) => {
                    assert(t.id_token.raw_jwt@ == raw);
                    match b64url_decode_of(id_token_payload(str_bytes(raw))) {
                        Some(p) => {
                            assert(spec_id_claims_ok(t.id_token, p));
                            match t.id_token.chatgpt_plan_type {
                                Some(plan) => {
                                    match json_str_field2_of(
                                        p,
                                        "https://api.openai.com/auth"@,
                                        "chatgpt_plan_type"@,
                                    ) {
                                        Some(s) => {
                                            assert(spec_file_plan_claim(doc) == Some(s));
                                            match spec_known_plan_of(s) {
                                                Some(k) => {
                                                    assert(plan == PlanType::Known(k));
                                                    assert(t.spec_should_use_api_key()
                                                        == spec_file_should_use_api_key(doc));
                                                },
                                                None => {
                                                    assert(plan is Unknown);
                                                    assert(!t.spec_should_use_api_key());
                                                    assert(!spec_file_should_use_api_key(doc));
                                                },
                                            }
                                        },
                                        None => {
                                            assert(false);
                                        },
                                    }
                                },
                                None => {
                                    assert(spec_file_plan_claim(doc) is None);
                                },
                            }
                        },
                        None => {
                            assert(false);
                        },
                    }
                },
                None => {
                    assert(false);
                },
            }
        },
        None => {
        },
    }
}

/// Whether the environment override is absent or empty.
pub open spec fn spec_env_empty(env_api_key: Option<String>) -> bool {
    match env_api_key {
        Some(k) => k@.len() == 0,
        None => true,
    }
}

/// Loads credentials from the environment override and the persisted
/// file contents. A non-empty key in the environment unconditionally
/// yields API-key mode, whatever the file holds. Otherwise a missing
/// file means no credentials, a malformed one fails with exactly the
/// error `spec_parse_auth_err` assigns, and a well-formed one succeeds
/// and resolves to the document's own mode, key and cached token set.
pub fn load_auth(
    env_api_key: Option<String>,
    file_contents: Option<&str>,
    codex_home: &str,
) -> (r: Result<Option<CodexAuth>, AuthError>)
    ensures
        env_api_key matches Some(k) ==> (k@.len() > 0 ==> (r matches Ok(Some(auth)) && auth.mode
            is ApiKey && auth.api_key == Some(k) && auth.auth_dot_json is None)),
        spec_env_empty(env_api_key) && file_contents is None ==> r == Ok::<
            Option<CodexAuth>,
            AuthError,
        >(None),
        spec_env_empty(env_api_key) ==> (file_contents matches Some(c) ==> (match spec_parse_auth_err(
            str_bytes(c@),
        ) {
            Some(e) => r == Err::<Option<CodexAuth>, AuthError>(e),
            None => r matches Ok(opt) && (match spec_file_mode(str_bytes(c@)) {
                None => opt is None,
                Some(m) => opt matches Some(auth) && {
                    &&& auth.mode == m
                    &&& auth.wf()
                    &&& (match auth.api_key {
                        Some(k) => spec_file_has_key(str_bytes(c@)) && spec_file_api_key(
                            str_bytes(c@),
                        ) == Some(k@),
                        None => !spec_file_has_key(str_bytes(c@)),
                    })
                    &&& (auth.auth_dot_json matches Some(cache) ==> spec_auth_fields(
                        cache,
                        str_bytes(c@),
                    ))
                    &&& (m is ChatGPT ==> auth.auth_dot_json is Some)
                },
            }),
        })),
        r matches Ok(Some(auth)) ==> auth.wf(),
        r is Err ==> spec_env_empty(env_api_key) && file_contents is Some,
{
    let auth_file = get_auth_file(codex_home);
    let has_env = match &env_api_key {
        Some(k) => k.as_str().unicode_len() > 0,
        None => false,
    };
    if has_env {
        return Ok(
            Some(
                CodexAuth {
                    mode: AuthMode::ApiKey,
                    api_key: env_api_key,
                    auth_dot_json: None,
                    auth_file,
                },
            ),
        );
    }
    let contents = match file_contents {
        Some(c) => c,
        None => {
            return Ok(None);
        },
    };
    let auth_json = match parse_auth_json(contents) {
        Ok(a) => a,
        Err(e) => {
            return Err(e);
        },
    };
    proof {
        lemma_mode_agrees(auth_json, str_bytes(contents@));
    }
    Ok(resolve_loaded(auth_json, auth_file))
}

/// File contents after a fresh API-key login: only the key is set; any
/// previous tokens and refresh time are cleared.
pub fn login_with_api_key(api_key: &str) -> (a: AuthDotJson)
    ensures
        a.openai_api_key matches Some(k) && k@ == api_key@,
        a.tokens is None,
        a.last_refresh is None,
{
    AuthDotJson { openai_api_key: Some(api_key.to_owned()), tokens: None, last_refresh: None }
}

/// File contents after saving a token set over what was stored: any
/// stored API key is preserved, the tokens are replaced, and the
/// refresh time is set to now.
pub fn merge_tokens(existing: Option<AuthDotJson>, tokens: &TokenData, now_secs: i64) -> (a:
    AuthDotJson)
    ensures
        a.openai_api_key == (match existing {
            Some(e) => e.openai_api_key,
            None => None::<String>,
        }),
        a.tokens == Some(*tokens),
        a.last_refresh == Some(now_secs),
{
    let openai_api_key = match existing {
        Some(e) => e.openai_api_key,
        None => None,
    };
    AuthDotJson { openai_api_key, tokens: Some(tokens.clone()), last_refresh: Some(now_secs) }
}

/// File contents after saving a token set, given the raw contents of
/// the existing file: an API key stored in well-formed contents is
/// preserved, and contents that fail to parse count as empty, as
/// before, so a save never fails on a corrupt file.
pub fn save_tokens(existing_contents: Option<&str>, tokens: &TokenData, now_secs: i64) -> (a:
    AuthDotJson)
    ensures
        a.tokens == Some(*tokens),
        a.last_refresh == Some(now_secs),
        existing_contents is None ==> a.openai_api_key is None,
        existing_contents matches Some(c) ==> (match spec_parse_auth_err(str_bytes(c@)) {
            None => (match a.openai_api_key {
                Some(k) => spec_file_api_key(str_bytes(c@)) == Some(k@),
                None => !json_field_nonnull_of(str_bytes(c@), "OPENAI_API_KEY"@),
            }),
            Some(_) => a.openai_api_key is None,
        }),
{
    let existing = match existing_contents {
        Some(c) => match parse_auth_json(c) {
            Ok(a) => Some(a),
            Err(_) => None,
        },
        None => None,
    };
    merge_tokens(existing, tokens, now_secs)
}

/// Tokens saved by `save_tokens` and loaded back in session mode are
/// returned unchanged: the resolved credentials cache the same set, and
/// a token-data query at the time of the save returns exactly it.
pub proof fn lemma_save_then_load_round_trip(saved: AuthDotJson, t: TokenData, now_secs: i64)
    requires
        saved.tokens == Some(t),
        saved.last_refresh == Some(now_secs),
    ensures
        spec_resolved_mode(saved) is Some,
        spec_resolved_mode(saved) == Some(AuthMode::ChatGPT) ==> spec_token_query(
            AuthMode::ChatGPT,
            spec_resolved_cache(saved),
            now_secs,
        ) == TokenQuery::Ready(t),
{
}

/// A JSON string token: the escaped characters between quotes.
pub open spec fn json_string_text(s: Seq<char>) -> Seq<char> {
    "\""@ + ascii_chars(esc_chars(s)) + "\""@
}

/// The serialized `tokens` object: the identity token as its raw
/// compact string, the access and refresh tokens, and the account id
/// or null.
pub open spec fn tokens_json_text(t: TokenData) -> Seq<char> {
    "{\"id_token\":"@ + json_string_text(t.id_token.raw_jwt@) + ",\"access_token\":"@
        + json_string_text(t.access_token@) + ",\"refresh_token\":"@ + json_string_text(
        t.refresh_token@,
    ) + ",\"account_id\":"@ + (match t.account_id {
        None => "null"@,
        Some(acc) => json_string_text(acc@),
    }) + "}"@
}

/// The serialized credential file: one JSON object with the API key,
/// the token set and the RFC 3339 last-refresh time, each null when
/// absent.
pub open spec fn auth_json_text(a: AuthDotJson) -> Seq<char> {
    "{\"OPENAI_API_KEY\":"@ + (match a.openai_api_key {
        None => "null"@,
        Some(k) => json_string_text(k@),
    }) + ",\"tokens\":"@ + (match a.tokens {
        None => "null"@,
        Some(t) => tokens_json_text(t),
    }) + ",\"last_refresh\":"@ + (match a.last_refresh {
        None => "null"@,
        Some(ts) => match rfc3339_of(ts) {
            None => "null"@,
            Some(s) => json_string_text(s),
        },
    }) + "}"@
}

fn append_json_string(out: &mut String, s: &str)
    ensures
        final(out)@ == old(out)@ + json_string_text(s@),
{
    out.append("\"");
    out.append(escape_json_chars(s).as_str());
    out.append("\"");
    proof {
        assert(out@ =~= old(out)@ + json_string_text(s@));
    }
}

#[verifier::rlimit(50)]
fn serialize_tokens_json(t: &TokenData) -> (r: String)
    ensures
        r@ == tokens_json_text(*t),
{
    let mut out = ("{\"id_token\":").to_owned();
    append_json_string(&mut out, t.id_token.raw_jwt.as_str());
    out.append(",\"access_token\":");
    append_json_string(&mut out, t.access_token.as_str());
    out.append(",\"refresh_token\":");
    append_json_string(&mut out, t.refresh_token.as_str());
    out.append(",\"account_id\":");
    match &t.account_id {
        Some(acc) => append_json_string(&mut out, acc.as_str()),
        None => out.append("null"),
    };
    out.append("}");
    proof {
        assert(out@ =~= tokens_json_text(*t));
    }
    out
}

/// Serializes file contents to the exact text of `auth_json_text`, the
/// JSON object the credential file holds.
#[verifier::rlimit(50)]
pub fn serialize_auth_json(a: &AuthDotJson) -> (r: String)
    ensures
        r@ == auth_json_text(*a),
{
    let mut out = ("{\"OPENAI_API_KEY\":").to_owned();
    match &a.openai_api_key {
        Some(k) => append_json_string(&mut out, k.as_str()),
        None => out.append("null"),
    };
    out.append(",\"tokens\":");
    match &a.tokens {
        Some(t) => out.append(serialize_tokens_json(t).as_str()),
        None => out.append("null"),
    };
    out.append(",\"last_refresh\":");
    match a.last_refresh {
        Some(ts) => match format_rfc3339_secs(ts) {
            Some(s) => append_json_string(&mut out, s.as_str()),
            None => out.append("null"),
        },
        None => out.append("null"),
    };
    out.append("}");
    proof {
        assert(out@ =~= auth_json_text(*a));
    }
    out
}

/// What chrono renders an epoch second count as in RFC 3339, or `None`
/// for counts outside chrono's representable range: a function of the
/// count alone.
pub uninterp spec fn rfc3339_of(secs: i64) -> Option<Seq<char>>;

/// Relies on chrono's `DateTime::from_timestamp` and `to_rfc3339_opts`:
/// both are functions of the second count alone, and only counts
/// outside the representable range fail.
#[verifier::external_body]
pub(crate) fn format_rfc3339_secs(secs: i64) -> (r: Option<String>)
    ensures
        r is Some <==> rfc3339_of(secs) is Some,
        r matches Some(s) ==> rfc3339_of(secs) == Some(s@),
{
    chrono::DateTime::<chrono::Utc>::from_timestamp(secs, 0).map(
        |dt| dt.to_rfc3339_opts(chrono::SecondsFormat::Secs, true),
    )
}

/// What chrono makes of an RFC 3339 timestamp string: whether it parses,
/// and the seconds since the epoch, are functions of the string alone.
pub uninterp spec fn rfc3339_secs(s: Seq<char>) -> Option<i64>;

/// Relies on chrono's `DateTime::parse_from_rfc3339` and `timestamp`:
/// both are functions of the input string alone.
#[verifier::external_body]
pub(crate) fn parse_rfc3339_secs(s: &str) -> (r: Option<i64>)
    ensures
        r == rfc3339_secs(s@),
{
    match chrono::DateTime::parse_from_rfc3339(s) {
        Ok(dt) => Some(dt.timestamp()),
        Err(_) => None,
    }
}

} // verus!
