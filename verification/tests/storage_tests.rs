use codex_auth::auth_storage::{
    get_auth_file, load_auth, login_with_api_key, merge_tokens, needs_refresh, resolve_loaded,
    save_tokens, serialize_auth_json, AuthDotJson, CodexAuth, TokenQuery,
};
use codex_auth::errors::AuthError;
use codex_auth::token_data::{AuthMode, IdTokenInfo, KnownPlan, PlanType, TokenData};

fn b64url(data: &[u8]) -> String {
    base64::Engine::encode(&base64::engine::general_purpose::URL_SAFE_NO_PAD, data)
}

fn make_jwt(payload: &str) -> String {
    let header = "{\"alg\":\"none\",\"typ\":\"JWT\"}";
    format!(
        "{}.{}.{}",
        b64url(header.as_bytes()),
        b64url(payload.as_bytes()),
        b64url(b"sig")
    )
}

fn sample_tokens(plan: &str) -> TokenData {
    let jwt = make_jwt(&format!(
        "{{\"email\":\"a@b.com\",\"https://api.openai.com/auth\":{{\"chatgpt_plan_type\":\"{}\"}}}}",
        plan
    ));
    TokenData {
        id_token: IdTokenInfo {
            email: Some("a@b.com".to_string()),
            chatgpt_plan_type: Some(match plan {
                "plus" => PlanType::Known(KnownPlan::Plus),
                "enterprise" => PlanType::Known(KnownPlan::Enterprise),
                other => PlanType::Unknown(other.to_string()),
            }),
            raw_jwt: jwt,
        },
        access_token: "acc".to_string(),
        refresh_token: "ref".to_string(),
        account_id: None,
    }
}

fn auth_file_contents(api_key: Option<&str>, tokens: Option<&TokenData>, last_refresh: Option<&str>) -> String {
    let mut parts: Vec<String> = Vec::new();
    if let Some(k) = api_key {
        parts.push(format!("\"OPENAI_API_KEY\":\"{}\"", k));
    }
    if let Some(t) = tokens {
        parts.push(format!(
            "\"tokens\":{{\"id_token\":\"{}\",\"access_token\":\"{}\",\"refresh_token\":\"{}\"}}",
            t.id_token.raw_jwt, t.access_token, t.refresh_token
        ));
    }
    if let Some(lr) = last_refresh {
        parts.push(format!("\"last_refresh\":\"{}\"", lr));
    }
    format!("{{{}}}", parts.join(","))
}

#[test]
fn test_api_key_login() {
    let auth_json = login_with_api_key("sk-test-key");
    assert_eq!(auth_json.openai_api_key, Some("sk-test-key".to_string()));
    assert_eq!(auth_json.tokens, None);
    assert_eq!(auth_json.last_refresh, None);
}

#[test]
fn api_key_login_file_shows_key_and_no_tokens() {
    let auth_json = login_with_api_key("sk-test-key");
    assert_eq!(
        serialize_auth_json(&auth_json),
        "{\"OPENAI_API_KEY\":\"sk-test-key\",\"tokens\":null,\"last_refresh\":null}"
    );
}

#[test]
fn serialized_file_round_trips_through_the_parser() {
    let t = sample_tokens("plus");
    let existing = AuthDotJson {
        openai_api_key: Some("sk-kept".to_string()),
        tokens: None,
        last_refresh: None,
    };
    let saved = merge_tokens(Some(existing), &t, 1704067200);
    let text = serialize_auth_json(&saved);
    let auth = load_auth(None, Some(&text), "/h").unwrap().unwrap();
    assert_eq!(auth.mode, AuthMode::ChatGPT);
    match auth.get_token_data(1704067200 + 3000) {
        TokenQuery::Ready(got) => assert_eq!(got, t),
        other => panic!("expected Ready, got {:?}", other),
    }
    match auth.get_token_data(1704067200 + 3001) {
        TokenQuery::RefreshNeeded(rt) => assert_eq!(rt, "ref"),
        other => panic!("expected RefreshNeeded, got {:?}", other),
    }
}

#[test]
fn serializer_escapes_like_json_expects() {
    let key = "quote\" back\\slash \n tab\t emoji\u{1F600}";
    let auth_json = login_with_api_key(key);
    let text = serialize_auth_json(&auth_json);
    let parsed: serde_json::Value = serde_json::from_str(&text).unwrap();
    assert_eq!(
        parsed.get("OPENAI_API_KEY").and_then(|v| v.as_str()),
        Some(key)
    );
    assert!(parsed.get("tokens").unwrap().is_null());
}

#[test]
fn auth_file_path_is_under_the_config_home() {
    assert_eq!(get_auth_file("/home/u/.codex"), "/home/u/.codex/auth.json");
}

#[test]
fn env_override_forces_api_key_mode() {
    let t = sample_tokens("plus");
    let contents = auth_file_contents(None, Some(&t), Some("2024-01-01T00:00:00Z"));
    let auth = load_auth(Some("env-key".to_string()), Some(&contents), "/h")
        .unwrap()
        .unwrap();
    assert_eq!(auth.mode, AuthMode::ApiKey);
    assert_eq!(auth.get_api_key(), Some("env-key".to_string()));
    assert!(matches!(
        auth.get_token_data(0),
        TokenQuery::Unavailable(AuthError::ApiKeyModeHasNoTokens)
    ));
}

#[test]
fn empty_env_override_is_ignored() {
    let r = load_auth(Some(String::new()), None, "/h").unwrap();
    assert!(r.is_none());
}

#[test]
fn missing_file_is_no_credentials_not_an_error() {
    assert_eq!(load_auth(None, None, "/h").unwrap(), None);
}

#[test]
fn malformed_file_is_a_parse_error() {
    assert_eq!(
        load_auth(None, Some("not json"), "/h"),
        Err(AuthError::ParseError)
    );
}

#[test]
fn tokens_only_file_loads_in_chatgpt_mode() {
    let t = sample_tokens("plus");
    let contents = auth_file_contents(None, Some(&t), Some("2024-01-01T00:00:00Z"));
    let auth = load_auth(None, Some(&contents), "/h").unwrap().unwrap();
    assert_eq!(auth.mode, AuthMode::ChatGPT);
    assert_eq!(auth.get_api_key(), None);
}

#[test]
fn api_key_with_enterprise_plan_prefers_api_key_mode() {
    let t = sample_tokens("enterprise");
    let contents = auth_file_contents(Some("sk-k"), Some(&t), None);
    let auth = load_auth(None, Some(&contents), "/h").unwrap().unwrap();
    assert_eq!(auth.mode, AuthMode::ApiKey);
    assert_eq!(auth.get_api_key(), Some("sk-k".to_string()));
}

#[test]
fn api_key_with_plus_plan_prefers_session_mode() {
    let t = sample_tokens("plus");
    let contents = auth_file_contents(Some("sk-k"), Some(&t), None);
    let auth = load_auth(None, Some(&contents), "/h").unwrap().unwrap();
    assert_eq!(auth.mode, AuthMode::ChatGPT);
    // in session mode the API key is not handed out
    assert_eq!(auth.get_api_key(), None);
}

#[test]
fn api_key_without_tokens_is_api_key_mode() {
    let contents = auth_file_contents(Some("sk-k"), None, None);
    let auth = load_auth(None, Some(&contents), "/h").unwrap().unwrap();
    assert_eq!(auth.mode, AuthMode::ApiKey);
}

#[test]
fn empty_file_object_is_no_credentials() {
    assert_eq!(load_auth(None, Some("{}"), "/h").unwrap(), None);
}

#[test]
fn non_string_api_key_is_a_parse_error() {
    assert_eq!(
        load_auth(None, Some("{\"OPENAI_API_KEY\":123}"), "/h"),
        Err(AuthError::ParseError)
    );
}

#[test]
fn non_object_tokens_is_a_parse_error() {
    assert_eq!(
        load_auth(None, Some("{\"tokens\":\"x\"}"), "/h"),
        Err(AuthError::ParseError)
    );
}

#[test]
fn null_fields_count_as_absent() {
    let auth = load_auth(
        None,
        Some("{\"OPENAI_API_KEY\":\"sk-k\",\"tokens\":null,\"last_refresh\":null}"),
        "/h",
    )
    .unwrap()
    .unwrap();
    assert_eq!(auth.mode, AuthMode::ApiKey);
    assert_eq!(auth.get_api_key(), Some("sk-k".to_string()));
}

#[test]
fn tokens_missing_required_field_is_a_parse_error() {
    let t = sample_tokens("plus");
    let contents = format!(
        "{{\"tokens\":{{\"id_token\":\"{}\",\"access_token\":\"acc\"}}}}",
        t.id_token.raw_jwt
    );
    assert_eq!(load_auth(None, Some(&contents), "/h"), Err(AuthError::ParseError));
}

#[test]
fn non_string_account_id_is_a_parse_error() {
    let t = sample_tokens("plus");
    let contents = format!(
        "{{\"tokens\":{{\"id_token\":\"{}\",\"access_token\":\"a\",\"refresh_token\":\"r\",\"account_id\":5}}}}",
        t.id_token.raw_jwt
    );
    assert_eq!(load_auth(None, Some(&contents), "/h"), Err(AuthError::ParseError));
}

#[test]
fn account_id_string_is_kept() {
    let t = sample_tokens("plus");
    let contents = format!(
        "{{\"tokens\":{{\"id_token\":\"{}\",\"access_token\":\"a\",\"refresh_token\":\"r\",\"account_id\":\"org-1\"}}}}",
        t.id_token.raw_jwt
    );
    let auth = load_auth(None, Some(&contents), "/h").unwrap().unwrap();
    match auth.get_token_data(0) {
        TokenQuery::Ready(got) => assert_eq!(got.account_id, Some("org-1".to_string())),
        other => panic!("expected Ready, got {:?}", other),
    }
}

#[test]
fn loaded_claims_match_the_stored_id_token() {
    let t = sample_tokens("plus");
    let contents = auth_file_contents(None, Some(&t), None);
    let auth = load_auth(None, Some(&contents), "/h").unwrap().unwrap();
    match auth.get_token_data(0) {
        TokenQuery::Ready(got) => {
            assert_eq!(got.id_token.email, Some("a@b.com".to_string()));
            assert_eq!(
                got.id_token.chatgpt_plan_type,
                Some(PlanType::Known(KnownPlan::Plus))
            );
        }
        other => panic!("expected Ready, got {:?}", other),
    }
}

#[test]
fn refresh_boundary_is_exclusive() {
    assert!(!needs_refresh(3000, 0));
    assert!(needs_refresh(3001, 0));
}

#[test]
fn fresh_tokens_are_returned_without_refresh() {
    let t = sample_tokens("plus");
    // 2024-01-01T00:00:00Z is 1704067200 seconds since the epoch
    let contents = auth_file_contents(None, Some(&t), Some("2024-01-01T00:00:00Z"));
    let auth = load_auth(None, Some(&contents), "/h").unwrap().unwrap();
    match auth.get_token_data(1704067200 + 3000) {
        TokenQuery::Ready(got) => {
            assert_eq!(got.access_token, "acc");
            assert_eq!(got.refresh_token, "ref");
            assert_eq!(got.id_token.raw_jwt, t.id_token.raw_jwt);
        }
        other => panic!("expected Ready, got {:?}", other),
    }
}

#[test]
fn stale_tokens_ask_for_a_refresh() {
    let t = sample_tokens("plus");
    let contents = auth_file_contents(None, Some(&t), Some("2024-01-01T00:00:00Z"));
    let auth = load_auth(None, Some(&contents), "/h").unwrap().unwrap();
    match auth.get_token_data(1704067200 + 3001) {
        TokenQuery::RefreshNeeded(rt) => assert_eq!(rt, "ref"),
        other => panic!("expected RefreshNeeded, got {:?}", other),
    }
}

#[test]
fn tokens_without_refresh_time_are_returned_as_is() {
    let t = sample_tokens("plus");
    let contents = auth_file_contents(None, Some(&t), None);
    let auth = load_auth(None, Some(&contents), "/h").unwrap().unwrap();
    assert!(matches!(auth.get_token_data(i64::MAX), TokenQuery::Ready(_)));
}

#[test]
fn save_then_load_round_trips_the_token_set() {
    let t = sample_tokens("plus");
    let saved = merge_tokens(None, &t, 100);
    assert_eq!(saved.tokens, Some(t.clone()));
    assert_eq!(saved.last_refresh, Some(100));
    let auth = resolve_loaded(saved, "/h/auth.json".to_string()).unwrap();
    assert_eq!(auth.mode, AuthMode::ChatGPT);
    match auth.get_token_data(100) {
        TokenQuery::Ready(got) => assert_eq!(got, t),
        other => panic!("expected Ready, got {:?}", other),
    }
}

#[test]
fn save_tokens_preserves_stored_api_key() {
    let t = sample_tokens("plus");
    let existing = "{\"OPENAI_API_KEY\":\"sk-kept\"}";
    let saved = save_tokens(Some(existing), &t, 7);
    assert_eq!(saved.openai_api_key, Some("sk-kept".to_string()));
    assert_eq!(saved.tokens, Some(t));
    assert_eq!(saved.last_refresh, Some(7));
}

#[test]
fn save_tokens_tolerates_a_corrupt_file() {
    let t = sample_tokens("plus");
    let saved = save_tokens(Some("garbage"), &t, 7);
    assert_eq!(saved.openai_api_key, None);
    assert_eq!(saved.tokens, Some(t));
}

#[test]
fn apply_refresh_updates_cache_and_file_contents() {
    let t = sample_tokens("plus");
    let contents = auth_file_contents(Some("sk-k"), Some(&t), Some("2024-01-01T00:00:00Z"));
    let mut auth = load_auth(None, Some(&contents), "/h").unwrap().unwrap();
    assert_eq!(auth.mode, AuthMode::ChatGPT);
    let mut new_tokens = sample_tokens("plus");
    new_tokens.access_token = "acc2".to_string();
    new_tokens.refresh_token = "ref2".to_string();
    let to_persist = auth.apply_refresh(&new_tokens, 999).unwrap();
    assert_eq!(to_persist.openai_api_key, Some("sk-k".to_string()));
    assert_eq!(to_persist.tokens, Some(new_tokens.clone()));
    assert_eq!(to_persist.last_refresh, Some(999));
    match auth.get_token_data(999) {
        TokenQuery::Ready(got) => assert_eq!(got, new_tokens),
        other => panic!("expected Ready, got {:?}", other),
    }
}

#[test]
fn wrong_last_refresh_shape_is_a_parse_error() {
    let t = sample_tokens("plus");
    let contents = auth_file_contents(None, Some(&t), Some("yesterday"));
    assert_eq!(
        load_auth(None, Some(&contents), "/h"),
        Err(AuthError::ParseError)
    );
}

#[test]
fn tokens_with_malformed_id_token_fail_distinctly() {
    let contents = "{\"tokens\":{\"id_token\":\"a.b\",\"access_token\":\"x\",\"refresh_token\":\"y\"}}";
    match load_auth(None, Some(contents), "/h") {
        Err(AuthError::IdToken(_)) => {}
        other => panic!("expected an identity-token error, got {:?}", other),
    }
}

#[test]
fn missing_cache_is_no_auth_data() {
    let auth = CodexAuth {
        mode: AuthMode::ChatGPT,
        api_key: None,
        auth_dot_json: None,
        auth_file: String::new(),
    };
    assert!(matches!(
        auth.get_token_data(0),
        TokenQuery::Unavailable(AuthError::NoAuthData)
    ));
}

#[test]
fn cache_without_tokens_is_no_tokens() {
    let auth = CodexAuth {
        mode: AuthMode::ChatGPT,
        api_key: None,
        auth_dot_json: Some(AuthDotJson {
            openai_api_key: None,
            tokens: None,
            last_refresh: None,
        }),
        auth_file: String::new(),
    };
    assert!(matches!(
        auth.get_token_data(0),
        TokenQuery::Unavailable(AuthError::NoTokens)
    ));
}

#[test]
fn credentials_compare_by_mode_and_key() {
    let a1 = load_auth(Some("k".to_string()), None, "/h").unwrap().unwrap();
    let a2 = load_auth(Some("k".to_string()), None, "/other").unwrap().unwrap();
    let b = load_auth(Some("different".to_string()), None, "/h").unwrap().unwrap();
    assert!(a1 == a2);
    assert!(a1 != b);
}

#[test]
fn login_after_session_clears_tokens() {
    // a fresh API-key login writes only the key, whatever was stored
    let auth_json = login_with_api_key("sk-2");
    let resolved = resolve_loaded(auth_json, "/h/auth.json".to_string()).unwrap();
    assert_eq!(resolved.mode, AuthMode::ApiKey);
    assert_eq!(resolved.get_api_key(), Some("sk-2".to_string()));
}
