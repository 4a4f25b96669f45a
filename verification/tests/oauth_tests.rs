use base64::Engine;
use sha2::Digest;
use spotify_backend::oauth::{
    authorize_url, callback_step, client_id_from_config, client_id_from_env, exchange_result_page,
    generate_pkce, generate_state, login_error_page, refreshed_token, stamp_obtained, CallbackStep,
    OAuthError, OAuthSession, REDIRECT_URI, SCOPES, SPOTIFY_AUTH_URL, STATE_ALPHABET,
    VERIFIER_ALPHABET,
};
use spotify_backend::types::TokenResponse;
use spotify_backend::encoding::BASE64_URL_ALPHABET;
use spotify_backend::oauth::text_from_draws;

#[test]
fn draws_pick_their_characters() {
    assert_eq!(text_from_draws("abc", &vec![2, 0, 1, 1]), "cabb");
    assert_eq!(text_from_draws(STATE_ALPHABET, &vec![]), "");
    assert_eq!(text_from_draws(VERIFIER_ALPHABET, &vec![65, 26, 52]), "~a0");
}

#[test]
fn install_token_gives_access_token() {
    let mut s = OAuthSession::new();
    assert_eq!(s.install_token(token("acc", None)), "acc");
}

fn token(access: &str, refresh: Option<&str>) -> TokenResponse {
    TokenResponse {
        access_token: access.to_string(),
        token_type: "Bearer".to_string(),
        expires_in: 3600,
        refresh_token: refresh.map(|s| s.to_string()),
        scope: "streaming".to_string(),
        obtained_at: None,
    }
}

fn params(pairs: &[(&str, &str)]) -> Vec<(String, String)> {
    pairs.iter().map(|(k, v)| (k.to_string(), v.to_string())).collect()
}

#[test]
fn env_client_id_is_trimmed() {
    assert_eq!(client_id_from_env("  abc123 \n"), Some("abc123".to_string()));
}

#[test]
fn env_client_id_rejects_empty_and_placeholder() {
    assert_eq!(client_id_from_env("   "), None);
    assert_eq!(client_id_from_env(""), None);
    assert_eq!(client_id_from_env(" your-client-id-here "), None);
}

#[test]
fn config_client_id_quoted_value() {
    let text = "# settings\nclient_id = \"my-app-id\"\n";
    assert_eq!(client_id_from_config(text), Some("my-app-id".to_string()));
}

#[test]
fn config_client_id_skips_placeholder_and_other_keys() {
    let text = "name = x\r\nclient_id = \"your-client-id-here\"\r\n  client_id=second  \r\n";
    assert_eq!(client_id_from_config(text), Some("second".to_string()));
}

#[test]
fn config_client_id_absent() {
    assert_eq!(client_id_from_config(""), None);
    assert_eq!(client_id_from_config("client_id\nother = 1"), None);
    assert_eq!(client_id_from_config("client_id = \"\""), None);
    assert_eq!(client_id_from_config("clientid = abc"), None);
}

#[test]
fn config_client_id_key_with_spaces_and_inner_equals() {
    assert_eq!(client_id_from_config("  client_id  =  a=b  "), Some("a=b".to_string()));
}

#[test]
fn state_has_length_and_alphabet() {
    let s = generate_state();
    assert_eq!(s.chars().count(), 32);
    assert!(s.chars().all(|c| STATE_ALPHABET.contains(c)));
}

#[test]
fn states_differ_between_calls() {
    assert_ne!(generate_state(), generate_state());
}

#[test]
fn pkce_challenge_is_sha256_base64() {
    let (verifier, challenge) = generate_pkce();
    assert_eq!(verifier.len(), 128);
    assert!(verifier.chars().all(|c| VERIFIER_ALPHABET.contains(c)));
    let expected = base64::engine::general_purpose::URL_SAFE_NO_PAD
        .encode(sha2::Sha256::digest(verifier.as_bytes()));
    assert_eq!(challenge, expected);
    assert_eq!(challenge.len(), 43);
    assert!(!challenge.contains('='));
    assert!(challenge.chars().all(|c| BASE64_URL_ALPHABET.contains(c)));
}

#[test]
fn authorize_url_matches_url_crate() {
    let got = authorize_url("cid 1", "ch/+", "st&x");
    let mut url = url::Url::parse(SPOTIFY_AUTH_URL).unwrap();
    url.query_pairs_mut()
        .append_pair("client_id", "cid 1")
        .append_pair("response_type", "code")
        .append_pair("redirect_uri", REDIRECT_URI)
        .append_pair("scope", SCOPES)
        .append_pair("code_challenge_method", "S256")
        .append_pair("code_challenge", "ch/+")
        .append_pair("state", "st&x")
        .append_pair("show_dialog", "true");
    assert_eq!(got, url.to_string());
    assert!(got.starts_with("https://accounts.spotify.com/authorize?client_id=cid+1&"));
}

#[test]
fn start_authorization_stores_verifier_and_state() {
    let mut s = OAuthSession::new();
    let url = s.start_authorization("abc");
    let state = s.oauth_state.clone().unwrap();
    let verifier = s.pkce_verifier.clone().unwrap();
    assert_eq!(state.len(), 32);
    assert_eq!(verifier.len(), 128);
    assert!(url.contains(&format!("state={}", state)));
    assert!(s.validate_state(&state));
    assert!(!s.validate_state("other"));
    assert!(!s.validate_state(""));
}

#[test]
fn validate_state_without_authorization_fails() {
    let s = OAuthSession::new();
    assert!(!s.validate_state(""));
    assert!(!s.validate_state("abc"));
    let mut s2 = OAuthSession::new();
    s2.oauth_state = Some(String::new());
    assert!(!s2.validate_state(""));
}

#[test]
fn exchange_form_needs_verifier() {
    let s = OAuthSession::new();
    assert_eq!(s.exchange_form("code", "cid").unwrap_err(), OAuthError::NoPkceVerifier);
    let mut s = OAuthSession::new();
    s.pkce_verifier = Some("ver".to_string());
    let f = s.exchange_form("code1", "cid").unwrap();
    assert_eq!(
        f,
        params(&[
            ("grant_type", "authorization_code"),
            ("code", "code1"),
            ("redirect_uri", "http://127.0.0.1:8000/callback"),
            ("client_id", "cid"),
            ("code_verifier", "ver"),
        ])
    );
}

#[test]
fn finish_exchange_is_single_use() {
    let mut s = OAuthSession::new();
    s.start_authorization("cid");
    let state = s.oauth_state.clone().unwrap();
    let access = s.finish_exchange(token("tok", Some("ref")));
    assert_eq!(access, "tok");
    assert!(s.pkce_verifier.is_none());
    assert!(!s.validate_state(&state));
    assert_eq!(s.exchange_form("c", "cid").unwrap_err(), OAuthError::NoPkceVerifier);
    assert_eq!(s.access_token(), Some("tok".to_string()));
}

#[test]
fn refresh_form_errors_and_form() {
    let s = OAuthSession::new();
    assert_eq!(s.refresh_form("cid").unwrap_err(), OAuthError::NoTokenToRefresh);
    let mut s = OAuthSession::new();
    let _ = s.install_token(token("a", None));
    assert_eq!(s.refresh_form("cid").unwrap_err(), OAuthError::NoRefreshToken);
    s.install_token(token("a", Some("r1")));
    let (rt, f) = s.refresh_form("cid").unwrap();
    assert_eq!(rt, "r1");
    assert_eq!(
        f,
        params(&[("grant_type", "refresh_token"), ("refresh_token", "r1"), ("client_id", "cid")])
    );
}

#[test]
fn refreshed_token_keeps_previous_refresh_token() {
    let t = refreshed_token(token("new", None), "old-refresh".to_string());
    assert_eq!(t.refresh_token, Some("old-refresh".to_string()));
    assert_eq!(t.access_token, "new");
    assert!(t.obtained_at.is_some());
    let t = refreshed_token(token("new", Some("fresh")), "old-refresh".to_string());
    assert_eq!(t.refresh_token, Some("fresh".to_string()));
}

#[test]
fn stamped_token_is_not_expired() {
    let t = stamp_obtained(token("a", None));
    assert!(t.obtained_at.is_some());
    assert!(t.can_check_expiry());
    assert!(!t.is_expired());
}

#[test]
fn initialize_keeps_token_when_cache_empty() {
    let mut s = OAuthSession::new();
    s.install_token(token("a", None));
    s.initialize(None);
    assert_eq!(s.access_token(), Some("a".to_string()));
    s.initialize(Some(token("b", None)));
    assert_eq!(s.access_token(), Some("b".to_string()));
}

#[test]
fn access_after_refresh_without_token() {
    let s = OAuthSession::new();
    assert_eq!(s.access_after_refresh().unwrap_err(), OAuthError::TokenUnavailableAfterRefresh);
    assert_eq!(s.access_after_refresh().unwrap_err().message(), "Token not available after refresh");
}

#[test]
fn error_messages() {
    assert_eq!(
        OAuthError::NoPkceVerifier.message(),
        "No PKCE verifier. Call auth_url() before exchanging the code."
    );
    assert_eq!(OAuthError::NoTokenToRefresh.message(), "No token to refresh");
    assert_eq!(OAuthError::NoRefreshToken.message(), "No refresh token");
}

#[test]
fn callback_error_param_wins() {
    let s = OAuthSession::new();
    match callback_step(&params(&[("code", "c"), ("error", "access_denied")]), &s) {
        CallbackStep::Respond(p) => assert_eq!(p, "OAuth error: access_denied"),
        CallbackStep::Exchange(_) => panic!("expected a page"),
    }
}

#[test]
fn callback_missing_code() {
    let s = OAuthSession::new();
    match callback_step(&params(&[("state", "x")]), &s) {
        CallbackStep::Respond(p) => assert_eq!(p, "Missing code parameter"),
        CallbackStep::Exchange(_) => panic!("expected a page"),
    }
}

#[test]
fn callback_state_checked() {
    let mut s = OAuthSession::new();
    s.start_authorization("cid");
    let state = s.oauth_state.clone().unwrap();
    match callback_step(&params(&[("code", "c1"), ("state", "bad")]), &s) {
        CallbackStep::Respond(p) => assert_eq!(p, "Invalid state parameter (CSRF protection)"),
        CallbackStep::Exchange(_) => panic!("expected a page"),
    }
    match callback_step(&params(&[("code", "c1"), ("state", &state)]), &s) {
        CallbackStep::Exchange(c) => assert_eq!(c, "c1"),
        CallbackStep::Respond(p) => panic!("unexpected page {}", p),
    }
    match callback_step(&params(&[("code", "c2")]), &s) {
        CallbackStep::Respond(p) => assert_eq!(p, "Invalid state parameter (CSRF protection)"),
        CallbackStep::Exchange(_) => panic!("a callback without state must not pass"),
    }
}

#[test]
fn callback_after_exchange_refuses_state() {
    let mut s = OAuthSession::new();
    s.start_authorization("cid");
    let state = s.oauth_state.clone().unwrap();
    s.finish_exchange(token("t", None));
    match callback_step(&params(&[("code", "c1"), ("state", &state)]), &s) {
        CallbackStep::Respond(p) => assert_eq!(p, "Invalid state parameter (CSRF protection)"),
        CallbackStep::Exchange(_) => panic!("state must not pass twice"),
    }
}

#[test]
fn result_and_login_pages() {
    assert_eq!(
        exchange_result_page(&Ok(())),
        "Authentication successful! You can close this window."
    );
    assert_eq!(exchange_result_page(&Err("boom".to_string())), "Authentication failed: boom");
    assert_eq!(
        login_error_page("No client"),
        "Configuration error: No client.<br>Set SPOTIFY_CLIENT_ID and restart the backend."
    );
}
