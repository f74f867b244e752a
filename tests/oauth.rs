use kioku::oauth::{callback_params, get_param, CallbackAction, CallbackError};
use kioku::pkce::{generate_pkce, pkce_challenge, ChallengeMethod};
use kioku::token_manager::{AccessStep, ProviderConfig, TokenError, TokenManagerState, TokenResponse};

const NOW: u64 = 1_700_000_000;

fn query_of(url: &str) -> Vec<(String, String)> {
    url::Url::parse(url)
        .expect("a URL")
        .query_pairs()
        .map(|(k, v)| (k.into_owned(), v.into_owned()))
        .collect()
}

fn value(pairs: &[(String, String)], key: &str) -> Option<String> {
    pairs.iter().rev().find(|(k, _)| k == key).map(|(_, v)| v.clone())
}

fn code_flow_manager() -> TokenManagerState {
    let config = ProviderConfig::new("cid", "https://p.example/authorize", "https://p.example/token")
        .with_authorize_param("response_type", "code")
        .with_authorize_param("redirect_uri", "kioku://p")
        .with_authorize_param("code_challenge_method", "plain")
        .with_token_param("redirect_uri", "kioku://p")
        .with_callback_hint("p");
    let mut tm = TokenManagerState::new();
    tm.register_provider("p", config);
    tm
}

fn implicit_flow_manager() -> TokenManagerState {
    let config = ProviderConfig::new("qid", "https://q.example/authorize", "")
        .with_state(false)
        .with_callback_code_param(None)
        .with_callback_access_token_param(Some("access_token"))
        .with_default_access_token_ttl(Some(31_536_000))
        .with_authorize_param("response_type", "token")
        .with_authorize_param("redirect_uri", "kioku://q")
        .with_authorize_param("code_challenge_method", "S256")
        .with_callback_hint("q");
    let mut tm = TokenManagerState::new();
    tm.register_provider("q", config);
    tm
}

#[test]
fn code_flow_happy_path() {
    let mut tm = code_flow_manager();
    let url = tm
        .start_authorization("p", Some("S".to_string()), Some("V".to_string()))
        .expect("an authorize URL");
    let query = query_of(&url);
    assert_eq!(value(&query, "state").as_deref(), Some("S"));
    assert_eq!(value(&query, "code_challenge").as_deref(), Some("V"));
    assert_eq!(value(&query, "response_type").as_deref(), Some("code"));
    assert_eq!(value(&query, "redirect_uri").as_deref(), Some("kioku://p"));
    assert_eq!(value(&query, "client_id").as_deref(), Some("cid"));

    let action = tm.process_callback("kioku://p?code=abc&state=S", None, NOW).expect("success");
    let verifier = match action {
        CallbackAction::ExchangeCode { provider_id, code, code_verifier } => {
            assert_eq!(provider_id, "p");
            assert_eq!(code, "abc");
            code_verifier
        }
        other => panic!("unexpected action {other:?}"),
    };
    assert_eq!(verifier.as_deref(), Some("V"));

    let (token_url, form) = tm.exchange_params("p", "abc", verifier).expect("a form");
    assert_eq!(token_url, "https://p.example/token");
    let expected: Vec<(String, String)> = [
        ("grant_type", "authorization_code"),
        ("client_id", "cid"),
        ("code", "abc"),
        ("code_verifier", "V"),
        ("redirect_uri", "kioku://p"),
    ]
    .iter()
    .map(|(k, v)| (k.to_string(), v.to_string()))
    .collect();
    assert_eq!(form, expected);

    let response = TokenResponse {
        token_type: "Bearer".to_string(),
        expires_in: 3600,
        access_token: "t".to_string(),
        refresh_token: Some("r".to_string()),
    };
    assert_eq!(tm.store_token_response("p", &response, NOW).expect("stored"), NOW + 3600);
    assert_eq!(tm.get_valid_access_token("p", NOW).as_deref(), Some("t"));
    // The state was consumed: a second callback with it fails.
    let again = tm.process_callback("kioku://p?code=abc&state=S", None, NOW).unwrap_err();
    assert!(matches!(again.error, CallbackError::UnknownState));
    assert_eq!(again.provider_id.as_deref(), Some("p"));
}

#[test]
fn implicit_flow_with_expiry() {
    let mut tm = implicit_flow_manager();
    let verifier = "dBjftJeZ4CVP-mB92K27uhbUJU1p1r_wW1gFWFOEjXk";
    let url = tm.start_authorization("q", None, Some(verifier.to_string())).expect("a URL");
    let query = query_of(&url);
    assert_eq!(value(&query, "response_type").as_deref(), Some("token"));
    assert_eq!(
        value(&query, "code_challenge").as_deref(),
        Some("E9Melhoa2OwvFrEMTJguCHaoeK1t8URWbuGJSstw-cM")
    );
    assert_eq!(value(&query, "state"), None);

    let action = tm
        .process_callback("kioku://q/#access_token=at&token_type=Bearer&expires_in=3600", None, NOW)
        .expect("success");
    match action {
        CallbackAction::TokenStored { provider_id, access_token, expires_at } => {
            assert_eq!(provider_id, "q");
            assert_eq!(access_token, "at");
            assert_eq!(expires_at, NOW + 3600);
        }
        other => panic!("unexpected action {other:?}"),
    }
    assert_eq!(tm.get_valid_access_token("q", NOW).as_deref(), Some("at"));
}

#[test]
fn implicit_flow_default_ttl() {
    let mut tm = implicit_flow_manager();
    let action = tm
        .process_callback("kioku://q/#access_token=at&token_type=Bearer", None, NOW)
        .expect("success");
    match action {
        CallbackAction::TokenStored { expires_at, .. } => assert_eq!(expires_at, NOW + 31_536_000),
        other => panic!("unexpected action {other:?}"),
    }
}

#[test]
fn fragment_overrides_query() {
    let (_, params) = callback_params("kioku://x/?a=1&b=2#b=3&c=4").expect("parses");
    assert_eq!(get_param(&params, "a").as_deref(), Some("1"));
    assert_eq!(get_param(&params, "b").as_deref(), Some("3"));
    assert_eq!(get_param(&params, "c").as_deref(), Some("4"));
    assert_eq!(get_param(&params, "d"), None);
    assert!(callback_params("not a url").is_none());
}

#[test]
fn callback_failures() {
    let mut tm = code_flow_manager();
    let f = tm.process_callback("::", None, NOW).unwrap_err();
    assert!(matches!(f.error, CallbackError::InvalidUrl));
    let f = tm.process_callback("kioku://nobody?x=1", None, NOW).unwrap_err();
    assert!(matches!(f.error, CallbackError::UnknownProvider));
    assert!(f.provider_id.is_none());
    let f = tm.process_callback("kioku://p?code=abc", None, NOW).unwrap_err();
    assert!(matches!(f.error, CallbackError::MissingState));
    let f = tm.process_callback("kioku://p?error=access_denied&state=S", None, NOW).unwrap_err();
    match f.error {
        CallbackError::Denied(e) => assert_eq!(e, "access_denied"),
        other => panic!("unexpected error {other:?}"),
    }
    let f = tm.process_callback("kioku://x?code=abc", Some("nobody"), NOW).unwrap_err();
    assert!(matches!(f.error, CallbackError::ProviderNotRegistered));
}

#[test]
fn state_mismatch_consumes_the_state() {
    let mut tm = code_flow_manager();
    tm.register_provider(
        "other",
        ProviderConfig::new("o", "https://o.example/a", "https://o.example/t"),
    );
    tm.set_pkce_state("S".to_string(), "other", Some("V".to_string()));
    let f = tm.process_callback("kioku://p?code=abc&state=S", Some("p"), NOW).unwrap_err();
    assert!(matches!(f.error, CallbackError::StateMismatch));
    assert!(tm.take_pkce_state("S").is_none());
}

#[test]
fn missing_payload_names_the_fields() {
    let mut tm = code_flow_manager();
    tm.set_pkce_state("S".to_string(), "p", Some("V".to_string()));
    let f = tm.process_callback("kioku://p?state=S", None, NOW).unwrap_err();
    match f.error {
        CallbackError::MissingPayload(names) => assert_eq!(names, vec!["code".to_string()]),
        other => panic!("unexpected error {other:?}"),
    }
}

#[test]
fn state_is_taken_once() {
    let mut tm = code_flow_manager();
    tm.set_pkce_state("S".to_string(), "p", None);
    assert_eq!(tm.get_pkce_state_provider("S").as_deref(), Some("p"));
    let first = tm.take_pkce_state("S").expect("pending");
    assert_eq!(first.0, "p");
    assert!(tm.take_pkce_state("S").is_none());
    assert!(tm.get_pkce_state_provider("S").is_none());
}

#[test]
fn verifier_pool_is_overwritten_and_taken() {
    let mut tm = code_flow_manager();
    tm.set_pkce_verifier("p", "one".to_string());
    tm.set_pkce_verifier("p", "two".to_string());
    assert_eq!(tm.take_pkce_verifier("p").as_deref(), Some("two"));
    assert_eq!(tm.take_pkce_verifier("p"), None);
}

#[test]
fn token_freshness_window() {
    let mut tm = code_flow_manager();
    tm.set_access_token("p", "t".to_string(), 3600, NOW).expect("fits");
    let expires_at = NOW + 3600;
    assert_eq!(tm.get_valid_access_token("p", expires_at - 61).as_deref(), Some("t"));
    assert_eq!(tm.get_valid_access_token("p", expires_at - 60), None);
    assert_eq!(tm.get_valid_access_token("p", expires_at - 1), None);
    assert_eq!(tm.get_valid_access_token("p", expires_at), None);
    // Inside the window a code-flow provider is refreshed.
    match tm.next_access_step("p", None, expires_at - 30) {
        Ok(AccessStep::Refresh) => {}
        other => panic!("unexpected step {other:?}"),
    }
    assert!(matches!(tm.set_access_token("p", "t".to_string(), u64::MAX, NOW), Err(TokenError::ExpirationOverflow)));
}

#[test]
fn persisted_record_warms_the_cache() {
    let mut tm = code_flow_manager();
    let record = Some(("stored".to_string(), NOW + 600));
    match tm.next_access_step("p", record, NOW) {
        Ok(AccessStep::Ready(t)) => assert_eq!(t, "stored"),
        other => panic!("unexpected step {other:?}"),
    }
    assert_eq!(tm.get_valid_access_token("p", NOW).as_deref(), Some("stored"));
    let stale = Some(("old".to_string(), NOW + 60));
    assert!(tm.restore_access_token("x", stale, NOW).is_none());
}

#[test]
fn implicit_provider_must_reauthorize() {
    let mut tm = implicit_flow_manager();
    match tm.next_access_step("q", None, NOW) {
        Err(TokenError::ReauthorizeRequired(p)) => assert_eq!(p, "q"),
        other => panic!("unexpected step {other:?}"),
    }
}

#[test]
fn authorize_and_exchange_errors() {
    let tm = code_flow_manager();
    assert!(matches!(tm.build_authorize_url("p", None, Some("S")), Err(TokenError::MissingCodeChallenge)));
    assert!(matches!(tm.build_authorize_url("zz", Some("c"), None), Err(TokenError::ProviderNotRegistered(_))));
    assert!(matches!(tm.exchange_params("p", "c", None), Err(TokenError::MissingCodeVerifier)));
    assert!(matches!(tm.refresh_params("p", None), Err(TokenError::NoRefreshToken)));
    let (url, form) = tm.refresh_params("p", Some("r".to_string())).expect("a form");
    assert_eq!(url, "https://p.example/token");
    assert_eq!(form[0], ("client_id".to_string(), "cid".to_string()));
    assert_eq!(form[1], ("grant_type".to_string(), "refresh_token".to_string()));
    assert_eq!(form[2], ("refresh_token".to_string(), "r".to_string()));
    let implicit = implicit_flow_manager();
    assert!(matches!(implicit.exchange_params("q", "c", Some("v".to_string())), Err(TokenError::MissingTokenUrl(_))));
    let bad = {
        let mut tm = TokenManagerState::new();
        tm.register_provider("b", ProviderConfig::new("c", "not a url", "t").with_pkce(false));
        tm
    };
    assert!(matches!(bad.build_authorize_url("b", None, None), Err(TokenError::InvalidAuthorizeUrl)));
    assert_eq!(TokenError::ProviderNotRegistered("x".to_string()).message(), "Provider not registered: x");
}

#[test]
fn pkce_challenges() {
    assert_eq!(
        pkce_challenge(ChallengeMethod::S256, "dBjftJeZ4CVP-mB92K27uhbUJU1p1r_wW1gFWFOEjXk"),
        "E9Melhoa2OwvFrEMTJguCHaoeK1t8URWbuGJSstw-cM"
    );
    assert_eq!(pkce_challenge(ChallengeMethod::Plain, "abc"), "abc");
    let pair = generate_pkce();
    assert_eq!(pair.code_verifier.len(), 64);
    assert!(pair.code_verifier.chars().all(|c| c.is_ascii_alphanumeric()));
    assert_eq!(pair.code_challenge, pkce_challenge(ChallengeMethod::S256, &pair.code_verifier));
}

#[test]
fn begin_authorization_records_a_random_state() {
    let mut tm = code_flow_manager();
    let url = tm.begin_authorization("p").expect("a URL");
    let query = query_of(&url);
    let state = value(&query, "state").expect("a state");
    assert_eq!(state.len(), 32);
    assert!(state.chars().all(|c| c.is_ascii_alphanumeric()));
    let (provider, verifier) = tm.take_pkce_state(&state).expect("recorded");
    assert_eq!(provider, "p");
    let verifier = verifier.expect("a verifier");
    assert_eq!(verifier.len(), 64);
    assert_eq!(value(&query, "code_challenge").as_deref(), Some(verifier.as_str()));
}

#[test]
fn callback_hint_and_payload_lookup() {
    let tm = code_flow_manager();
    assert_eq!(tm.get_provider_from_callback_hint("p").as_deref(), Some("p"));
    assert_eq!(tm.get_provider_from_callback_hint("zz"), None);
    let params = vec![("code".to_string(), "x".to_string())];
    assert_eq!(tm.infer_provider_from_callback_params(&params).as_deref(), Some("p"));
    let provider = tm.get_provider("p").expect("registered");
    assert_eq!(provider.client_id, "cid");
    assert!(tm.get_provider("zz").is_err());
}
