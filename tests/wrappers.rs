use kioku::oauth::{callback_params, get_param};
use kioku::processes::parse_linux_cmdline;
use kioku::secure_store::{generate_master_key, master_key_from_random, StoreError};
use kioku::updates::UpdateError;
use kioku::token_manager::{compute_expires_at_unix_secs, ProviderConfig, TokenError, TokenManagerState};

#[test]
fn invalid_utf8_arguments_are_read_lossily() {
    assert_eq!(parse_linux_cmdline(b"mpv\0a\xffb.mkv\0"), vec!["mpv".to_string(), "a\u{FFFD}b.mkv".to_string()]);
}

#[test]
fn callback_values_are_percent_decoded() {
    let (parts, params) = callback_params("kioku://host/first/second?code=a%20b+c&x=%E9%80%B2#y=1").expect("parses");
    assert_eq!(get_param(&params, "code").as_deref(), Some("a b c"));
    assert_eq!(get_param(&params, "x").as_deref(), Some("進"));
    assert_eq!(get_param(&params, "y").as_deref(), Some("1"));
    assert_eq!(parts.host.as_deref(), Some("host"));
    assert_eq!(parts.first_segment.as_deref(), Some("first"));
}

#[test]
fn refresh_form_carries_extra_parameters() {
    let mut tm = TokenManagerState::new();
    tm.register_provider(
        "p",
        ProviderConfig::new("cid", "https://p/a", "https://p/t").with_refresh_param("scope", "list"),
    );
    let (_, form) = tm.refresh_params("p", Some("r".to_string())).expect("a form");
    assert_eq!(form.last(), Some(&("scope".to_string(), "list".to_string())));
    assert!(matches!(tm.refresh_params("zz", Some("r".to_string())), Err(TokenError::ProviderNotRegistered(_))));
}

#[test]
fn expiry_arithmetic() {
    assert_eq!(compute_expires_at_unix_secs(3600, 1_000).ok(), Some(4_600));
    assert!(matches!(compute_expires_at_unix_secs(2, u64::MAX - 1), Err(TokenError::ExpirationOverflow)));
}

#[test]
fn master_keys_differ() {
    let (a, _) = generate_master_key().expect("a key");
    let (b, _) = generate_master_key().expect("a key");
    assert_ne!(a, b);
}

#[test]
fn master_key_text_is_padded_base64() {
    let (k, t) = master_key_from_random(Some(b"foob".to_vec())).expect("a key");
    assert_eq!(k, b"foob".to_vec());
    assert_eq!(t, "Zm9vYg==");
    let (_, t) = master_key_from_random(Some(b"foo".to_vec())).expect("a key");
    assert_eq!(t, "Zm9v");
    let (_, t) = master_key_from_random(Some(vec![0xfb, 0xff])).expect("a key");
    assert_eq!(t, "+/8=");
    assert!(matches!(master_key_from_random(None), Err(StoreError::RandomSourceFailed)));
    assert_eq!(StoreError::RandomSourceFailed.message(), "Failed to draw a random key");
}

#[test]
fn error_texts() {
    assert_eq!(TokenError::MissingTokenUrl("p".to_string()).message(), "Missing token URL configuration for provider p");
    assert_eq!(TokenError::ReauthorizeRequired("q".to_string()).message(), "q access token expired or missing; reauthorize");
    assert_eq!(UpdateError::InvalidStatus("x".to_string()).message(), "Invalid status: x");
    assert_eq!(UpdateError::NoUpdateFields.message(), "No update fields provided");
}
