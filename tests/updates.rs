use kioku::secure_store::{
    access_record_key, decode_master_key, generate_master_key, refresh_record_key,
    refresh_token_from_record, StoreError, StrongholdKeyState,
};
use kioku::text::decimal_string;
use kioku::updates::{
    anilist_update_variables, mal_update_params, map_user_status_to_anilist, map_user_status_to_mal,
    parse_fuzzy_date_input, route_update, AnimeListUpdateRequest, FuzzyDateInput, UpdateError,
    UpdateRoute, UPDATE_INTERVAL_MS, UPDATE_QUEUE_CAPACITY,
};

fn request(provider_id: &str) -> AnimeListUpdateRequest {
    AnimeListUpdateRequest {
        provider_id: provider_id.to_string(),
        entry_id: 42,
        user_status: None,
        user_score: None,
        user_episodes_watched: None,
        is_rewatching: None,
        user_comments: None,
        user_num_times_rewatched: None,
        user_start_date: None,
        user_finish_date: None,
    }
}

fn pairs(items: &[(&str, &str)]) -> Vec<(String, String)> {
    items.iter().map(|(k, v)| (k.to_string(), v.to_string())).collect()
}

#[test]
fn queue_constants() {
    assert_eq!(UPDATE_QUEUE_CAPACITY, 256);
    assert_eq!(UPDATE_INTERVAL_MS, 1000);
}

#[test]
fn updates_are_routed_by_provider() {
    assert_eq!(route_update("myanimelist").ok(), Some(UpdateRoute::MyAnimeList));
    assert_eq!(route_update("anilist").ok(), Some(UpdateRoute::AniList));
    match route_update("kitsu") {
        Err(UpdateError::UnsupportedProvider(p)) => assert_eq!(p, "kitsu"),
        other => panic!("unexpected {other:?}"),
    }
    assert_eq!(UpdateError::UnsupportedProvider("kitsu".to_string()).message(), "Provider not supported: kitsu");
}

#[test]
fn mal_form_lists_the_given_fields() {
    let mut u = request("myanimelist");
    u.user_status = Some("onHold".to_string());
    u.user_score = Some(8);
    u.user_episodes_watched = Some(120);
    u.is_rewatching = Some(false);
    u.user_start_date = Some(" 2024-01-05 ".to_string());
    u.user_finish_date = Some("   ".to_string());
    assert_eq!(
        mal_update_params(&u).expect("a form"),
        pairs(&[
            ("status", "on_hold"),
            ("score", "8"),
            ("num_watched_episodes", "120"),
            ("is_rewatching", "false"),
            ("start_date", "2024-01-05"),
        ])
    );
    assert!(matches!(mal_update_params(&request("myanimelist")), Err(UpdateError::NoUpdateFields)));
    let mut bad = request("myanimelist");
    bad.user_status = Some("binging".to_string());
    assert!(matches!(mal_update_params(&bad), Err(UpdateError::InvalidStatus(_))));
}

#[test]
fn status_names() {
    assert_eq!(map_user_status_to_mal("planToWatch"), Some("plan_to_watch"));
    assert_eq!(map_user_status_to_mal("plan_to_watch"), Some("plan_to_watch"));
    assert_eq!(map_user_status_to_mal("x"), None);
    assert_eq!(map_user_status_to_anilist("watching").ok(), Some("CURRENT"));
    assert_eq!(map_user_status_to_anilist("on_hold").ok(), Some("PAUSED"));
    assert!(map_user_status_to_anilist("x").is_err());
}

#[test]
fn fuzzy_dates() {
    assert_eq!(parse_fuzzy_date_input(None, "f").ok(), Some(None));
    assert_eq!(parse_fuzzy_date_input(Some("  "), "f").ok(), Some(None));
    assert_eq!(
        parse_fuzzy_date_input(Some("2024-02-29"), "f").ok(),
        Some(Some(FuzzyDateInput { year: 2024, month: 2, day: 29 }))
    );
    assert_eq!(
        parse_fuzzy_date_input(Some("+2024-2-3"), "f").ok(),
        Some(Some(FuzzyDateInput { year: 2024, month: 2, day: 3 }))
    );
    for bad in ["2024-13-01", "2024-01-32", "2024-01", "2024-01-01-01", "2024-aa-01", "2024--01"] {
        match parse_fuzzy_date_input(Some(bad), "userStartDate") {
            Err(e) => assert_eq!(e.message(), "Invalid userStartDate: expected YYYY-MM-DD"),
            Ok(v) => panic!("{bad} gave {v:?}"),
        }
    }
}

#[test]
fn anilist_variables() {
    let mut u = request("anilist");
    u.is_rewatching = Some(true);
    u.user_comments = Some("  fun  ".to_string());
    u.user_finish_date = Some("2023-12-31".to_string());
    let v = anilist_update_variables(&u).expect("variables");
    assert_eq!(v.save_media_list_entry_id, 42);
    assert_eq!(v.repeat, Some(1));
    assert_eq!(v.notes.as_deref(), Some("fun"));
    assert_eq!(v.completed_at, Some(FuzzyDateInput { year: 2023, month: 12, day: 31 }));
    assert!(v.status.is_none());
    u.user_num_times_rewatched = Some(4);
    assert_eq!(anilist_update_variables(&u).expect("variables").repeat, Some(4));
    assert!(matches!(anilist_update_variables(&request("anilist")), Err(UpdateError::NoUpdateFields)));
    let mut bad = request("anilist");
    bad.user_start_date = Some("yesterday".to_string());
    match anilist_update_variables(&bad) {
        Err(UpdateError::InvalidDate(f)) => assert_eq!(f, "userStartDate"),
        other => panic!("unexpected {other:?}"),
    }
}

#[test]
fn decimal_text() {
    assert_eq!(decimal_string(0), "0");
    assert_eq!(decimal_string(907), "907");
    assert_eq!(decimal_string(u64::MAX), u64::MAX.to_string());
}

#[test]
fn record_keys() {
    assert_eq!(refresh_record_key("myanimelist"), "myanimelist:refresh_token");
    assert_eq!(access_record_key("anilist"), "anilist:access_token");
}

#[test]
fn master_keys() {
    let (key, text) = generate_master_key().expect("a key");
    assert_eq!(key.len(), 32);
    assert_eq!(decode_master_key(&text).expect("decodes"), key);
    assert!(matches!(decode_master_key("AAAA"), Err(StoreError::InvalidKeyLength)));
    assert!(matches!(decode_master_key("not base64!"), Err(StoreError::InvalidKeyEncoding)));
    let mut state = StrongholdKeyState::new();
    assert!(matches!(state.get_key(), Err(StoreError::KeyNotInitialized)));
    state.set_key(key.clone());
    assert_eq!(state.get_key().expect("set"), key);
}

#[test]
fn refresh_records() {
    assert_eq!(refresh_token_from_record(Some(b"tok".to_vec())).as_deref(), Some("tok"));
    assert_eq!(refresh_token_from_record(Some(vec![0xff, 0xfe])), None);
    assert_eq!(refresh_token_from_record(None), None);
}
