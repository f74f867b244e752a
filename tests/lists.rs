use kioku::anilist::{
    build_alternative_titles, format_fuzzy_date, format_start_season, join_genres,
    join_studio_names, map_media_type, map_source, map_status, pick_title, AniListFuzzyDate,
    AniListStudio, AniListStudios, AniListTitle,
};
use kioku::lists::{format_upper_snake, normalize_text, UserStatusKey};
use kioku::myanimelist;
use kioku::myanimelist::{MalAlternativeTitles, MalStartSeason};

fn s(v: &str) -> Option<String> {
    Some(v.to_string())
}

#[test]
fn upper_snake_words() {
    assert_eq!(format_upper_snake("LIGHT_NOVEL"), "Light Novel");
    assert_eq!(format_upper_snake("__a__B_"), "A B");
    assert_eq!(format_upper_snake(""), "Unknown");
    assert_eq!(format_upper_snake("___"), "Unknown");
}

#[test]
fn status_keys() {
    assert_eq!(UserStatusKey::from_anilist(Some("REPEATING")), UserStatusKey::Watching);
    assert_eq!(UserStatusKey::from_anilist(Some("PAUSED")), UserStatusKey::OnHold);
    assert_eq!(UserStatusKey::from_anilist(None), UserStatusKey::PlanToWatch);
    assert_eq!(UserStatusKey::from_mal(Some("on_hold")), UserStatusKey::OnHold);
    assert_eq!(UserStatusKey::from_mal(Some("other")), UserStatusKey::PlanToWatch);
    assert_eq!(UserStatusKey::OnHold.as_user_status_str(), "onHold");
    assert_eq!(UserStatusKey::PlanToWatch.as_user_status_str(), "planToWatch");
    assert_eq!(normalize_text(Some("  x ")), s("x"));
    assert_eq!(normalize_text(Some("   ")), None);
    assert_eq!(normalize_text(None), None);
}

#[test]
fn anilist_display_values() {
    assert_eq!(map_source(s("LIGHT_NOVEL")), "Light Novel");
    assert_eq!(map_source(s("WEB_NOVEL")), "Web Novel");
    assert_eq!(map_source(None), "Unknown");
    assert_eq!(map_status(s("CANCELLED")), "Cancelled");
    assert_eq!(map_status(s("RELEASING")), "Currently Airing");
    assert_eq!(map_media_type(s("TV_SHORT")), "TV Short");
}

#[test]
fn anilist_titles() {
    let title = AniListTitle { romaji: s("Shingeki no Kyojin"), native_title: s("進撃の巨人"), english: s("Attack on Titan") };
    assert_eq!(pick_title(Some(&title)), "Attack on Titan");
    assert_eq!(build_alternative_titles(Some(&title), "Attack on Titan"), "Shingeki no Kyojin, 進撃の巨人");
    let blank = AniListTitle { romaji: s("Shingeki"), native_title: None, english: s("  ") };
    assert_eq!(pick_title(Some(&blank)), "Shingeki");
    assert_eq!(pick_title(None), "Unknown");
    let dup = AniListTitle { romaji: s("A"), native_title: None, english: s("A") };
    assert_eq!(build_alternative_titles(Some(&dup), "B"), "A");
    assert_eq!(build_alternative_titles(Some(&dup), "A"), "Unknown");
}

#[test]
fn anilist_genres_dates_seasons_studios() {
    let genres = vec!["Action".to_string(), " Action ".to_string(), "".to_string(), "Drama".to_string()];
    assert_eq!(join_genres(genres), "Action, Drama");
    assert_eq!(join_genres(vec![]), "Unknown");
    let date = |y, m, d| Some(AniListFuzzyDate { day: Some(d), month: Some(m), year: Some(y) });
    assert_eq!(format_fuzzy_date(date(2024, 1, 5)), s("2024-01-05"));
    assert_eq!(format_fuzzy_date(date(7, 12, 31)), s("0007-12-31"));
    assert_eq!(format_fuzzy_date(date(-1, 1, 5)), s("-001-01-05"));
    assert_eq!(format_fuzzy_date(date(2024, 0, 5)), None);
    assert_eq!(format_fuzzy_date(Some(AniListFuzzyDate { day: None, month: Some(1), year: Some(2000) })), None);
    assert_eq!(format_start_season(s("SPRING"), Some(2024)), "Spring 2024");
    assert_eq!(format_start_season(None, Some(2024)), "2024");
    assert_eq!(format_start_season(s("FALL"), None), "Fall");
    assert_eq!(format_start_season(None, None), "Unknown");
    let studios = AniListStudios {
        nodes: vec![AniListStudio { name: None }, AniListStudio { name: s(" ") }, AniListStudio { name: s(" MAPPA ") }],
    };
    assert_eq!(join_studio_names(Some(studios)), "MAPPA");
    assert_eq!(join_studio_names(None), "Unknown");
}

#[test]
fn mal_display_values() {
    assert_eq!(myanimelist::map_source(s("light_novel")), "Light Novel");
    assert_eq!(myanimelist::map_source(s("web_manga")), "web_manga");
    assert_eq!(myanimelist::map_status(s("finished_airing")), "Finished Airing");
    assert_eq!(myanimelist::map_media_type(s("tv_special")), "Special");
    assert_eq!(myanimelist::map_media_type(None), "Unknown");
    assert_eq!(myanimelist::join_names(vec![]), "Unknown");
    assert_eq!(myanimelist::join_names(vec!["A".to_string(), "".to_string(), "B".to_string()]), "A, B");
    assert_eq!(myanimelist::join_names(vec!["".to_string()]), "Unknown");
}

#[test]
fn mal_titles_and_seasons() {
    let alt = MalAlternativeTitles { synonyms: Some(vec!["S1".to_string(), "S2".to_string()]), en: s("En"), ja: s("Ja") };
    assert_eq!(myanimelist::build_alternative_titles(Some(alt)), "En, Ja, S1, S2");
    let en_only = MalAlternativeTitles { synonyms: None, en: s("En"), ja: None };
    assert_eq!(myanimelist::build_alternative_titles(Some(en_only)), "En, ");
    let none = MalAlternativeTitles { synonyms: Some(vec![]), en: None, ja: None };
    assert_eq!(myanimelist::build_alternative_titles(Some(none)), "Unknown");
    assert_eq!(myanimelist::build_alternative_titles(None), "Unknown");
    let season = |name: Option<String>, year| Some(MalStartSeason { season: name, year });
    assert_eq!(myanimelist::format_start_season(season(s("spring"), Some(2024))), "spring 2024");
    assert_eq!(myanimelist::format_start_season(season(None, Some(2020))), "Unknown 2020");
    assert_eq!(myanimelist::format_start_season(season(s(""), None)), "Unknown");
    assert_eq!(myanimelist::format_start_season(season(s("fall"), None)), "fall Unknown");
    assert_eq!(myanimelist::format_start_season(None), "Unknown");
}

#[test]
fn mal_urls() {
    let url = myanimelist::build_animelist_url("@me", 2000).expect("a URL");
    let parsed = url::Url::parse(&url).expect("parses");
    // The base path ends with a slash, so the appended segments follow an empty one.
    assert_eq!(parsed.path(), "/v2/users//@me/animelist");
    let pairs: Vec<(String, String)> = parsed.query_pairs().map(|(k, v)| (k.into_owned(), v.into_owned())).collect();
    assert_eq!(pairs[0].0, "fields");
    assert_eq!(pairs[0].1, myanimelist::LIST_FIELDS);
    assert_eq!(pairs[1], ("nsfw".to_string(), "true".to_string()));
    assert_eq!(pairs[2], ("limit".to_string(), "1000".to_string()));
    assert_eq!(pairs[3], ("offset".to_string(), "2000".to_string()));
    assert_eq!(
        myanimelist::parse_next_offset("https://api.myanimelist.net/v2/users/@me/animelist?offset=1000&limit=1000&offset=5"),
        Some(1000)
    );
    assert_eq!(myanimelist::parse_next_offset("https://api.myanimelist.net/v2/users/x/animelist?limit=1"), None);
    assert_eq!(myanimelist::parse_next_offset("nonsense"), None);
    assert_eq!(myanimelist::update_url(42), "https://api.myanimelist.net/v2/anime/42/my_list_status");
}
