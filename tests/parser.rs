use kioku::parser::{
    extract_source_title, is_plausible_episode, is_url_source, looks_like_windows_path,
    normalize_source_arg, normalize_title_tokens, parse_anime_from_source, hex_to_u8,
};

fn parse(source: &str) -> (String, Option<u32>) {
    let parsed = parse_anime_from_source(source).expect("a title");
    (parsed.anime_title, parsed.episode)
}

#[test]
fn fansub_style_title() {
    assert_eq!(
        parse("[Group] Shingeki no Kyojin - 07 [1080p][HEVC].mkv"),
        ("Shingeki no Kyojin".to_string(), Some(7))
    );
}

#[test]
fn season_episode_title() {
    assert_eq!(
        parse("Oshi.no.Ko.S01E12.1080p.WEB-DL.mkv"),
        ("Oshi no Ko".to_string(), Some(12))
    );
}

#[test]
fn japanese_episode_title() {
    assert_eq!(parse("進撃の巨人 第03話.mp4"), ("進撃の巨人".to_string(), Some(3)));
}

#[test]
fn year_is_not_an_episode() {
    // The year is rejected as an episode; no cleaning step removes it from the title.
    assert_eq!(parse("movie_trailer_2021.mov"), ("movie trailer 2021".to_string(), None));
}

#[test]
fn resolution_is_not_an_episode() {
    let (title, episode) = parse("Some Show 1080.mkv");
    assert_eq!(episode, None);
    assert_eq!(title, "Some Show 1080");
}

#[test]
fn bracketed_episode_and_fallback() {
    assert_eq!(parse("[Sub] Frieren [05][720p].mkv"), ("Frieren".to_string(), Some(5)));
    assert_eq!(parse("Mushishi 13.mkv"), ("Mushishi".to_string(), Some(13)));
    assert_eq!(parse("Bocchi the Rock! EP 04.mkv"), ("Bocchi the Rock!".to_string(), Some(4)));
}

#[test]
fn path_and_url_sources() {
    assert_eq!(
        parse("C:\\Videos\\Anime\\Made.in.Abyss.E03.mkv"),
        ("Made in Abyss".to_string(), Some(3))
    );
    assert_eq!(
        parse("https://example.com/media/Vinland%20Saga%20-%2002.mp4?token=x#t=10"),
        ("Vinland Saga".to_string(), Some(2))
    );
    assert_eq!(parse("/home/u/Mob+Psycho+100+-+05.mkv"), ("Mob Psycho 100".to_string(), Some(5)));
}

#[test]
fn empty_sources_give_nothing() {
    assert!(parse_anime_from_source("").is_none());
    assert!(parse_anime_from_source("  \"\"  ").is_none());
    assert!(parse_anime_from_source("[1080p].mkv").is_none());
}

#[test]
fn plausible_episode_numbers() {
    assert!(is_plausible_episode(1));
    assert!(is_plausible_episode(5000));
    assert!(!is_plausible_episode(0));
    assert!(!is_plausible_episode(5001));
    for n in [360, 480, 540, 576, 720, 1080, 1440, 2160, 2880, 3840, 4096, 4320] {
        assert!(!is_plausible_episode(n));
    }
    assert!(!is_plausible_episode(1900));
    assert!(!is_plausible_episode(2100));
    assert!(is_plausible_episode(1899));
    assert!(is_plausible_episode(2101));
}

#[test]
fn source_title_extraction() {
    assert_eq!(extract_source_title("'/a/b/My%20Show.mkv'"), Some("My Show".to_string()));
    assert_eq!(extract_source_title("dir\\file.name.mkv"), Some("file.name".to_string()));
    assert_eq!(extract_source_title(".hidden"), Some(".hidden".to_string()));
    assert_eq!(extract_source_title("   "), None);
}

#[test]
fn title_tokens_are_normalised() {
    assert_eq!(normalize_title_tokens("a.b_c   d"), "a b c d");
}

#[test]
fn source_arguments() {
    assert_eq!(normalize_source_arg("\"/v/Show 01.MKV\""), Some("/v/Show 01.MKV".to_string()));
    assert_eq!(normalize_source_arg("/v/notes.txt"), None);
    assert_eq!(normalize_source_arg("/v/clip.mp4?x=1#y"), Some("/v/clip.mp4?x=1#y".to_string()));
    assert_eq!(normalize_source_arg("HTTPS://host/stream"), Some("HTTPS://host/stream".to_string()));
    assert_eq!(normalize_source_arg("  "), None);
    assert!(is_url_source("rtsp://cam"));
    assert!(!is_url_source("mailto:x"));
    assert!(looks_like_windows_path("C:\\x"));
    assert!(looks_like_windows_path("d:/x"));
    assert!(!looks_like_windows_path("/x:"));
    assert_eq!(hex_to_u8(b'a'), Some(10));
    assert_eq!(hex_to_u8(b'F'), Some(15));
    assert_eq!(hex_to_u8(b'g'), None);
}
