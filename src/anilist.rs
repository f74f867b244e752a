//! Helpers that turn AniList's list data into the client's display values.

use vstd::prelude::*;
use crate::lists::{
    append_chars, format_upper_snake, joined, join_with, normalize_text, normalized_text,
    opt_ref_view, pad_zeros, padded, table_get, table_lookup, table_view, upper_snake_text,
};
use crate::text::{chars_of, decimal_chars, decimal_text, string_from};

verus! {

/// The titles AniList gives a medium.
#[derive(Debug)]
pub struct AniListTitle {
    pub romaji: Option<String>,
    pub native_title: Option<String>,
    pub english: Option<String>,
}

/// A date of which any part may be unknown.
#[derive(Debug)]
pub struct AniListFuzzyDate {
    pub day: Option<u32>,
    pub month: Option<u32>,
    pub year: Option<i32>,
}

#[derive(Debug)]
pub struct AniListStudio {
    pub name: Option<String>,
}

#[derive(Debug)]
pub struct AniListStudios {
    pub nodes: Vec<AniListStudio>,
}

pub open spec fn opt_string_view(o: Option<String>) -> Option<Seq<char>> {
    match o {
        Some(s) => Some(s@),
        None => None,
    }
}

fn as_ref_str(o: &Option<String>) -> (r: Option<&str>)
    ensures
        opt_ref_view(r) == opt_string_view(*o),
{
    match o {
        Some(s) => Some(s.as_str()),
        None => None,
    }
}

/// The English title, else the romaji one, else the native one; `Unknown`
/// where none holds text.
pub open spec fn picked_title(title: Option<AniListTitle>) -> Seq<char> {
    match title {
        None => "Unknown"@,
        Some(t) => match normalized_text(opt_string_view(t.english)) {
            Some(x) => x,
            None => match normalized_text(opt_string_view(t.romaji)) {
                Some(x) => x,
                None => match normalized_text(opt_string_view(t.native_title)) {
                    Some(x) => x,
                    None => "Unknown"@,
                },
            },
        },
    }
}

pub open spec fn opt_title(title: Option<&AniListTitle>) -> Option<AniListTitle> {
    match title {
        Some(t) => Some(*t),
        None => None,
    }
}

pub fn pick_title(title: Option<&AniListTitle>) -> (r: String)
    ensures
        r@ == picked_title(opt_title(title)),
{
    let t = match title {
        Some(t) => t,
        None => {
            return "Unknown".to_owned();
        },
    };
    if let Some(x) = normalize_text(as_ref_str(&t.english)) {
        return x;
    }
    if let Some(x) = normalize_text(as_ref_str(&t.romaji)) {
        return x;
    }
    if let Some(x) = normalize_text(as_ref_str(&t.native_title)) {
        return x;
    }
    "Unknown".to_owned()
}

/// The candidates that are neither the primary title nor already listed.
pub open spec fn other_titles(cands: Seq<Option<Seq<char>>>, primary: Seq<char>) -> Seq<Seq<char>>
    decreases cands.len(),
{
    if cands.len() == 0 {
        Seq::empty()
    } else {
        let parts = other_titles(cands.drop_last(), primary);
        match cands.last() {
            Some(c) if c != primary && !parts.contains(c) => parts.push(c),
            _ => parts,
        }
    }
}

pub open spec fn alternative_titles_text(title: Option<AniListTitle>, primary: Seq<char>) -> Seq<char> {
    match title {
        None => "Unknown"@,
        Some(t) => {
            let parts = other_titles(
                seq![
                    normalized_text(opt_string_view(t.english)),
                    normalized_text(opt_string_view(t.romaji)),
                    normalized_text(opt_string_view(t.native_title)),
                ],
                primary,
            );
            if parts.len() == 0 {
                "Unknown"@
            } else {
                joined(parts, ", "@)
            }
        },
    }
}

fn contains_chars(parts: &Vec<Vec<char>>, c: &[char]) -> (r: bool)
    ensures
        r == parts@.map_values(|p: Vec<char>| p@).contains(c@),
{
    let ghost pv = parts@.map_values(|p: Vec<char>| p@);
    for i in 0..parts.len()
        invariant
            pv == parts@.map_values(|p: Vec<char>| p@),
            forall|j: int| 0 <= j < i ==> pv[j] != c@,
    {
        if crate::text::seq_eq(parts[i].as_slice(), c) {
            assert(pv[i as int] == c@);
            return true;
        }
    }
    false
}

/// The English, romaji and native titles other than the primary one,
/// each once, joined with commas.
pub fn build_alternative_titles(title: Option<&AniListTitle>, primary: &str) -> (r: String)
    ensures
        r@ == alternative_titles_text(opt_title(title), primary@),
{
    let t = match title {
        Some(t) => t,
        None => {
            return "Unknown".to_owned();
        },
    };
    let p = chars_of(primary);
    let cands = vec![
        normalize_text(as_ref_str(&t.english)),
        normalize_text(as_ref_str(&t.romaji)),
        normalize_text(as_ref_str(&t.native_title)),
    ];
    let ghost cv = seq![
        normalized_text(opt_string_view(t.english)),
        normalized_text(opt_string_view(t.romaji)),
        normalized_text(opt_string_view(t.native_title)),
    ];
    let mut parts: Vec<Vec<char>> = Vec::new();
    for i in 0..cands.len()
        invariant
            cands@.len() == 3,
            cv.len() == 3,
            forall|j: int| 0 <= j < 3 ==> opt_string_view(#[trigger] cands@[j]) == cv[j],
            p@ == primary@,
            parts@.map_values(|x: Vec<char>| x@) == other_titles(cv.take(i as int), primary@),
    {
        assert(cv.take(i + 1).drop_last() =~= cv.take(i as int));
        assert(opt_string_view(cands@[i as int]) == cv[i as int]);
        if let Some(c) = &cands[i] {
            let cc = chars_of(c.as_str());
            if !crate::text::seq_eq(cc.as_slice(), p.as_slice()) && !contains_chars(&parts, cc.as_slice()) {
                let ghost before = parts@.map_values(|x: Vec<char>| x@);
                parts.push(cc);
                assert(parts@.map_values(|x: Vec<char>| x@) =~= before.push(c@));
            }
        }
    }
    assert(cv.take(3) =~= cv);
    if parts.len() == 0 {
        return "Unknown".to_owned();
    }
    let j = join_with(&parts, ", ");
    string_from(j.as_slice())
}

pub open spec fn source_table() -> Seq<(Seq<char>, Seq<char>)> {
    seq![
        ("ORIGINAL"@, "Original"@),
        ("MANGA"@, "Manga"@),
        ("LIGHT_NOVEL"@, "Light Novel"@),
        ("VISUAL_NOVEL"@, "Visual Novel"@),
        ("VIDEO_GAME"@, "Video Game"@),
        ("GAME"@, "Game"@),
        ("OTHER"@, "Other"@),
    ]
}

pub open spec fn status_table() -> Seq<(Seq<char>, Seq<char>)> {
    seq![
        ("FINISHED"@, "Finished Airing"@),
        ("NOT_YET_RELEASED"@, "Not Yet Aired"@),
        ("RELEASING"@, "Currently Airing"@),
    ]
}

pub open spec fn media_type_table() -> Seq<(Seq<char>, Seq<char>)> {
    seq![
        ("TV"@, "TV"@),
        ("TV_SHORT"@, "TV Short"@),
        ("MOVIE"@, "Movie"@),
        ("SPECIAL"@, "Special"@),
        ("OVA"@, "OVA"@),
        ("ONA"@, "ONA"@),
        ("MUSIC"@, "Music"@),
        ("MANGA"@, "Manga"@),
        ("NOVEL"@, "Novel"@),
        ("ONE_SHOT"@, "One Shot"@),
        ("ANIME"@, "Anime"@),
    ]
}

/// A value named in `table`, else written out from its upper-snake form;
/// `Unknown` where there is none.
pub open spec fn mapped_text(table: Seq<(Seq<char>, Seq<char>)>, value: Option<Seq<char>>) -> Seq<char> {
    match value {
        None => "Unknown"@,
        Some(v) => match table_get(table, v) {
            Some(x) => x,
            None => upper_snake_text(v),
        },
    }
}

fn map_with(table: &Vec<(&'static str, &'static str)>, value: Option<String>) -> (r: String)
    ensures
        r@ == mapped_text(table_view(table@), opt_string_view(value)),
{
    match value {
        None => "Unknown".to_owned(),
        Some(v) => match table_lookup(table, v.as_str()) {
            Some(x) => x.to_owned(),
            None => format_upper_snake(v.as_str()),
        },
    }
}

pub fn map_source(source: Option<String>) -> (r: String)
    ensures
        r@ == mapped_text(source_table(), opt_string_view(source)),
{
    let table = vec![
        ("ORIGINAL", "Original"),
        ("MANGA", "Manga"),
        ("LIGHT_NOVEL", "Light Novel"),
        ("VISUAL_NOVEL", "Visual Novel"),
        ("VIDEO_GAME", "Video Game"),
        ("GAME", "Game"),
        ("OTHER", "Other"),
    ];
    assert(table_view(table@) =~= source_table());
    map_with(&table, source)
}

pub fn map_status(status: Option<String>) -> (r: String)
    ensures
        r@ == mapped_text(status_table(), opt_string_view(status)),
{
    let table = vec![
        ("FINISHED", "Finished Airing"),
        ("NOT_YET_RELEASED", "Not Yet Aired"),
        ("RELEASING", "Currently Airing"),
    ];
    assert(table_view(table@) =~= status_table());
    map_with(&table, status)
}

pub fn map_media_type(media_type: Option<String>) -> (r: String)
    ensures
        r@ == mapped_text(media_type_table(), opt_string_view(media_type)),
{
    let table = vec![
        ("TV", "TV"),
        ("TV_SHORT", "TV Short"),
        ("MOVIE", "Movie"),
        ("SPECIAL", "Special"),
        ("OVA", "OVA"),
        ("ONA", "ONA"),
        ("MUSIC", "Music"),
        ("MANGA", "Manga"),
        ("NOVEL", "Novel"),
        ("ONE_SHOT", "One Shot"),
        ("ANIME", "Anime"),
    ];
    assert(table_view(table@) =~= media_type_table());
    map_with(&table, media_type)
}

/// The genres that hold text, trimmed, each once.
pub open spec fn genre_names(genres: Seq<String>) -> Seq<Seq<char>>
    decreases genres.len(),
{
    if genres.len() == 0 {
        Seq::empty()
    } else {
        let names = genre_names(genres.drop_last());
        match normalized_text(Some(genres.last()@)) {
            Some(n) if !names.contains(n) => names.push(n),
            _ => names,
        }
    }
}

pub fn join_genres(genres: Vec<String>) -> (r: String)
    ensures
        r@ == (if genre_names(genres@).len() == 0 {
            "Unknown"@
        } else {
            joined(genre_names(genres@), ", "@)
        }),
{
    let mut values: Vec<Vec<char>> = Vec::new();
    for i in 0..genres.len()
        invariant
            values@.map_values(|x: Vec<char>| x@) == genre_names(genres@.take(i as int)),
    {
        assert(genres@.take(i + 1).drop_last() =~= genres@.take(i as int));
        if let Some(name) = normalize_text(Some(genres[i].as_str())) {
            let nc = chars_of(name.as_str());
            if !contains_chars(&values, nc.as_slice()) {
                let ghost before = values@.map_values(|x: Vec<char>| x@);
                values.push(nc);
                assert(values@.map_values(|x: Vec<char>| x@) =~= before.push(name@));
            }
        }
    }
    assert(genres@.take(genres@.len() as int) =~= genres@);
    if values.len() == 0 {
        return "Unknown".to_owned();
    }
    let j = join_with(&values, ", ");
    string_from(j.as_slice())
}

/// A year written with at least four digits, the sign counted.
pub open spec fn year_text(y: i32) -> Seq<char> {
    if y >= 0 {
        padded(decimal_text(y as u64), 4)
    } else {
        seq!['-'] + padded(decimal_text((-(y as int)) as u64), 3)
    }
}

/// `YYYY-MM-DD`, where the date is complete and its month and day are not zero.
pub open spec fn fuzzy_date_text(date: Option<AniListFuzzyDate>) -> Option<Seq<char>> {
    match date {
        Some(AniListFuzzyDate { day: Some(d), month: Some(m), year: Some(y) }) => if m == 0 || d == 0 {
            None
        } else {
            Some(year_text(y) + seq!['-'] + padded(decimal_text(m as u64), 2) + seq!['-'] + padded(
                decimal_text(d as u64),
                2,
            ))
        },
        _ => None,
    }
}

pub fn format_fuzzy_date(date: Option<AniListFuzzyDate>) -> (r: Option<String>)
    ensures
        match r {
            Some(s) => fuzzy_date_text(date) == Some(s@),
            None => fuzzy_date_text(date) is None,
        },
{
    let date = date?;
    let year = date.year?;
    let month = date.month?;
    let day = date.day?;
    if month == 0 || day == 0 {
        return None;
    }
    let mut out: Vec<char> = Vec::new();
    if year >= 0 {
        let y = pad_zeros(decimal_chars(year as u64), 4);
        append_chars(&mut out, y.as_slice());
    } else {
        out.push('-');
        let abs: u64 = (-(year as i64)) as u64;
        let y = pad_zeros(decimal_chars(abs), 3);
        append_chars(&mut out, y.as_slice());
    }
    out.push('-');
    let m = pad_zeros(decimal_chars(month as u64), 2);
    append_chars(&mut out, m.as_slice());
    out.push('-');
    let d = pad_zeros(decimal_chars(day as u64), 2);
    append_chars(&mut out, d.as_slice());
    proof {
        assert(out@ =~= fuzzy_date_text(Some(date))->0);
    }
    Some(string_from(out.as_slice()))
}

/// `Season Year`, either alone, or `Unknown`.
pub open spec fn start_season_text(season: Option<Seq<char>>, year: Option<u32>) -> Seq<char> {
    match (season, year) {
        (Some(s), Some(y)) => upper_snake_text(s) + seq![' '] + decimal_text(y as u64),
        (Some(s), None) => upper_snake_text(s),
        (None, Some(y)) => decimal_text(y as u64),
        (None, None) => "Unknown"@,
    }
}

pub fn format_start_season(season: Option<String>, season_year: Option<u32>) -> (r: String)
    ensures
        r@ == start_season_text(opt_string_view(season), season_year),
{
    match (season, season_year) {
        (Some(s), Some(y)) => {
            let mut out = chars_of(format_upper_snake(s.as_str()).as_str());
            out.push(' ');
            let yc = decimal_chars(y as u64);
            append_chars(&mut out, yc.as_slice());
            string_from(out.as_slice())
        },
        (Some(s), None) => format_upper_snake(s.as_str()),
        (None, Some(y)) => crate::text::decimal_string(y as u64),
        (None, None) => "Unknown".to_owned(),
    }
}

/// The first studio name that holds text.
pub open spec fn first_studio(nodes: Seq<AniListStudio>) -> Option<Seq<char>>
    decreases nodes.len(),
{
    if nodes.len() == 0 {
        None
    } else {
        match normalized_text(opt_string_view(nodes[0].name)) {
            Some(n) => Some(n),
            None => first_studio(nodes.drop_first()),
        }
    }
}

/// The first studio name, or `Unknown`.
pub open spec fn studio_text(studios: Option<AniListStudios>) -> Seq<char> {
    match studios {
        None => "Unknown"@,
        Some(s) => match first_studio(s.nodes@) {
            Some(n) => n,
            None => "Unknown"@,
        },
    }
}

pub fn join_studio_names(studios: Option<AniListStudios>) -> (r: String)
    ensures
        r@ == studio_text(studios),
{
    let ghost given = studios;
    let list = match studios {
        Some(s) => s,
        None => {
            return "Unknown".to_owned();
        },
    };
    assert(given == Some(list));
    let ghost nodes = list.nodes@;
    assert(nodes.skip(0) =~= nodes);
    for i in 0..list.nodes.len()
        invariant
            nodes == list.nodes@,
            given == Some(list),
            given == studios,
            first_studio(nodes) == first_studio(nodes.skip(i as int)),
    {
        assert(nodes.skip(i as int).drop_first() =~= nodes.skip(i + 1));
        assert(nodes.skip(i as int)[0] == nodes[i as int]);
        let node = &list.nodes[i];
        assert(*node == nodes[i as int]);
        if let Some(name) = normalize_text(as_ref_str(&node.name)) {
            assert(normalized_text(opt_string_view(nodes[i as int].name)) == Some(name@));
            assert(first_studio(nodes.skip(i as int)) == Some(name@));
            assert(studio_text(given) == name@);
            return name;
        }
    }
    assert(nodes.skip(nodes.len() as int).len() == 0);
    "Unknown".to_owned()
}

} // verus!
