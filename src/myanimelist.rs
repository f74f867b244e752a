//! Helpers that turn MyAnimeList's list data into the client's display
//! values, and the URLs of its list pages.

use vstd::prelude::*;
use crate::anilist::opt_string_view;
use crate::lists::{append_chars, join_with, joined, table_get, table_lookup, table_view};
use crate::oauth::{form_pairs, form_pairs_of, parse_url, url_parses, url_query_of};
use crate::text::{chars_of, decimal_string, decimal_text, decimal_u64, parse_u64, string_from};
use crate::token_manager::{opt_view, pairs_view, url_with_params, url_with_params_of};

verus! {

pub const LIST_BASE_URL: &'static str = "https://api.myanimelist.net/v2/users/";

pub const UPDATE_BASE_URL: &'static str = "https://api.myanimelist.net/v2/anime/";

pub const LIST_FIELDS: &'static str = "list_status,synopsis,alternative_titles,source,num_episodes,nsfw,start_season,media_type,studios,mean,status,genres,broadcast,start_date";

/// Entries asked for per page.
pub const PAGE_LIMIT: u32 = 1000;

#[derive(Debug)]
pub struct MalAlternativeTitles {
    pub synonyms: Option<Vec<String>>,
    pub en: Option<String>,
    pub ja: Option<String>,
}

#[derive(Debug)]
pub struct MalStartSeason {
    pub season: Option<String>,
    pub year: Option<u32>,
}

pub open spec fn mal_source_table() -> Seq<(Seq<char>, Seq<char>)> {
    seq![
        ("anime"@, "Anime"@),
        ("manga"@, "Manga"@),
        ("light_novel"@, "Light Novel"@),
        ("visual_novel"@, "Visual Novel"@),
        ("original"@, "Original"@),
    ]
}

pub open spec fn mal_status_table() -> Seq<(Seq<char>, Seq<char>)> {
    seq![
        ("finished_airing"@, "Finished Airing"@),
        ("not_yet_aired"@, "Not Yet Aired"@),
        ("currently_airing"@, "Currently Airing"@),
    ]
}

pub open spec fn mal_media_type_table() -> Seq<(Seq<char>, Seq<char>)> {
    seq![
        ("tv"@, "TV"@),
        ("tv_special"@, "Special"@),
        ("movie"@, "Movie"@),
        ("special"@, "Special"@),
        ("ona"@, "ONA"@),
        ("ova"@, "OVA"@),
        ("unknown"@, "Unknown"@),
    ]
}

/// A value named in `table`, else the value itself; `Unknown` where there is none.
pub open spec fn named_or_raw(table: Seq<(Seq<char>, Seq<char>)>, value: Option<Seq<char>>) -> Seq<char> {
    match value {
        None => "Unknown"@,
        Some(v) => match table_get(table, v) {
            Some(x) => x,
            None => v,
        },
    }
}

fn map_or_keep(table: &Vec<(&'static str, &'static str)>, value: Option<String>) -> (r: String)
    ensures
        r@ == named_or_raw(table_view(table@), opt_string_view(value)),
{
    match value {
        None => "Unknown".to_owned(),
        Some(v) => match table_lookup(table, v.as_str()) {
            Some(x) => x.to_owned(),
            None => v,
        },
    }
}

pub fn map_source(source: Option<String>) -> (r: String)
    ensures
        r@ == named_or_raw(mal_source_table(), opt_string_view(source)),
{
    let table = vec![
        ("anime", "Anime"),
        ("manga", "Manga"),
        ("light_novel", "Light Novel"),
        ("visual_novel", "Visual Novel"),
        ("original", "Original"),
    ];
    assert(table_view(table@) =~= mal_source_table());
    map_or_keep(&table, source)
}

pub fn map_status(status: Option<String>) -> (r: String)
    ensures
        r@ == named_or_raw(mal_status_table(), opt_string_view(status)),
{
    let table = vec![
        ("finished_airing", "Finished Airing"),
        ("not_yet_aired", "Not Yet Aired"),
        ("currently_airing", "Currently Airing"),
    ];
    assert(table_view(table@) =~= mal_status_table());
    map_or_keep(&table, status)
}

pub fn map_media_type(media_type: Option<String>) -> (r: String)
    ensures
        r@ == named_or_raw(mal_media_type_table(), opt_string_view(media_type)),
{
    let table = vec![
        ("tv", "TV"),
        ("tv_special", "Special"),
        ("movie", "Movie"),
        ("special", "Special"),
        ("ona", "ONA"),
        ("ova", "OVA"),
        ("unknown", "Unknown"),
    ];
    assert(table_view(table@) =~= mal_media_type_table());
    map_or_keep(&table, media_type)
}

/// The non-empty names, in order.
pub open spec fn present_names(names: Seq<String>) -> Seq<Seq<char>>
    decreases names.len(),
{
    if names.len() == 0 {
        Seq::empty()
    } else if names.last()@.len() == 0 {
        present_names(names.drop_last())
    } else {
        present_names(names.drop_last()).push(names.last()@)
    }
}

/// The non-empty names joined with commas; `Unknown` where none is left.
pub fn join_names(names: Vec<String>) -> (r: String)
    ensures
        r@ == (if present_names(names@).len() == 0 {
            "Unknown"@
        } else {
            joined(present_names(names@), ", "@)
        }),
{
    let mut parts: Vec<Vec<char>> = Vec::new();
    for i in 0..names.len()
        invariant
            parts@.map_values(|x: Vec<char>| x@) == present_names(names@.take(i as int)),
    {
        assert(names@.take(i + 1).drop_last() =~= names@.take(i as int));
        let c = chars_of(names[i].as_str());
        if c.len() > 0 {
            let ghost before = parts@.map_values(|x: Vec<char>| x@);
            parts.push(c);
            assert(parts@.map_values(|x: Vec<char>| x@) =~= before.push(names@[i as int]@));
        }
    }
    assert(names@.take(names@.len() as int) =~= names@);
    if parts.len() == 0 {
        return "Unknown".to_owned();
    }
    let j = join_with(&parts, ", ");
    string_from(j.as_slice())
}

/// English title and `, `, Japanese title and `, `, then the synonyms
/// joined with commas; `Unknown` where that is empty.
pub open spec fn mal_alternative_text(alt: Option<MalAlternativeTitles>) -> Seq<char> {
    match alt {
        None => "Unknown"@,
        Some(a) => {
            let text = (match a.en {
                Some(e) => e@ + ", "@,
                None => Seq::empty(),
            }) + (match a.ja {
                Some(j) => j@ + ", "@,
                None => Seq::empty(),
            }) + (match a.synonyms {
                Some(s) => joined(s@.map_values(|x: String| x@), ", "@),
                None => Seq::empty(),
            });
            if text.len() == 0 {
                "Unknown"@
            } else {
                text
            }
        },
    }
}

pub fn build_alternative_titles(alt: Option<MalAlternativeTitles>) -> (r: String)
    ensures
        r@ == mal_alternative_text(alt),
{
    let ghost given = alt;
    let a = match alt {
        Some(a) => a,
        None => {
            return "Unknown".to_owned();
        },
    };
    let sep = chars_of(", ");
    let mut out: Vec<char> = Vec::new();
    if let Some(e) = &a.en {
        append_chars(&mut out, chars_of(e.as_str()).as_slice());
        append_chars(&mut out, sep.as_slice());
    }
    let ghost after_en = out@;
    if let Some(j) = &a.ja {
        append_chars(&mut out, chars_of(j.as_str()).as_slice());
        append_chars(&mut out, sep.as_slice());
    }
    let ghost after_ja = out@;
    if let Some(syn) = &a.synonyms {
        let mut parts: Vec<Vec<char>> = Vec::new();
        for i in 0..syn.len()
            invariant
                parts@.map_values(|x: Vec<char>| x@) == syn@.take(i as int).map_values(|x: String| x@),
        {
            let ghost before = parts@.map_values(|x: Vec<char>| x@);
            let c = chars_of(syn[i].as_str());
            parts.push(c);
            assert(parts@.map_values(|x: Vec<char>| x@) =~= before.push(syn@[i as int]@));
            assert(syn@.take(i + 1).map_values(|x: String| x@) =~= syn@.take(i as int).map_values(
                |x: String| x@,
            ).push(syn@[i as int]@));
        }
        assert(syn@.take(syn@.len() as int) =~= syn@);
        let j = join_with(&parts, ", ");
        append_chars(&mut out, j.as_slice());
    }
    proof {
        let en = match a.en {
            Some(e) => e@ + ", "@,
            None => Seq::<char>::empty(),
        };
        let ja = match a.ja {
            Some(j) => j@ + ", "@,
            None => Seq::<char>::empty(),
        };
        assert(after_en =~= en);
        assert(after_ja =~= en + ja);
        match a.synonyms {
            Some(s) => assert(out@ =~= en + ja + joined(s@.map_values(|x: String| x@), ", "@)),
            None => assert(out@ =~= en + ja + Seq::<char>::empty()),
        }
    }
    if out.len() == 0 {
        return "Unknown".to_owned();
    }
    string_from(out.as_slice())
}

/// `season year`, with `Unknown` for a missing part; `Unknown` alone where
/// both are missing (an empty season counts as missing).
pub open spec fn mal_start_season_text(start: Option<MalStartSeason>) -> Seq<char> {
    match start {
        None => "Unknown"@,
        Some(s) => {
            let season_missing = match s.season {
                Some(x) => x@.len() == 0,
                None => true,
            };
            if season_missing && s.year is None {
                "Unknown"@
            } else {
                (match s.season {
                    Some(x) => x@,
                    None => "Unknown"@,
                }) + seq![' '] + (match s.year {
                    Some(y) => decimal_text(y as u64),
                    None => "Unknown"@,
                })
            }
        },
    }
}

pub fn format_start_season(start: Option<MalStartSeason>) -> (r: String)
    ensures
        r@ == mal_start_season_text(start),
{
    let s = match start {
        Some(s) => s,
        None => {
            return "Unknown".to_owned();
        },
    };
    let season_missing = match &s.season {
        Some(x) => x.as_str().is_empty(),
        None => true,
    };
    if season_missing && s.year.is_none() {
        return "Unknown".to_owned();
    }
    let mut out: Vec<char> = match &s.season {
        Some(x) => chars_of(x.as_str()),
        None => chars_of("Unknown"),
    };
    out.push(' ');
    match s.year {
        Some(y) => append_chars(&mut out, decimal_chars_of(y as u64).as_slice()),
        None => append_chars(&mut out, chars_of("Unknown").as_slice()),
    }
    string_from(out.as_slice())
}

fn decimal_chars_of(n: u64) -> (r: Vec<char>)
    ensures
        r@ == decimal_text(n),
{
    crate::text::decimal_chars(n)
}

/// Names the URL that `url` makes of `base` with `segments` appended to its path.
pub uninterp spec fn url_with_segments_of(base: Seq<char>, segments: Seq<Seq<char>>) -> Option<Seq<char>>;

/// Relies on `url::Url::parse` and `Url::path_segments_mut`: appends each
/// segment, percent-encoded, to the path of `base`.
#[verifier::external_body]
fn url_with_segments(base: &str, segments: &Vec<String>) -> (r: Option<String>)
    ensures
        opt_view(r) == url_with_segments_of(base@, segments@.map_values(|s: String| s@)),
{
    let mut url = url::Url::parse(base).ok()?;
    url.path_segments_mut().ok()?.extend(segments.iter());
    Some(url.to_string())
}

/// The query of a list page.
pub open spec fn list_query(offset: u32) -> Seq<(Seq<char>, Seq<char>)> {
    seq![
        ("fields"@, LIST_FIELDS@),
        ("nsfw"@, "true"@),
        ("limit"@, decimal_text(PAGE_LIMIT as u64)),
        ("offset"@, decimal_text(offset as u64)),
    ]
}

/// The URL of a user's list page starting at `offset`; `None` where the URL
/// cannot be built.
pub fn build_animelist_url(username: &str, offset: u32) -> (r: Option<String>)
    ensures
        match url_with_segments_of(LIST_BASE_URL@, seq![username@, "animelist"@]) {
            None => r is None,
            Some(base) => opt_view(r) == url_with_params_of(base, list_query(offset)),
        },
{
    let segments = vec![username.to_owned(), "animelist".to_owned()];
    assert(segments@.map_values(|s: String| s@) =~= seq![username@, "animelist"@]);
    let base = url_with_segments(LIST_BASE_URL, &segments)?;
    let mut params: Vec<(String, String)> = Vec::new();
    params.push(("fields".to_owned(), LIST_FIELDS.to_owned()));
    params.push(("nsfw".to_owned(), "true".to_owned()));
    params.push(("limit".to_owned(), decimal_string(PAGE_LIMIT as u64)));
    params.push(("offset".to_owned(), decimal_string(offset as u64)));
    assert(pairs_view(params@) =~= list_query(offset));
    url_with_params(base.as_str(), &params)
}

/// The value of the first pair named `key`.
pub open spec fn first_param(params: Seq<(Seq<char>, Seq<char>)>, key: Seq<char>) -> Option<Seq<char>>
    decreases params.len(),
{
    if params.len() == 0 {
        None
    } else if params[0].0 == key {
        Some(params[0].1)
    } else {
        first_param(params.drop_first(), key)
    }
}

/// A `u32` written in decimal, with an optional `+`.
pub open spec fn decimal_u32(s: Seq<char>) -> Option<u32> {
    let digits = if s.len() > 0 && s[0] == '+' {
        s.drop_first()
    } else {
        s
    };
    match decimal_u64(digits) {
        Some(n) if n <= u32::MAX => Some(n as u32),
        _ => None,
    }
}

/// The `offset` of the next page's URL.
pub open spec fn next_offset_of(url: Seq<char>) -> Option<u32> {
    if !url_parses(url) {
        None
    } else {
        let pairs = form_pairs_of(
            match url_query_of(url) {
                Some(q) => q,
                None => Seq::empty(),
            },
        );
        match first_param(pairs, "offset"@) {
            Some(v) => decimal_u32(v),
            None => None,
        }
    }
}

pub fn parse_next_offset(next_url: &str) -> (r: Option<u32>)
    ensures
        r == next_offset_of(next_url@),
{
    let parts = parse_url(next_url)?;
    proof {
        reveal_strlit("");
    }
    let query: &str = match &parts.query {
        Some(q) => q.as_str(),
        None => "",
    };
    let pairs = form_pairs(query);
    let ghost pv = pairs_view(pairs@);
    let ghost qv = match url_query_of(next_url@) {
        Some(q) => q,
        None => Seq::<char>::empty(),
    };
    assert(query@ == qv);
    assert(pv.skip(0) =~= pv);
    let mut i: usize = 0;
    while i < pairs.len()
        invariant
            i <= pairs@.len(),
            pv == pairs_view(pairs@),
            url_parses(next_url@),
            qv == match url_query_of(next_url@) {
                Some(q) => q,
                None => Seq::<char>::empty(),
            },
            pv == form_pairs_of(qv),
            first_param(pv, "offset"@) == first_param(pv.skip(i as int), "offset"@),
        decreases pairs@.len() - i,
    {
        assert(pv.skip(i as int).drop_first() =~= pv.skip(i + 1));
        assert(pv.skip(i as int)[0] == (pairs@[i as int].0@, pairs@[i as int].1@));
        if crate::lists::str_is(pairs[i].0.as_str(), "offset") {
            let v = chars_of(pairs[i].1.as_str());
            let start: usize = if v.len() > 0 && v[0] == '+' {
                1
            } else {
                0
            };
            let mut digits: Vec<char> = Vec::new();
            let mut k: usize = start;
            while k < v.len()
                invariant
                    start <= k <= v@.len(),
                    digits@ == v@.subrange(start as int, k as int),
                decreases v@.len() - k,
            {
                digits.push(v[k]);
                assert(digits@ =~= v@.subrange(start as int, k + 1));
                k += 1;
            }
            assert(start == 1 ==> digits@ =~= v@.drop_first());
            assert(start == 0 ==> digits@ =~= v@);
            return match parse_u64(digits.as_slice()) {
                Some(n) => if n <= 4294967295 {
                    Some(n as u32)
                } else {
                    None
                },
                None => None,
            };
        }
        i += 1;
    }
    assert(pv.skip(pv.len() as int).len() == 0);
    None
}

/// The URL that updates the list entry of an anime.
pub fn update_url(entry_id: u64) -> (r: String)
    ensures
        r@ == UPDATE_BASE_URL@ + decimal_text(entry_id) + "/my_list_status"@,
{
    let r = UPDATE_BASE_URL.to_owned().concat(decimal_string(entry_id).as_str()).concat("/my_list_status");
    r
}

} // verus!
