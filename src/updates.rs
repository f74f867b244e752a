//! List-update requests: where each goes, and the payload each provider takes.

use vstd::prelude::*;
use crate::text::{
    chars_of, decimal_string, decimal_text, decimal_u64, parse_u64, seq_eq, string_from,
    trim, trim_chars, TrimSet,
};
use crate::token_manager::pairs_view;

verus! {

/// Pause between two dispatched updates, in milliseconds.
pub const UPDATE_INTERVAL_MS: u64 = 1000;

/// Updates that may wait in the queue.
pub const UPDATE_QUEUE_CAPACITY: usize = 256;

pub const MAL_PROVIDER_ID: &'static str = "myanimelist";

pub const ANILIST_PROVIDER_ID: &'static str = "anilist";

/// A change to one entry of the user's list.
#[derive(Debug)]
pub struct AnimeListUpdateRequest {
    pub provider_id: String,
    pub entry_id: u64,
    pub user_status: Option<String>,
    pub user_score: Option<u32>,
    pub user_episodes_watched: Option<u32>,
    pub is_rewatching: Option<bool>,
    pub user_comments: Option<String>,
    pub user_num_times_rewatched: Option<u32>,
    pub user_start_date: Option<String>,
    pub user_finish_date: Option<String>,
}

/// Why an update could not be sent.
#[derive(Debug)]
pub enum UpdateError {
    UnsupportedProvider(String),
    InvalidStatus(String),
    InvalidDate(String),
    NoUpdateFields,
}

impl UpdateError {
    /// The text shown to the user.
    pub fn message(&self) -> (r: String)
        ensures
            r@ == match self {
                UpdateError::UnsupportedProvider(p) => "Provider not supported: "@ + p@,
                UpdateError::InvalidStatus(s) => "Invalid status: "@ + s@,
                UpdateError::InvalidDate(f) => "Invalid "@ + f@ + ": expected YYYY-MM-DD"@,
                UpdateError::NoUpdateFields => "No update fields provided"@,
            },
    {
        match self {
            UpdateError::UnsupportedProvider(p) => "Provider not supported: ".to_owned().concat(
                p.as_str(),
            ),
            UpdateError::InvalidStatus(s) => "Invalid status: ".to_owned().concat(s.as_str()),
            UpdateError::InvalidDate(f) => "Invalid ".to_owned().concat(f.as_str()).concat(
                ": expected YYYY-MM-DD",
            ),
            UpdateError::NoUpdateFields => "No update fields provided".to_owned(),
        }
    }
}

/// The provider that handles an update.
#[derive(Clone, Copy, PartialEq, Eq, Structural, Debug)]
pub enum UpdateRoute {
    MyAnimeList,
    AniList,
}

pub fn route_update(provider_id: &str) -> (r: Result<UpdateRoute, UpdateError>)
    ensures
        provider_id@ == "myanimelist"@ ==> r == Ok::<UpdateRoute, UpdateError>(UpdateRoute::MyAnimeList),
        provider_id@ == "anilist"@ ==> r == Ok::<UpdateRoute, UpdateError>(UpdateRoute::AniList),
        provider_id@ != "myanimelist"@ && provider_id@ != "anilist"@ ==> (r matches Err(
            e,
        ) && e is UnsupportedProvider && e->UnsupportedProvider_0@ == provider_id@),
{
    proof {
        reveal_strlit("myanimelist");
        reveal_strlit("anilist");
        assert("anilist"@.len() != "myanimelist"@.len());
    }
    let id = chars_of(provider_id);
    let mal = chars_of("myanimelist");
    let anilist = chars_of("anilist");
    if seq_eq(id.as_slice(), mal.as_slice()) {
        Ok(UpdateRoute::MyAnimeList)
    } else if seq_eq(id.as_slice(), anilist.as_slice()) {
        Ok(UpdateRoute::AniList)
    } else {
        Err(UpdateError::UnsupportedProvider(provider_id.to_owned()))
    }
}

fn is_one_of(s: &[char], a: &str, b: &str) -> (r: bool)
    ensures
        r == (s@ == a@ || s@ == b@),
{
    let x = chars_of(a);
    let y = chars_of(b);
    seq_eq(s, x.as_slice()) || seq_eq(s, y.as_slice())
}

/// A list status as MyAnimeList names it.
pub open spec fn mal_status_of(s: Seq<char>) -> Option<Seq<char>> {
    if s == "watching"@ {
        Some("watching"@)
    } else if s == "completed"@ {
        Some("completed"@)
    } else if s == "onHold"@ || s == "on_hold"@ {
        Some("on_hold"@)
    } else if s == "dropped"@ {
        Some("dropped"@)
    } else if s == "planToWatch"@ || s == "plan_to_watch"@ {
        Some("plan_to_watch"@)
    } else {
        None
    }
}

pub fn map_user_status_to_mal(status: &str) -> (r: Option<&'static str>)
    ensures
        match r {
            Some(x) => mal_status_of(status@) == Some(x@),
            None => mal_status_of(status@) is None,
        },
{
    let s = chars_of(status);
    if is_one_of(s.as_slice(), "watching", "watching") {
        Some("watching")
    } else if is_one_of(s.as_slice(), "completed", "completed") {
        Some("completed")
    } else if is_one_of(s.as_slice(), "onHold", "on_hold") {
        Some("on_hold")
    } else if is_one_of(s.as_slice(), "dropped", "dropped") {
        Some("dropped")
    } else if is_one_of(s.as_slice(), "planToWatch", "plan_to_watch") {
        Some("plan_to_watch")
    } else {
        None
    }
}

/// A list status as AniList names it.
pub open spec fn anilist_status_of(s: Seq<char>) -> Option<Seq<char>> {
    if s == "watching"@ {
        Some("CURRENT"@)
    } else if s == "completed"@ {
        Some("COMPLETED"@)
    } else if s == "onHold"@ || s == "on_hold"@ {
        Some("PAUSED"@)
    } else if s == "dropped"@ {
        Some("DROPPED"@)
    } else if s == "planToWatch"@ || s == "plan_to_watch"@ {
        Some("PLANNING"@)
    } else {
        None
    }
}

pub fn map_user_status_to_anilist(status: &str) -> (r: Result<&'static str, UpdateError>)
    ensures
        match r {
            Ok(x) => anilist_status_of(status@) == Some(x@),
            Err(e) => anilist_status_of(status@) is None && e is InvalidStatus
                && e->InvalidStatus_0@ == status@,
        },
{
    let s = chars_of(status);
    if is_one_of(s.as_slice(), "watching", "watching") {
        Ok("CURRENT")
    } else if is_one_of(s.as_slice(), "completed", "completed") {
        Ok("COMPLETED")
    } else if is_one_of(s.as_slice(), "onHold", "on_hold") {
        Ok("PAUSED")
    } else if is_one_of(s.as_slice(), "dropped", "dropped") {
        Ok("DROPPED")
    } else if is_one_of(s.as_slice(), "planToWatch", "plan_to_watch") {
        Ok("PLANNING")
    } else {
        Err(UpdateError::InvalidStatus(status.to_owned()))
    }
}

/// A date field, trimmed, where it holds more than white space.
pub open spec fn date_field(d: Option<String>) -> Option<Seq<char>> {
    match d {
        Some(s) if trim(s@, TrimSet::Space).len() > 0 => Some(trim(s@, TrimSet::Space)),
        _ => None,
    }
}

/// The form of a MyAnimeList update, in the order the fields are listed.
pub open spec fn mal_form(u: AnimeListUpdateRequest) -> Seq<(Seq<char>, Seq<char>)> {
    (match u.user_status {
        Some(s) => seq![("status"@, mal_status_of(s@)->0)],
        None => Seq::empty(),
    }) + (match u.user_score {
        Some(n) => seq![("score"@, decimal_text(n as u64))],
        None => Seq::empty(),
    }) + (match u.user_episodes_watched {
        Some(n) => seq![("num_watched_episodes"@, decimal_text(n as u64))],
        None => Seq::empty(),
    }) + (match u.is_rewatching {
        Some(b) => seq![("is_rewatching"@, if b { "true"@ } else { "false"@ })],
        None => Seq::empty(),
    }) + (match date_field(u.user_start_date) {
        Some(d) => seq![("start_date"@, d)],
        None => Seq::empty(),
    }) + (match date_field(u.user_finish_date) {
        Some(d) => seq![("finish_date"@, d)],
        None => Seq::empty(),
    })
}

fn push_field(v: &mut Vec<(String, String)>, k: &str, val: String)
    ensures
        pairs_view(final(v)@) == pairs_view(old(v)@).push((k@, val@)),
{
    v.push((k.to_owned(), val));
    assert(pairs_view(v@) =~= pairs_view(old(v)@).push((k@, val@)));
}

fn trimmed_field(d: &Option<String>) -> (r: Option<String>)
    ensures
        match r {
            Some(s) => date_field(*d) == Some(s@),
            None => date_field(*d) is None,
        },
{
    match d {
        Some(s) => {
            let cs = chars_of(s.as_str());
            let t = trim_chars(cs.as_slice(), TrimSet::Space);
            if t.len() > 0 {
                Some(string_from(t.as_slice()))
            } else {
                None
            }
        },
        None => None,
    }
}

/// A status is given that MyAnimeList does not know.
pub open spec fn bad_status(status: Option<String>) -> bool {
    status matches Some(s) && mal_status_of(s@) is None
}

/// The form of a MyAnimeList update; fails on an unknown status or where
/// the request changes nothing.
pub fn mal_update_params(update: &AnimeListUpdateRequest) -> (r: Result<Vec<(String, String)>, UpdateError>)
    ensures
        bad_status(update.user_status) ==> (r matches Err(e) && e is InvalidStatus
            && e->InvalidStatus_0@ == update.user_status->0@),
        !bad_status(update.user_status) ==> if mal_form(
            *update,
        ).len() == 0 {
            r matches Err(e) && e is NoUpdateFields
        } else {
            r matches Ok(v) && pairs_view(v@) == mal_form(*update)
        },
{
    let mut params: Vec<(String, String)> = Vec::new();
    let ghost u = *update;
    if let Some(status) = &update.user_status {
        match map_user_status_to_mal(status.as_str()) {
            Some(mapped) => push_field(&mut params, "status", mapped.to_owned()),
            None => {
                return Err(UpdateError::InvalidStatus(status.clone()));
            },
        }
    }
    let ghost p1 = pairs_view(params@);
    if let Some(score) = update.user_score {
        push_field(&mut params, "score", decimal_string(score as u64));
    }
    let ghost p2 = pairs_view(params@);
    if let Some(episodes) = update.user_episodes_watched {
        push_field(&mut params, "num_watched_episodes", decimal_string(episodes as u64));
    }
    let ghost p3 = pairs_view(params@);
    if let Some(b) = update.is_rewatching {
        push_field(&mut params, "is_rewatching", if b { "true".to_owned() } else { "false".to_owned() });
    }
    let ghost p4 = pairs_view(params@);
    if let Some(d) = trimmed_field(&update.user_start_date) {
        push_field(&mut params, "start_date", d);
    }
    let ghost p5 = pairs_view(params@);
    if let Some(d) = trimmed_field(&update.user_finish_date) {
        push_field(&mut params, "finish_date", d);
    }
    proof {
        let s1 = match u.user_status {
            Some(s) => seq![("status"@, mal_status_of(s@)->0)],
            None => Seq::empty(),
        };
        let s2 = match u.user_score {
            Some(n) => seq![("score"@, decimal_text(n as u64))],
            None => Seq::empty(),
        };
        let s3 = match u.user_episodes_watched {
            Some(n) => seq![("num_watched_episodes"@, decimal_text(n as u64))],
            None => Seq::empty(),
        };
        let s4 = match u.is_rewatching {
            Some(b) => seq![("is_rewatching"@, if b { "true"@ } else { "false"@ })],
            None => Seq::empty(),
        };
        let s5 = match date_field(u.user_start_date) {
            Some(d) => seq![("start_date"@, d)],
            None => Seq::empty(),
        };
        let s6 = match date_field(u.user_finish_date) {
            Some(d) => seq![("finish_date"@, d)],
            None => Seq::empty(),
        };
        assert(p1 =~= s1);
        assert(p2 =~= s1 + s2);
        assert(p3 =~= s1 + s2 + s3);
        assert(p4 =~= s1 + s2 + s3 + s4);
        assert(p5 =~= s1 + s2 + s3 + s4 + s5);
        assert(pairs_view(params@) =~= s1 + s2 + s3 + s4 + s5 + s6);
    }
    if params.len() == 0 {
        return Err(UpdateError::NoUpdateFields);
    }
    Ok(params)
}


/// A date as AniList takes it.
#[derive(Clone, Copy, PartialEq, Eq, Structural, Debug)]
pub struct FuzzyDateInput {
    pub year: i32,
    pub month: i32,
    pub day: i32,
}

/// The pieces of `s` between separators; empty pieces are kept.
pub open spec fn split_on(s: Seq<char>, sep: char) -> Seq<Seq<char>>
    decreases s.len(),
{
    if s.len() == 0 {
        seq![Seq::empty()]
    } else {
        let t = split_on(s.drop_last(), sep);
        if s.last() == sep {
            t.push(Seq::empty())
        } else {
            t.update(t.len() - 1, t.last().push(s.last()))
        }
    }
}

pub(crate) fn split_chars(s: &[char], sep: char) -> (r: Vec<Vec<char>>)
    ensures
        r@.map_values(|x: Vec<char>| x@) == split_on(s@, sep),
{
    let mut parts: Vec<Vec<char>> = Vec::new();
    let mut current: Vec<char> = Vec::new();
    for i in 0..s.len()
        invariant
            parts@.map_values(|x: Vec<char>| x@).push(current@) == split_on(s@.take(i as int), sep),
    {
        let ghost before = parts@.map_values(|x: Vec<char>| x@);
        assert(s@.take(i + 1).drop_last() =~= s@.take(i as int));
        if s[i] == sep {
            let done = current;
            current = Vec::new();
            parts.push(done);
            assert(parts@.map_values(|x: Vec<char>| x@) =~= before.push(done@));
        } else {
            let ghost cur = current@;
            current.push(s[i]);
            assert(before.push(current@) =~= before.push(cur).update(before.len() as int, cur.push(s@[i as int])));
        }
    }
    assert(s@.take(s@.len() as int) =~= s@);
    let ghost before = parts@.map_values(|x: Vec<char>| x@);
    parts.push(current);
    assert(parts@.map_values(|x: Vec<char>| x@) =~= before.push(current@));
    parts
}

/// An `i32` written in decimal, with an optional `+`.
pub open spec fn decimal_i32(s: Seq<char>) -> Option<i32> {
    let digits = if s.len() > 0 && s[0] == '+' {
        s.drop_first()
    } else {
        s
    };
    match decimal_u64(digits) {
        Some(n) if n <= i32::MAX => Some(n as i32),
        _ => None,
    }
}

fn parse_i32(s: &[char]) -> (r: Option<i32>)
    ensures
        r == decimal_i32(s@),
{
    let mut digits: Vec<char> = Vec::new();
    let start: usize = if s.len() > 0 && s[0] == '+' {
        1
    } else {
        0
    };
    let mut i: usize = start;
    while i < s.len()
        invariant
            start <= i <= s@.len(),
            digits@ == s@.subrange(start as int, i as int),
        decreases s@.len() - i,
    {
        digits.push(s[i]);
        assert(digits@ =~= s@.subrange(start as int, i + 1));
        i += 1;
    }
    assert(start == 1 ==> digits@ =~= s@.drop_first());
    assert(start == 0 ==> digits@ =~= s@);
    match parse_u64(digits.as_slice()) {
        Some(n) => if n <= 2147483647 {
            Some(n as i32)
        } else {
            None
        },
        None => None,
    }
}

/// A `YYYY-MM-DD` field: `Some(None)` where it is absent or blank,
/// `Some(Some(date))` where it reads, `None` where it does not.
pub open spec fn fuzzy_date_of(value: Option<Seq<char>>) -> Option<Option<FuzzyDateInput>> {
    match value {
        None => Some(None),
        Some(v) => {
            let t = trim(v, TrimSet::Space);
            let segs = split_on(t, '-');
            if t.len() == 0 {
                Some(None)
            } else if segs.len() != 3 {
                None
            } else {
                match (decimal_i32(segs[0]), decimal_i32(segs[1]), decimal_i32(segs[2])) {
                    (Some(y), Some(m), Some(d)) if 1 <= m <= 12 && 1 <= d <= 31 => Some(
                        Some(FuzzyDateInput { year: y, month: m, day: d }),
                    ),
                    _ => None,
                }
            }
        },
    }
}

pub open spec fn opt_str_chars(o: Option<&str>) -> Option<Seq<char>> {
    match o {
        Some(s) => Some(s@),
        None => None,
    }
}

pub fn parse_fuzzy_date_input(value: Option<&str>, field_name: &str) -> (r: Result<
    Option<FuzzyDateInput>,
    UpdateError,
>)
    ensures
        match fuzzy_date_of(opt_str_chars(value)) {
            Some(d) => r == Ok::<Option<FuzzyDateInput>, UpdateError>(d),
            None => r matches Err(e) && e is InvalidDate && e->InvalidDate_0@ == field_name@,
        },
{
    let v = match value {
        Some(v) => v,
        None => {
            return Ok(None);
        },
    };
    let cs = chars_of(v);
    let t = trim_chars(cs.as_slice(), TrimSet::Space);
    if t.len() == 0 {
        return Ok(None);
    }
    let segs = split_chars(t.as_slice(), '-');
    let ghost sv = segs@.map_values(|x: Vec<char>| x@);
    if segs.len() != 3 {
        return Err(UpdateError::InvalidDate(field_name.to_owned()));
    }
    assert(sv[0] == segs@[0]@ && sv[1] == segs@[1]@ && sv[2] == segs@[2]@);
    let y = parse_i32(segs[0].as_slice());
    let m = parse_i32(segs[1].as_slice());
    let d = parse_i32(segs[2].as_slice());
    match (y, m, d) {
        (Some(y), Some(m), Some(d)) => {
            if 1 <= m && m <= 12 && 1 <= d && d <= 31 {
                Ok(Some(FuzzyDateInput { year: y, month: m, day: d }))
            } else {
                Err(UpdateError::InvalidDate(field_name.to_owned()))
            }
        },
        _ => Err(UpdateError::InvalidDate(field_name.to_owned())),
    }
}

/// The variables of an AniList list update.
#[derive(Debug)]
pub struct AniListUpdateVariables {
    pub save_media_list_entry_id: u64,
    pub status: Option<String>,
    pub score: Option<u32>,
    pub progress: Option<u32>,
    pub repeat: Option<u32>,
    pub notes: Option<String>,
    pub started_at: Option<FuzzyDateInput>,
    pub completed_at: Option<FuzzyDateInput>,
}

/// How many times the entry was rewatched: the count given, else one or
/// zero from the rewatching flag.
pub open spec fn repeat_of(u: AnimeListUpdateRequest) -> Option<u32> {
    match (u.user_num_times_rewatched, u.is_rewatching) {
        (Some(v), _) => Some(v),
        (None, Some(true)) => Some(1),
        (None, Some(false)) => Some(0),
        (None, None) => None,
    }
}

pub open spec fn opt_string_chars(o: Option<String>) -> Option<Seq<char>> {
    match o {
        Some(s) => Some(s@),
        None => None,
    }
}

/// The request changes nothing that AniList takes.
pub open spec fn no_anilist_fields(u: AnimeListUpdateRequest) -> bool {
    &&& u.user_status is None
    &&& u.user_score is None
    &&& u.user_episodes_watched is None
    &&& repeat_of(u) is None
    &&& date_field(u.user_comments) is None
    &&& fuzzy_date_of(opt_string_chars(u.user_start_date)) == Some(None::<FuzzyDateInput>)
    &&& fuzzy_date_of(opt_string_chars(u.user_finish_date)) == Some(None::<FuzzyDateInput>)
}

/// The variables of an AniList update; fails on an unknown status, a date
/// that does not read, or where the request changes nothing.
pub fn anilist_update_variables(update: &AnimeListUpdateRequest) -> (r: Result<
    AniListUpdateVariables,
    UpdateError,
>)
    ensures
        update.user_status matches Some(s) && anilist_status_of(s@) is None ==> (r matches Err(e)
            && e is InvalidStatus),
        r matches Ok(v) ==> {
            &&& v.save_media_list_entry_id == update.entry_id
            &&& opt_string_chars(v.status) == (match update.user_status {
                Some(s) => anilist_status_of(s@),
                None => None,
            })
            &&& v.score == update.user_score
            &&& v.progress == update.user_episodes_watched
            &&& v.repeat == repeat_of(*update)
            &&& opt_string_chars(v.notes) == date_field(update.user_comments)
            &&& fuzzy_date_of(opt_string_chars(update.user_start_date)) == Some(v.started_at)
            &&& fuzzy_date_of(opt_string_chars(update.user_finish_date)) == Some(v.completed_at)
            &&& !(v.status is None && v.score is None && v.progress is None && v.repeat is None
                && v.notes is None && v.started_at is None && v.completed_at is None)
        },
        !(update.user_status matches Some(s) && anilist_status_of(s@) is None) && fuzzy_date_of(
            opt_string_chars(update.user_start_date),
        ) is None ==> (r matches Err(e) && e is InvalidDate && e->InvalidDate_0@ == "userStartDate"@),
        !(update.user_status matches Some(s) && anilist_status_of(s@) is None) && fuzzy_date_of(
            opt_string_chars(update.user_start_date),
        ) is Some && fuzzy_date_of(opt_string_chars(update.user_finish_date)) is None ==> (r matches Err(
            e,
        ) && e is InvalidDate && e->InvalidDate_0@ == "userFinishDate"@),
        !(update.user_status matches Some(s) && anilist_status_of(s@) is None) && fuzzy_date_of(
            opt_string_chars(update.user_start_date),
        ) is Some && fuzzy_date_of(opt_string_chars(update.user_finish_date)) is Some ==> if no_anilist_fields(
            *update,
        ) {
            r matches Err(e) && e is NoUpdateFields
        } else {
            r is Ok
        },
{
    let status: Option<String> = match &update.user_status {
        Some(s) => match map_user_status_to_anilist(s.as_str()) {
            Ok(x) => Some(x.to_owned()),
            Err(e) => {
                return Err(e);
            },
        },
        None => None,
    };
    let repeat = match (update.user_num_times_rewatched, update.is_rewatching) {
        (Some(v), _) => Some(v),
        (None, Some(true)) => Some(1),
        (None, Some(false)) => Some(0),
        (None, None) => None,
    };
    let notes = trimmed_field(&update.user_comments);
    let start_ref: Option<&str> = match &update.user_start_date {
        Some(s) => Some(s.as_str()),
        None => None,
    };
    let finish_ref: Option<&str> = match &update.user_finish_date {
        Some(s) => Some(s.as_str()),
        None => None,
    };
    let started_at = parse_fuzzy_date_input(start_ref, "userStartDate")?;
    let completed_at = parse_fuzzy_date_input(finish_ref, "userFinishDate")?;
    if status.is_none() && update.user_score.is_none() && update.user_episodes_watched.is_none()
        && repeat.is_none() && notes.is_none() && started_at.is_none() && completed_at.is_none() {
        return Err(UpdateError::NoUpdateFields);
    }
    Ok(
        AniListUpdateVariables {
            save_media_list_entry_id: update.entry_id,
            status,
            score: update.user_score,
            progress: update.user_episodes_watched,
            repeat,
            notes,
            started_at,
            completed_at,
        },
    )
}

} // verus!
