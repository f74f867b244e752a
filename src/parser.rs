//! Reading an anime title and an episode number out of a video's path or URL.

use vstd::prelude::*;
use vstd::utf8::encode_utf8;
use crate::text::{
    before_first, before_first_of, chars_of, decimal_u64, last_component, last_component_of,
    lower_seq, parse_u64, starts_with, string_from, to_lower, trim, trim_chars, TrimSet,
};

verus! {

/// A match of a pattern with an `episode` group: the text before the match,
/// the match, the group, and the text after the match.
#[derive(Debug)]
pub struct RegexMatch {
    pub before: String,
    pub matched: String,
    pub episode: String,
    pub after: String,
}

pub open spec fn match_view(m: RegexMatch) -> (Seq<char>, Seq<char>, Seq<char>, Seq<char>) {
    (m.before@, m.matched@, m.episode@, m.after@)
}

/// Names the leftmost match of `pattern` in `text` with its `episode` group.
pub uninterp spec fn first_match_of(pattern: Seq<char>, text: Seq<char>) -> Option<
    (Seq<char>, Seq<char>, Seq<char>, Seq<char>),
>;

/// Names the successive non-overlapping matches of `pattern` in `text` that
/// have an `episode` group, left to right.
pub uninterp spec fn all_matches_of(pattern: Seq<char>, text: Seq<char>) -> Seq<
    (Seq<char>, Seq<char>, Seq<char>, Seq<char>),
>;

/// Names `text` with every match of `pattern` replaced by `with`.
pub uninterp spec fn replaced_of(pattern: Seq<char>, text: Seq<char>, with: Seq<char>) -> Seq<char>;

/// Names the text that lossy UTF-8 decoding makes of `bytes`.
pub uninterp spec fn utf8_lossy_of(bytes: Seq<u8>) -> Seq<char>;

/// Relies on `regex::Regex::new` and `Regex::captures`: the leftmost match
/// and its group named `episode` (`None` where the pattern does not compile).
#[verifier::external_body]
fn regex_first_match(pattern: &str, text: &str) -> (r: Option<RegexMatch>)
    ensures
        match r {
            Some(m) => first_match_of(pattern@, text@) == Some(match_view(m)),
            None => first_match_of(pattern@, text@) is None,
        },
{
    let caps = regex::Regex::new(pattern).ok()?.captures(text)?;
    let (m, e) = (caps.get(0)?, caps.name("episode")?);
    Some(RegexMatch {
        before: text[..m.start()].to_string(),
        matched: m.as_str().to_string(),
        episode: e.as_str().to_string(),
        after: text[m.end()..].to_string(),
    })
}

/// Relies on `regex::Regex::new` and `Regex::captures_iter`: every match,
/// left to right, with its group named `episode`.
#[verifier::external_body]
fn regex_all_matches(pattern: &str, text: &str) -> (r: Vec<RegexMatch>)
    ensures
        r@.map_values(|m: RegexMatch| match_view(m)) == all_matches_of(pattern@, text@),
{
    let Ok(re) = regex::Regex::new(pattern) else { return Vec::new() };
    let groups = re.captures_iter(text).filter_map(|c| Some((c.get(0)?, c.name("episode")?)));
    groups.map(|(m, e)| RegexMatch {
        before: text[..m.start()].to_string(),
        matched: m.as_str().to_string(),
        episode: e.as_str().to_string(),
        after: text[m.end()..].to_string(),
    }).collect()
}

/// Relies on `regex::Regex::new` and `Regex::replace_all`.
#[verifier::external_body]
fn regex_replace_all(pattern: &str, text: &str, with: &str) -> (r: String)
    ensures
        r@ == replaced_of(pattern@, text@, with@),
{
    match regex::Regex::new(pattern) {
        Ok(re) => re.replace_all(text, regex::NoExpand(with)).into_owned(),
        Err(_) => text.to_string(),
    }
}

/// Relies on `String::from_utf8_lossy`.
#[verifier::external_body]
pub(crate) fn utf8_lossy(bytes: &[u8]) -> (r: String)
    ensures
        r@ == utf8_lossy_of(bytes@),
{
    String::from_utf8_lossy(bytes).into_owned()
}

pub const EPISODE_SXE: &'static str = r"(?i)\bS\d{1,2}E(?P<episode>\d{1,4})\b";

pub const EPISODE_EXPLICIT: &'static str = r"(?i)\bE(?:P|PISODE)?[ ._-]?(?P<episode>\d{1,4})\b";

pub const EPISODE_JAPANESE: &'static str = r"(?i)\x{7B2C}\s*(?P<episode>\d{1,4})\s*[\x{8A71}\x{8BDD}]";

pub const EPISODE_DASH: &'static str = r"(?i)\s-\s(?P<episode>\d{1,4})(?:v\d+)?\b";

pub const EPISODE_BRACKET: &'static str = r"(?i)\[(?P<episode>\d{1,4})(?:v\d+)?\]";

pub const EPISODE_FALLBACK: &'static str = r"(?P<episode>\d{1,4})(?:v\d+)?";

pub const LEADING_GROUPS: &'static str = r"^(?:\[[^\]]+\]\s*)+";

pub const BRACKET_GROUPS: &'static str = r"[\[\(\{][^\]\)\}]*[\]\)\}]";

pub const NOISE_TOKENS: &'static str = r"(?i)\b(?:\d{3,4}p|10bit|8bit|x264|x265|h264|h265|hevc|av1|aac(?:2\.0)?|flac|opus|ddp(?:5\.1)?|blu[- ]?ray|bdrip|webrip|web[- ]?dl|dvdrip|remux|proper|repack|vostfr|raw|sub(?:bed|s)?|multi|dual[- ]?audio)\b";

pub const HYPHEN_RUNS: &'static str = r"[-]{2,}";

pub const WHITESPACE_RUNS: &'static str = r"\s+";

/// Resolutions that are never read as an episode.
pub open spec fn is_resolution(n: u32) -> bool {
    n == 360 || n == 480 || n == 540 || n == 576 || n == 720 || n == 1080 || n == 1440 || n == 2160
        || n == 2880 || n == 3840 || n == 4096 || n == 4320 || n == 5120 || n == 7680
}

/// An episode number: positive, at most 5000, no resolution and no year.
pub open spec fn plausible_episode(n: u32) -> bool {
    0 < n <= 5000 && !is_resolution(n) && !(1900 <= n <= 2100)
}

pub fn is_plausible_episode(value: u32) -> (r: bool)
    ensures
        r == plausible_episode(value),
{
    let resolution = value == 360 || value == 480 || value == 540 || value == 576 || value == 720
        || value == 1080 || value == 1440 || value == 2160 || value == 2880 || value == 3840
        || value == 4096 || value == 4320 || value == 5120 || value == 7680;
    value > 0 && value <= 5000 && !resolution && !(1900 <= value && value <= 2100)
}

/// The episode that a group's digits give, if it is plausible.
pub open spec fn group_episode(digits: Seq<char>) -> Option<u32> {
    match decimal_u64(digits) {
        Some(n) if n <= u32::MAX && plausible_episode(n as u32) => Some(n as u32),
        _ => None,
    }
}

fn episode_value(digits: &str) -> (r: Option<u32>)
    ensures
        r == group_episode(digits@),
{
    let cs = chars_of(digits);
    match parse_u64(cs.as_slice()) {
        Some(n) => if n <= 4294967295 && is_plausible_episode(n as u32) {
            Some(n as u32)
        } else {
            None
        },
        None => None,
    }
}

/// The title with a match cut out and a space in its place.
pub open spec fn without_match(m: (Seq<char>, Seq<char>, Seq<char>, Seq<char>)) -> Seq<char> {
    m.0 + seq![' '] + m.3
}

fn cut_match(m: &RegexMatch) -> (r: String)
    ensures
        r@ == without_match(match_view(*m)),
{
    let mut out = chars_of(m.before.as_str());
    out.push(' ');
    let rest = chars_of(m.after.as_str());
    let mut i: usize = 0;
    let ghost start = out@;
    while i < rest.len()
        invariant
            i <= rest@.len(),
            out@ == start + rest@.take(i as int),
        decreases rest@.len() - i,
    {
        out.push(rest[i]);
        assert(out@ =~= start + rest@.take(i + 1));
        i += 1;
    }
    assert(rest@.take(rest@.len() as int) =~= rest@);
    assert(out@ =~= without_match(match_view(*m)));
    string_from(out.as_slice())
}

/// A pattern's match read as an episode: its number, and the title without it.
pub open spec fn episode_hit(m: Option<(Seq<char>, Seq<char>, Seq<char>, Seq<char>)>) -> Option<
    (u32, Seq<char>),
> {
    match m {
        Some(x) => match group_episode(x.2) {
            Some(n) => Some((n, without_match(x))),
            None => None,
        },
        None => None,
    }
}

/// Reads a match of an episode pattern.
pub fn match_episode(m: Option<RegexMatch>) -> (r: Option<(u32, String)>)
    ensures
        match r {
            Some(x) => episode_hit(
                match m {
                    Some(y) => Some(match_view(y)),
                    None => None,
                },
            ) == Some((x.0, x.1@)),
            None => episode_hit(
                match m {
                    Some(y) => Some(match_view(y)),
                    None => None,
                },
            ) is None,
        },
{
    match m {
        Some(x) => match episode_value(x.episode.as_str()) {
            Some(n) => Some((n, cut_match(&x))),
            None => None,
        },
        None => None,
    }
}

pub open spec fn is_ascii_alnum(c: char) -> bool {
    ('a' <= c && c <= 'z') || ('A' <= c && c <= 'Z') || ('0' <= c && c <= '9')
}

/// Neither neighbour of the match is an ASCII letter or digit.
pub open spec fn at_token_boundary(m: (Seq<char>, Seq<char>, Seq<char>, Seq<char>)) -> bool {
    (m.0.len() == 0 || !is_ascii_alnum(m.0.last())) && (m.3.len() == 0 || !is_ascii_alnum(m.3[0]))
}

/// The last match, right to left, that stands alone and reads as a plausible episode.
pub open spec fn fallback_hit(ms: Seq<(Seq<char>, Seq<char>, Seq<char>, Seq<char>)>) -> Option<
    (u32, Seq<char>),
>
    decreases ms.len(),
{
    if ms.len() == 0 {
        None
    } else if at_token_boundary(ms.last()) && group_episode(ms.last().2) is Some {
        Some((group_episode(ms.last().2)->0, without_match(ms.last())))
    } else {
        fallback_hit(ms.drop_last())
    }
}

fn alnum(c: char) -> (r: bool)
    ensures
        r == is_ascii_alnum(c),
{
    ('a' <= c && c <= 'z') || ('A' <= c && c <= 'Z') || ('0' <= c && c <= '9')
}

fn is_token_boundary(m: &RegexMatch) -> (r: bool)
    ensures
        r == at_token_boundary(match_view(*m)),
{
    let before = chars_of(m.before.as_str());
    let after = chars_of(m.after.as_str());
    let prev_ok = before.len() == 0 || !alnum(before[before.len() - 1]);
    let next_ok = after.len() == 0 || !alnum(after[0]);
    prev_ok && next_ok
}

/// Scans the matches of the numeric fallback right to left.
pub fn fallback_episode_from_numbers(ms: &Vec<RegexMatch>) -> (r: Option<(u32, String)>)
    ensures
        match r {
            Some(x) => fallback_hit(ms@.map_values(|m: RegexMatch| match_view(m))) == Some(
                (x.0, x.1@),
            ),
            None => fallback_hit(ms@.map_values(|m: RegexMatch| match_view(m))) is None,
        },
{
    let ghost all = ms@.map_values(|m: RegexMatch| match_view(m));
    let mut i: usize = ms.len();
    assert(all.take(all.len() as int) =~= all);
    while i > 0
        invariant
            i <= ms@.len(),
            all == ms@.map_values(|m: RegexMatch| match_view(m)),
            fallback_hit(all) == fallback_hit(all.take(i as int)),
        decreases i,
    {
        let m = &ms[i - 1];
        assert(all.take(i as int).drop_last() =~= all.take(i - 1));
        assert(all.take(i as int).last() == match_view(*m));
        if is_token_boundary(m) {
            if let Some(n) = episode_value(m.episode.as_str()) {
                return Some((n, cut_match(m)));
            }
        }
        i -= 1;
    }
    None
}

/// The episode of a normalised title and the title without it: the first
/// pattern, in order, whose match reads as a plausible episode, else the
/// numeric fallback.
pub open spec fn episode_split(title: Seq<char>) -> (Option<u32>, Seq<char>) {
    let hits = seq![
        episode_hit(first_match_of(EPISODE_SXE@, title)),
        episode_hit(first_match_of(EPISODE_EXPLICIT@, title)),
        episode_hit(first_match_of(EPISODE_JAPANESE@, title)),
        episode_hit(first_match_of(EPISODE_DASH@, title)),
        episode_hit(first_match_of(EPISODE_BRACKET@, title)),
        fallback_hit(all_matches_of(EPISODE_FALLBACK@, title)),
    ];
    first_hit(hits, title)
}

pub open spec fn first_hit(hits: Seq<Option<(u32, Seq<char>)>>, title: Seq<char>) -> (Option<u32>, Seq<char>)
    decreases hits.len(),
{
    if hits.len() == 0 {
        (None, title)
    } else if hits[0] is Some {
        (Some((hits[0]->0).0), (hits[0]->0).1)
    } else {
        first_hit(hits.drop_first(), title)
    }
}

proof fn lemma_first_hit_plausible(hits: Seq<Option<(u32, Seq<char>)>>, title: Seq<char>)
    requires
        forall|i: int| 0 <= i < hits.len() && #[trigger] hits[i] is Some ==> plausible_episode((hits[i]->0).0),
    ensures
        first_hit(hits, title).0 matches Some(n) ==> plausible_episode(n),
    decreases hits.len(),
{
    if hits.len() > 0 && hits[0] is None {
        lemma_first_hit_plausible(hits.drop_first(), title);
    }
}

proof fn lemma_fallback_plausible(ms: Seq<(Seq<char>, Seq<char>, Seq<char>, Seq<char>)>)
    ensures
        fallback_hit(ms) matches Some(x) ==> plausible_episode(x.0),
    decreases ms.len(),
{
    if ms.len() > 0 {
        lemma_fallback_plausible(ms.drop_last());
    }
}

/// No year and no resolution is ever taken for an episode.
pub proof fn episode_is_plausible(title: Seq<char>)
    ensures
        episode_split(title).0 matches Some(n) ==> plausible_episode(n),
{
    let hits = seq![
        episode_hit(first_match_of(EPISODE_SXE@, title)),
        episode_hit(first_match_of(EPISODE_EXPLICIT@, title)),
        episode_hit(first_match_of(EPISODE_JAPANESE@, title)),
        episode_hit(first_match_of(EPISODE_DASH@, title)),
        episode_hit(first_match_of(EPISODE_BRACKET@, title)),
        fallback_hit(all_matches_of(EPISODE_FALLBACK@, title)),
    ];
    lemma_fallback_plausible(all_matches_of(EPISODE_FALLBACK@, title));
    lemma_first_hit_plausible(hits, title);
}

/// Finds the episode of a normalised title.
pub fn extract_episode_from_title(title: &str) -> (r: (Option<u32>, String))
    ensures
        (r.0, r.1@) == episode_split(title@),
{
    let ghost hits = seq![
        episode_hit(first_match_of(EPISODE_SXE@, title@)),
        episode_hit(first_match_of(EPISODE_EXPLICIT@, title@)),
        episode_hit(first_match_of(EPISODE_JAPANESE@, title@)),
        episode_hit(first_match_of(EPISODE_DASH@, title@)),
        episode_hit(first_match_of(EPISODE_BRACKET@, title@)),
        fallback_hit(all_matches_of(EPISODE_FALLBACK@, title@)),
    ];
    assert(hits.drop_first().drop_first().drop_first().drop_first().drop_first() =~= seq![hits[5]]);
    assert(seq![hits[5]].drop_first() =~= Seq::<Option<(u32, Seq<char>)>>::empty());
    proof {
        reveal_with_fuel(first_hit, 7);
    }
    if let Some((n, rest)) = match_episode(regex_first_match(EPISODE_SXE, title)) {
        return (Some(n), rest);
    }
    if let Some((n, rest)) = match_episode(regex_first_match(EPISODE_EXPLICIT, title)) {
        return (Some(n), rest);
    }
    if let Some((n, rest)) = match_episode(regex_first_match(EPISODE_JAPANESE, title)) {
        return (Some(n), rest);
    }
    if let Some((n, rest)) = match_episode(regex_first_match(EPISODE_DASH, title)) {
        return (Some(n), rest);
    }
    if let Some((n, rest)) = match_episode(regex_first_match(EPISODE_BRACKET, title)) {
        return (Some(n), rest);
    }
    let all = regex_all_matches(EPISODE_FALLBACK, title);
    if let Some((n, rest)) = fallback_episode_from_numbers(&all) {
        return (Some(n), rest);
    }
    (None, title.to_owned())
}


/// The value of an ASCII hex digit.
pub open spec fn hex_value(b: u8) -> Option<u8> {
    if 48 <= b <= 57 {
        Some((b - 48) as u8)
    } else if 97 <= b <= 102 {
        Some((b - 87) as u8)
    } else if 65 <= b <= 70 {
        Some((b - 55) as u8)
    } else {
        None
    }
}

pub fn hex_to_u8(value: u8) -> (r: Option<u8>)
    ensures
        r == hex_value(value),
{
    if 48 <= value && value <= 57 {
        Some(value - 48)
    } else if 97 <= value && value <= 102 {
        Some(value - 87)
    } else if 65 <= value && value <= 70 {
        Some(value - 55)
    } else {
        None
    }
}

/// `%HH` to the byte it writes and `+` to a space, left to right.
pub open spec fn percent_decoded(b: Seq<u8>) -> Seq<u8>
    decreases b.len(),
{
    if b.len() == 0 {
        b
    } else if b[0] == 37 && b.len() >= 3 && hex_value(b[1]) is Some && hex_value(b[2]) is Some {
        seq![(hex_value(b[1])->0 * 16 + hex_value(b[2])->0) as u8] + percent_decoded(b.skip(3))
    } else if b[0] == 43 {
        seq![32u8] + percent_decoded(b.skip(1))
    } else {
        seq![b[0]] + percent_decoded(b.skip(1))
    }
}

fn percent_decode_bytes(b: &[u8]) -> (r: Vec<u8>)
    ensures
        r@ == percent_decoded(b@),
{
    let mut out: Vec<u8> = Vec::new();
    let mut i: usize = 0;
    assert(b@.skip(0) =~= b@);
    while i < b.len()
        invariant
            i <= b@.len(),
            out@ + percent_decoded(b@.skip(i as int)) == percent_decoded(b@),
        decreases b@.len() - i,
    {
        let ghost rest = b@.skip(i as int);
        let ghost o = out@;
        let mut step: usize = 1;
        let mut byte: u8 = b[i];
        if b[i] == 37 && b.len() - i > 2 {
            let first = hex_to_u8(b[i + 1]);
            let second = hex_to_u8(b[i + 2]);
            if let (Some(x), Some(y)) = (first, second) {
                byte = x * 16 + y;
                step = 3;
            }
        }
        if step == 1 && b[i] == 43 {
            byte = 32;
        }
        assert(rest.skip(step as int) =~= b@.skip(i + step));
        assert(percent_decoded(rest) == seq![byte] + percent_decoded(b@.skip(i + step)));
        out.push(byte);
        assert(out@ + percent_decoded(b@.skip(i + step)) =~= o + percent_decoded(rest));
        i += step;
    }
    assert(out@ + percent_decoded(b@.skip(i as int)) =~= out@);
    out
}


/// Backslashes turned into forward slashes.
pub open spec fn forward_slashes(s: Seq<char>) -> Seq<char> {
    s.map_values(|c: char| if c == '\\' { '/' } else { c })
}

/// Index of the last `.` of `s`, or -1.
pub open spec fn last_dot(s: Seq<char>) -> int
    decreases s.len(),
{
    if s.len() == 0 {
        -1
    } else if s.last() == '.' {
        s.len() - 1
    } else {
        last_dot(s.drop_last())
    }
}

/// A file name without its last extension; a name whose only dot leads it
/// is kept whole, as is `..`.
pub open spec fn file_stem(name: Seq<char>) -> Seq<char> {
    if name =~= seq!['.', '.'] || last_dot(name) <= 0 {
        name
    } else {
        name.take(last_dot(name))
    }
}

/// The extension of a file name: what follows its last dot, where that dot
/// is not its first character.
pub open spec fn file_extension(name: Seq<char>) -> Option<Seq<char>> {
    if name =~= seq!['.', '.'] || last_dot(name) <= 0 {
        None
    } else {
        Some(name.skip(last_dot(name) + 1))
    }
}

fn find_last_dot(s: &[char]) -> (r: Option<usize>)
    ensures
        match r {
            Some(k) => k == last_dot(s@) && k < s@.len(),
            None => last_dot(s@) == -1,
        },
{
    let mut j: usize = s.len();
    assert(s@.take(s@.len() as int) =~= s@);
    while j > 0
        invariant
            j <= s@.len(),
            last_dot(s@) == last_dot(s@.take(j as int)),
        decreases j,
    {
        assert(s@.take(j as int).drop_last() =~= s@.take(j - 1));
        if s[j - 1] == '.' {
            return Some(j - 1);
        }
        j -= 1;
    }
    None
}

fn is_dot_dot(s: &[char]) -> (r: bool)
    ensures
        r == (s@ =~= seq!['.', '.']),
{
    s.len() == 2 && s[0] == '.' && s[1] == '.'
}

fn stem_of(name: &[char]) -> (r: Vec<char>)
    ensures
        r@ == file_stem(name@),
{
    let k = find_last_dot(name);
    let mut out: Vec<char> = Vec::new();
    let end: usize = match k {
        Some(k) if k > 0 && !is_dot_dot(name) => k,
        _ => name.len(),
    };
    for i in 0..end
        invariant
            end <= name@.len(),
            out@ == name@.take(i as int),
    {
        out.push(name[i]);
        assert(out@ =~= name@.take(i + 1));
    }
    assert(name@.take(name@.len() as int) =~= name@);
    out
}

fn extension_of(name: &[char]) -> (r: Option<Vec<char>>)
    ensures
        match r {
            Some(e) => file_extension(name@) == Some(e@),
            None => file_extension(name@) is None,
        },
{
    let found = find_last_dot(name);
    if found.is_none() || is_dot_dot(name) {
        return None;
    }
    let k = found.unwrap();
    if k == 0 {
        return None;
    }
    let n = name.len();
    assert(k < n);
    let start = k + 1;
    let mut out: Vec<char> = Vec::new();
    let mut i: usize = start;
    while i < name.len()
        invariant
            start <= i <= name@.len(),
            out@ == name@.subrange(start as int, i as int),
        decreases name@.len() - i,
    {
        out.push(name[i]);
        assert(out@ =~= name@.subrange(start as int, i + 1));
        i += 1;
    }
    assert(out@ =~= name@.skip(start as int));
    Some(out)
}

/// The title part of a source: unquoted, without query and fragment, the
/// last path component without its extension, percent-decoded and trimmed.
pub open spec fn source_title_of(source: Seq<char>) -> Option<Seq<char>> {
    let t = trim(
        trim(trim(trim(source, TrimSet::Space), TrimSet::DoubleQuote), TrimSet::SingleQuote),
        TrimSet::Space,
    );
    if t.len() == 0 {
        None
    } else {
        let path = forward_slashes(before_first(before_first(t, '?'), '#'));
        let stem = file_stem(last_component(path));
        let decoded = trim(utf8_lossy_of(percent_decoded(encode_utf8(stem))), TrimSet::Space);
        if decoded.len() == 0 {
            None
        } else {
            Some(decoded)
        }
    }
}

fn unquote(s: &str) -> (r: Vec<char>)
    ensures
        r@ == trim(
            trim(trim(trim(s@, TrimSet::Space), TrimSet::DoubleQuote), TrimSet::SingleQuote),
            TrimSet::Space,
        ),
{
    let cs = chars_of(s);
    let a = trim_chars(cs.as_slice(), TrimSet::Space);
    let b = trim_chars(a.as_slice(), TrimSet::DoubleQuote);
    let c = trim_chars(b.as_slice(), TrimSet::SingleQuote);
    trim_chars(c.as_slice(), TrimSet::Space)
}

pub fn extract_source_title(source: &str) -> (r: Option<String>)
    ensures
        opt_chars(r) == source_title_of(source@),
{
    let t = unquote(source);
    if t.len() == 0 {
        return None;
    }
    let no_query = before_first_of(t.as_slice(), '?');
    let no_fragment = before_first_of(no_query.as_slice(), '#');
    let mut path: Vec<char> = Vec::new();
    for i in 0..no_fragment.len()
        invariant
            path@ == forward_slashes(no_fragment@.take(i as int)),
    {
        let c = no_fragment[i];
        path.push(if c == '\\' { '/' } else { c });
        assert(path@ =~= forward_slashes(no_fragment@.take(i + 1)));
    }
    assert(no_fragment@.take(no_fragment@.len() as int) =~= no_fragment@);
    let name = last_component_of(path.as_slice());
    let stem = stem_of(name.as_slice());
    let stem_text = string_from(stem.as_slice());
    let decoded_bytes = percent_decode_bytes(stem_text.as_str().as_bytes());
    let decoded = utf8_lossy(decoded_bytes.as_slice());
    let dc = chars_of(decoded.as_str());
    let trimmed = trim_chars(dc.as_slice(), TrimSet::Space);
    if trimmed.len() == 0 {
        None
    } else {
        Some(string_from(trimmed.as_slice()))
    }
}

pub open spec fn opt_chars(o: Option<String>) -> Option<Seq<char>> {
    match o {
        Some(s) => Some(s@),
        None => None,
    }
}

/// Dots and underscores read as spaces, and each run of white space as one space.
pub open spec fn normalized_tokens(value: Seq<char>) -> Seq<char> {
    replaced_of(
        WHITESPACE_RUNS@,
        value.map_values(|c: char| if c == '.' || c == '_' { ' ' } else { c }),
        " "@,
    )
}

pub fn normalize_title_tokens(value: &str) -> (r: String)
    ensures
        r@ == normalized_tokens(value@),
{
    let cs = chars_of(value);
    let mut out: Vec<char> = Vec::new();
    for i in 0..cs.len()
        invariant
            cs@ == value@,
            out@ == cs@.take(i as int).map_values(
                |c: char| if c == '.' || c == '_' { ' ' } else { c },
            ),
    {
        let c = cs[i];
        out.push(if c == '.' || c == '_' { ' ' } else { c });
        assert(out@ =~= cs@.take(i + 1).map_values(
            |c: char| if c == '.' || c == '_' { ' ' } else { c },
        ));
    }
    assert(cs@.take(cs@.len() as int) =~= cs@);
    let spaced = string_from(out.as_slice());
    regex_replace_all(WHITESPACE_RUNS, spaced.as_str(), " ")
}

/// The title left once release groups, bracketed tags, release noise and
/// separators are taken out.
pub open spec fn cleaned_title(rest: Seq<char>) -> Seq<char> {
    let t1 = replaced_of(LEADING_GROUPS@, rest, " "@);
    let t2 = replaced_of(BRACKET_GROUPS@, t1, " "@);
    let t3 = replaced_of(NOISE_TOKENS@, t2, " "@);
    let t4 = replaced_of(HYPHEN_RUNS@, t3, " "@);
    let t5 = replaced_of(WHITESPACE_RUNS@, trim(t4, TrimSet::Space), " "@);
    trim(trim(t5, TrimSet::Space), TrimSet::Separators)
}

fn clean_title(rest: &str) -> (r: Vec<char>)
    ensures
        r@ == cleaned_title(rest@),
{
    let t1 = regex_replace_all(LEADING_GROUPS, rest, " ");
    let t2 = regex_replace_all(BRACKET_GROUPS, t1.as_str(), " ");
    let t3 = regex_replace_all(NOISE_TOKENS, t2.as_str(), " ");
    let t4 = regex_replace_all(HYPHEN_RUNS, t3.as_str(), " ");
    let c4 = chars_of(t4.as_str());
    let trimmed = string_from(trim_chars(c4.as_slice(), TrimSet::Space).as_slice());
    let t5 = regex_replace_all(WHITESPACE_RUNS, trimmed.as_str(), " ");
    let c5 = chars_of(t5.as_str());
    let c6 = trim_chars(c5.as_slice(), TrimSet::Space);
    trim_chars(c6.as_slice(), TrimSet::Separators)
}

/// The title and episode read from a source.
#[derive(Debug)]
pub struct ParsedAnime {
    pub anime_title: String,
    pub episode: Option<u32>,
}

pub open spec fn parsed_anime_of(source: Seq<char>) -> Option<(Seq<char>, Option<u32>)> {
    match source_title_of(source) {
        None => None,
        Some(raw) => {
            let n = normalized_tokens(raw);
            if n.len() == 0 {
                None
            } else {
                let (episode, rest) = episode_split(n);
                let title = cleaned_title(rest);
                if title.len() == 0 {
                    None
                } else {
                    Some((title, episode))
                }
            }
        },
    }
}

/// Reads the anime title and episode from a path or URL.
pub fn parse_anime_from_source(source: &str) -> (r: Option<ParsedAnime>)
    ensures
        match r {
            Some(p) => parsed_anime_of(source@) == Some((p.anime_title@, p.episode)),
            None => parsed_anime_of(source@) is None,
        },
        r matches Some(p) ==> p.anime_title@.len() > 0,
        r matches Some(p) ==> (p.episode matches Some(n) ==> plausible_episode(n)),
{
    let raw = extract_source_title(source)?;
    let normalized = normalize_title_tokens(raw.as_str());
    if normalized.as_str().is_empty() {
        return None;
    }
    let (episode, rest) = extract_episode_from_title(normalized.as_str());
    proof {
        episode_is_plausible(normalized@);
    }
    let title = clean_title(rest.as_str());
    if title.len() == 0 {
        return None;
    }
    Some(ParsedAnime { anime_title: string_from(title.as_slice()), episode })
}

/// URL schemes that name a playable source.
pub open spec fn url_prefixes() -> Seq<Seq<char>> {
    seq!["http://"@, "https://"@, "ftp://"@, "rtsp://"@, "file://"@]
}

pub open spec fn is_url(value: Seq<char>) -> bool {
    exists|i: int|
        0 <= i < url_prefixes().len() && #[trigger] url_prefixes()[i].len() <= value.len()
            && lower_seq(value).take(url_prefixes()[i].len() as int) == url_prefixes()[i]
}

pub fn is_url_source(value: &str) -> (r: bool)
    ensures
        r == is_url(value@),
{
    let cs = chars_of(value);
    let lowered = to_lower(cs.as_slice());
    let prefixes = vec!["http://", "https://", "ftp://", "rtsp://", "file://"];
    assert(prefixes@.map_values(|x: &str| x@) =~= url_prefixes());
    for i in 0..prefixes.len()
        invariant
            cs@ == value@,
            lowered@ == lower_seq(value@),
            lowered@.len() == value@.len(),
            prefixes@.map_values(|x: &str| x@) == url_prefixes(),
            forall|j: int|
                0 <= j < i ==> !(#[trigger] url_prefixes()[j].len() <= value@.len() && lower_seq(
                    value@,
                ).take(url_prefixes()[j].len() as int) == url_prefixes()[j]),
    {
        let p = chars_of(prefixes[i]);
        assert(p@ == url_prefixes()[i as int]);
        if starts_with(lowered.as_slice(), p.as_slice()) {
            return true;
        }
    }
    false
}

pub open spec fn windows_path(value: Seq<char>) -> bool {
    value.len() >= 3 && value[1] == ':' && (value[2] == '\\' || value[2] == '/') && (('a'
        <= value[0] && value[0] <= 'z') || ('A' <= value[0] && value[0] <= 'Z'))
}

/// `X:\` or `X:/` with a letter for the drive.
pub fn looks_like_windows_path(value: &str) -> (r: bool)
    ensures
        r == windows_path(value@),
{
    let cs = chars_of(value);
    cs.len() >= 3 && cs[1] == ':' && (cs[2] == '\\' || cs[2] == '/') && (('a' <= cs[0] && cs[0]
        <= 'z') || ('A' <= cs[0] && cs[0] <= 'Z'))
}

/// Extensions of video files.
pub open spec fn video_extensions() -> Seq<Seq<char>> {
    seq![
        "mkv"@,
        "mp4"@,
        "avi"@,
        "mov"@,
        "wmv"@,
        "flv"@,
        "webm"@,
        "m4v"@,
        "ts"@,
        "m2ts"@,
        "mpg"@,
        "mpeg"@,
        "ogm"@,
    ]
}

fn is_video_extension(ext: &[char]) -> (r: bool)
    ensures
        r == video_extensions().contains(ext@),
{
    let list = vec![
        "mkv", "mp4", "avi", "mov", "wmv", "flv", "webm", "m4v", "ts", "m2ts", "mpg", "mpeg", "ogm",
    ];
    assert(list@.map_values(|x: &str| x@) =~= video_extensions());
    for i in 0..list.len()
        invariant
            list@.map_values(|x: &str| x@) == video_extensions(),
            forall|j: int| 0 <= j < i ==> video_extensions()[j] != ext@,
    {
        let e = chars_of(list[i]);
        assert(e@ == video_extensions()[i as int]);
        if crate::text::seq_eq(e.as_slice(), ext) {
            return true;
        }
    }
    false
}

/// An argument that names a playable source: a URL, or a path to a video file.
pub open spec fn source_arg_of(value: Seq<char>) -> Option<Seq<char>> {
    let t = trim(trim(trim(value, TrimSet::DoubleQuote), TrimSet::SingleQuote), TrimSet::Space);
    if t.len() == 0 {
        None
    } else if is_url(t) {
        Some(t)
    } else {
        match file_extension(last_component(before_first(before_first(t, '?'), '#'))) {
            Some(e) if video_extensions().contains(lower_seq(e)) => Some(t),
            _ => None,
        }
    }
}

pub fn normalize_source_arg(value: &str) -> (r: Option<String>)
    ensures
        opt_chars(r) == source_arg_of(value@),
{
    let cs = chars_of(value);
    let a = trim_chars(cs.as_slice(), TrimSet::DoubleQuote);
    let b = trim_chars(a.as_slice(), TrimSet::SingleQuote);
    let t = trim_chars(b.as_slice(), TrimSet::Space);
    if t.len() == 0 {
        return None;
    }
    let text = string_from(t.as_slice());
    if is_url_source(text.as_str()) {
        return Some(text);
    }
    let no_query = before_first_of(t.as_slice(), '?');
    let sanitized = before_first_of(no_query.as_slice(), '#');
    let name = last_component_of(sanitized.as_slice());
    match extension_of(name.as_slice()) {
        Some(e) => {
            let lowered = to_lower(e.as_slice());
            if is_video_extension(lowered.as_slice()) {
                Some(text)
            } else {
                None
            }
        },
        None => None,
    }
}

} // verus!
