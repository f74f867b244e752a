//! Text helpers shared by the mappings of the two list providers.

use vstd::prelude::*;
use crate::text::{chars_of, lower, lower_seq, string_from, to_lower, trim, trim_chars, TrimSet};
use crate::updates::{split_chars, split_on};

verus! {

/// The list a user has put an anime on.
#[derive(Clone, Copy, PartialEq, Eq, Structural, Debug)]
pub enum UserStatusKey {
    Watching,
    Completed,
    OnHold,
    Dropped,
    PlanToWatch,
}

pub open spec fn status_key_of_anilist(status: Option<Seq<char>>) -> UserStatusKey {
    match status {
        Some(s) => if s == "CURRENT"@ || s == "REPEATING"@ {
            UserStatusKey::Watching
        } else if s == "COMPLETED"@ {
            UserStatusKey::Completed
        } else if s == "PAUSED"@ {
            UserStatusKey::OnHold
        } else if s == "DROPPED"@ {
            UserStatusKey::Dropped
        } else {
            UserStatusKey::PlanToWatch
        },
        None => UserStatusKey::PlanToWatch,
    }
}

pub open spec fn status_key_of_mal(status: Option<Seq<char>>) -> UserStatusKey {
    match status {
        Some(s) => if s == "watching"@ {
            UserStatusKey::Watching
        } else if s == "completed"@ {
            UserStatusKey::Completed
        } else if s == "on_hold"@ {
            UserStatusKey::OnHold
        } else if s == "dropped"@ {
            UserStatusKey::Dropped
        } else {
            UserStatusKey::PlanToWatch
        },
        None => UserStatusKey::PlanToWatch,
    }
}

pub open spec fn opt_ref_view(o: Option<&str>) -> Option<Seq<char>> {
    match o {
        Some(s) => Some(s@),
        None => None,
    }
}

pub fn str_is(s: &str, lit: &str) -> (r: bool)
    ensures
        r == (s@ == lit@),
{
    let a = chars_of(s);
    let b = chars_of(lit);
    crate::text::seq_eq(a.as_slice(), b.as_slice())
}

impl UserStatusKey {
    pub fn from_anilist(status: Option<&str>) -> (r: Self)
        ensures
            r == status_key_of_anilist(opt_ref_view(status)),
    {
        match status {
            Some(s) => if str_is(s, "CURRENT") || str_is(s, "REPEATING") {
                UserStatusKey::Watching
            } else if str_is(s, "COMPLETED") {
                UserStatusKey::Completed
            } else if str_is(s, "PAUSED") {
                UserStatusKey::OnHold
            } else if str_is(s, "DROPPED") {
                UserStatusKey::Dropped
            } else {
                UserStatusKey::PlanToWatch
            },
            None => UserStatusKey::PlanToWatch,
        }
    }

    pub fn from_mal(status: Option<&str>) -> (r: Self)
        ensures
            r == status_key_of_mal(opt_ref_view(status)),
    {
        match status {
            Some(s) => if str_is(s, "watching") {
                UserStatusKey::Watching
            } else if str_is(s, "completed") {
                UserStatusKey::Completed
            } else if str_is(s, "on_hold") {
                UserStatusKey::OnHold
            } else if str_is(s, "dropped") {
                UserStatusKey::Dropped
            } else {
                UserStatusKey::PlanToWatch
            },
            None => UserStatusKey::PlanToWatch,
        }
    }

    pub open spec fn name(self) -> Seq<char> {
        match self {
            UserStatusKey::Watching => "watching"@,
            UserStatusKey::Completed => "completed"@,
            UserStatusKey::OnHold => "onHold"@,
            UserStatusKey::Dropped => "dropped"@,
            UserStatusKey::PlanToWatch => "planToWatch"@,
        }
    }

    pub fn as_user_status_str(self) -> (r: &'static str)
        ensures
            r@ == self.name(),
    {
        match self {
            UserStatusKey::Watching => "watching",
            UserStatusKey::Completed => "completed",
            UserStatusKey::OnHold => "onHold",
            UserStatusKey::Dropped => "dropped",
            UserStatusKey::PlanToWatch => "planToWatch",
        }
    }
}

/// A text trimmed of white space, where anything is left.
pub open spec fn normalized_text(value: Option<Seq<char>>) -> Option<Seq<char>> {
    match value {
        Some(v) if trim(v, TrimSet::Space).len() > 0 => Some(trim(v, TrimSet::Space)),
        _ => None,
    }
}

pub fn normalize_text(value: Option<&str>) -> (r: Option<String>)
    ensures
        match r {
            Some(s) => normalized_text(opt_ref_view(value)) == Some(s@),
            None => normalized_text(opt_ref_view(value)) is None,
        },
{
    let v = value?;
    let cs = chars_of(v);
    let t = trim_chars(cs.as_slice(), TrimSet::Space);
    if t.len() == 0 {
        None
    } else {
        Some(string_from(t.as_slice()))
    }
}

/// The pieces joined with `sep` between them.
pub open spec fn joined(parts: Seq<Seq<char>>, sep: Seq<char>) -> Seq<char>
    decreases parts.len(),
{
    if parts.len() == 0 {
        Seq::empty()
    } else if parts.len() == 1 {
        parts[0]
    } else {
        joined(parts.drop_last(), sep) + sep + parts.last()
    }
}

pub fn join_with(parts: &Vec<Vec<char>>, sep: &str) -> (r: Vec<char>)
    ensures
        r@ == joined(parts@.map_values(|p: Vec<char>| p@), sep@),
{
    let ghost pv = parts@.map_values(|p: Vec<char>| p@);
    let s = chars_of(sep);
    let mut out: Vec<char> = Vec::new();
    for i in 0..parts.len()
        invariant
            pv == parts@.map_values(|p: Vec<char>| p@),
            s@ == sep@,
            out@ == joined(pv.take(i as int), sep@),
    {
        assert(pv.take(i + 1).drop_last() =~= pv.take(i as int));
        let ghost before = out@;
        if i > 0 {
            for k in 0..s.len()
                invariant
                    out@ == before + s@.take(k as int),
            {
                out.push(s[k]);
                assert(out@ =~= before + s@.take(k + 1));
            }
            assert(s@.take(s@.len() as int) =~= s@);
        } else {
            assert(before.len() == 0);
        }
        let ghost mid = out@;
        let p = &parts[i];
        for k in 0..p.len()
            invariant
                out@ == mid + p@.take(k as int),
        {
            out.push(p[k]);
            assert(out@ =~= mid + p@.take(k + 1));
        }
        assert(p@.take(p@.len() as int) =~= p@);
        assert(pv[i as int] == p@);
        if i == 0 {
            assert(out@ =~= joined(pv.take(1), sep@));
        } else {
            assert(out@ =~= joined(pv.take(i + 1), sep@));
        }
    }
    assert(pv.take(pv.len() as int) =~= pv);
    out
}

/// The non-empty pieces, in order.
pub open spec fn non_empty(parts: Seq<Seq<char>>) -> Seq<Seq<char>>
    decreases parts.len(),
{
    if parts.len() == 0 {
        parts
    } else if parts.last().len() == 0 {
        non_empty(parts.drop_last())
    } else {
        non_empty(parts.drop_last()).push(parts.last())
    }
}

pub open spec fn upper(c: char) -> char {
    if 'a' <= c && c <= 'z' {
        ((c as u8) - 32u8) as char
    } else {
        c
    }
}

/// A word in lower case with its first letter in upper case.
pub open spec fn capitalized(p: Seq<char>) -> Seq<char> {
    let l = lower_seq(p);
    seq![upper(l[0])] + l.drop_first()
}

pub open spec fn capitalized_all(parts: Seq<Seq<char>>) -> Seq<Seq<char>> {
    parts.map_values(|p: Seq<char>| capitalized(p))
}

/// `SOME_NAME` as `Some Name`; `Unknown` where no word is left.
pub open spec fn upper_snake_text(value: Seq<char>) -> Seq<char> {
    let words = non_empty(split_on(value, '_'));
    if words.len() == 0 {
        "Unknown"@
    } else {
        joined(capitalized_all(words), " "@)
    }
}

pub fn format_upper_snake(value: &str) -> (r: String)
    ensures
        r@ == upper_snake_text(value@),
{
    let cs = chars_of(value);
    let pieces = split_chars(cs.as_slice(), '_');
    let ghost all = pieces@.map_values(|x: Vec<char>| x@);
    let mut words: Vec<Vec<char>> = Vec::new();
    let mut count: usize = 0;
    for i in 0..pieces.len()
        invariant
            all == pieces@.map_values(|x: Vec<char>| x@),
            all == split_on(cs@, '_'),
            words@.map_values(|x: Vec<char>| x@) == capitalized_all(non_empty(all.take(i as int))),
            count == non_empty(all.take(i as int)).len(),
            count <= i,
    {
        assert(all.take(i + 1).drop_last() =~= all.take(i as int));
        assert(all[i as int] == pieces@[i as int]@);
        let piece = &pieces[i];
        if piece.len() > 0 {
            let mut w = to_lower(piece.as_slice());
            let first = w[0];
            let up = if 'a' <= first && first <= 'z' {
                ((first as u8) - 32u8) as char
            } else {
                first
            };
            w.set(0, up);
            let ghost before = words@.map_values(|x: Vec<char>| x@);
            proof {
                assert(w@ =~= capitalized(piece@));
            }
            words.push(w);
            count += 1;
            assert(words@.map_values(|x: Vec<char>| x@) =~= before.push(capitalized(piece@)));
            assert(capitalized_all(non_empty(all.take(i + 1))) =~= capitalized_all(
                non_empty(all.take(i as int)),
            ).push(capitalized(piece@)));
        }
    }
    assert(all.take(all.len() as int) =~= all);
    if count == 0 {
        return "Unknown".to_owned();
    }
    let joined_chars = join_with(&words, " ");
    string_from(joined_chars.as_slice())
}

/// A table from provider names to display names, as characters.
pub open spec fn table_view(t: Seq<(&str, &str)>) -> Seq<(Seq<char>, Seq<char>)> {
    t.map_values(|p: (&str, &str)| (p.0@, p.1@))
}

/// The display name of the first row whose key is `k`.
pub open spec fn table_get(t: Seq<(Seq<char>, Seq<char>)>, k: Seq<char>) -> Option<Seq<char>>
    decreases t.len(),
{
    if t.len() == 0 {
        None
    } else if t[0].0 == k {
        Some(t[0].1)
    } else {
        table_get(t.drop_first(), k)
    }
}

pub fn table_lookup(table: &Vec<(&'static str, &'static str)>, k: &str) -> (r: Option<&'static str>)
    ensures
        opt_ref_view(r) == table_get(table_view(table@), k@),
{
    let ghost tv = table_view(table@);
    assert(tv.skip(0) =~= tv);
    for i in 0..table.len()
        invariant
            tv == table_view(table@),
            table_get(tv, k@) == table_get(tv.skip(i as int), k@),
    {
        assert(tv.skip(i as int).drop_first() =~= tv.skip(i + 1));
        assert(tv.skip(i as int)[0] == (table@[i as int].0@, table@[i as int].1@));
        if str_is(k, table[i].0) {
            return Some(table[i].1);
        }
    }
    assert(tv.skip(tv.len() as int).len() == 0);
    None
}

/// `s` with zeros in front up to width `w`.
pub open spec fn padded(s: Seq<char>, w: nat) -> Seq<char> {
    if s.len() >= w {
        s
    } else {
        Seq::new((w - s.len()) as nat, |i: int| '0') + s
    }
}

pub fn pad_zeros(s: Vec<char>, w: usize) -> (r: Vec<char>)
    ensures
        r@ == padded(s@, w as nat),
{
    if s.len() >= w {
        return s;
    }
    let mut out: Vec<char> = Vec::new();
    let n = w - s.len();
    for i in 0..n
        invariant
            out@ == Seq::new(i as nat, |j: int| '0'),
    {
        out.push('0');
        assert(out@ =~= Seq::new((i + 1) as nat, |j: int| '0'));
    }
    let ghost zeros = out@;
    for i in 0..s.len()
        invariant
            out@ == zeros + s@.take(i as int),
    {
        out.push(s[i]);
        assert(out@ =~= zeros + s@.take(i + 1));
    }
    assert(s@.take(s@.len() as int) =~= s@);
    out
}

pub fn append_chars(out: &mut Vec<char>, s: &[char])
    ensures
        final(out)@ == old(out)@ + s@,
{
    let ghost start = out@;
    for i in 0..s.len()
        invariant
            out@ == start + s@.take(i as int),
    {
        out.push(s[i]);
        assert(out@ =~= start + s@.take(i + 1));
    }
    assert(s@.take(s@.len() as int) =~= s@);
}

} // verus!
