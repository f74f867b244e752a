//! Supported media players, how their processes are recognised, and the
//! splitting of command lines into arguments.

use vstd::prelude::*;
use crate::text::{
    chars_of, is_space, char_is_space, last_component, last_component_of, lower_seq, seq_eq,
    string_from, to_lower, trim, trim_chars, TrimSet,
};

verus! {

pub const DEFAULT_OBSERVER_POLL_INTERVAL_MS: u64 = 2000;

pub const MIN_OBSERVER_POLL_INTERVAL_MS: u64 = 500;

pub const MAX_OBSERVER_POLL_INTERVAL_MS: u64 = 60000;

#[derive(Clone, Copy, PartialEq, Eq, Structural, Debug)]
pub enum SupportedPlayer {
    Mpv,
    MpcHc,
    MpcBe,
}

/// The characters of each string of a list.
pub open spec fn strs_view(s: Seq<&str>) -> Seq<Seq<char>> {
    s.map_values(|x: &str| x@)
}

pub open spec fn strings_view(s: Seq<String>) -> Seq<Seq<char>> {
    s.map_values(|x: String| x@)
}

/// The executable names of a player.
pub open spec fn aliases(p: SupportedPlayer) -> Seq<Seq<char>> {
    match p {
        SupportedPlayer::Mpv => seq!["mpv"@, "mpv.exe"@, "mpvnet"@, "mpvnet.exe"@, "io.mpv.mpv"@],
        SupportedPlayer::MpcHc => seq!["mpc-hc"@, "mpc-hc.exe"@, "mpc-hc64"@, "mpc-hc64.exe"@],
        SupportedPlayer::MpcBe => seq!["mpc-be"@, "mpc-be.exe"@, "mpc-be64"@, "mpc-be64.exe"@],
    }
}

/// A process name without quotes, surrounding white space and directories,
/// in ASCII lower case.
pub open spec fn normalized_process_name(value: Seq<char>) -> Seq<char> {
    lower_seq(last_component(trim(trim(value, TrimSet::DoubleQuote), TrimSet::Space)))
}

pub fn normalize_process_name(value: &str) -> (r: Vec<char>)
    ensures
        r@ == normalized_process_name(value@),
{
    let cs = chars_of(value);
    let unquoted = trim_chars(cs.as_slice(), TrimSet::DoubleQuote);
    let trimmed = trim_chars(unquoted.as_slice(), TrimSet::Space);
    let name = last_component_of(trimmed.as_slice());
    to_lower(name.as_slice())
}

/// The players in the order they are offered.
pub open spec fn all_players() -> Seq<SupportedPlayer> {
    seq![SupportedPlayer::Mpv, SupportedPlayer::MpcHc, SupportedPlayer::MpcBe]
}

impl SupportedPlayer {
    pub fn all() -> (r: Vec<SupportedPlayer>)
        ensures
            r@ == all_players(),
    {
        let r = vec![SupportedPlayer::Mpv, SupportedPlayer::MpcHc, SupportedPlayer::MpcBe];
        assert(r@ =~= all_players());
        r
    }

    pub fn process_aliases(self) -> (r: Vec<&'static str>)
        ensures
            strs_view(r@) == aliases(self),
    {
        let r = match self {
            SupportedPlayer::Mpv => vec!["mpv", "mpv.exe", "mpvnet", "mpvnet.exe", "io.mpv.mpv"],
            SupportedPlayer::MpcHc => vec!["mpc-hc", "mpc-hc.exe", "mpc-hc64", "mpc-hc64.exe"],
            SupportedPlayer::MpcBe => vec!["mpc-be", "mpc-be.exe", "mpc-be64", "mpc-be64.exe"],
        };
        assert(strs_view(r@) =~= aliases(self));
        r
    }

    /// The process name is one of this player's executables.
    pub open spec fn matches_name(self, value: Seq<char>) -> bool {
        aliases(self).contains(normalized_process_name(value))
    }

    pub fn matches_process_name(self, value: &str) -> (r: bool)
        ensures
            r == self.matches_name(value@),
    {
        let normalized = normalize_process_name(value);
        let names = self.process_aliases();
        let ghost al = strs_view(names@);
        for i in 0..names.len()
            invariant
                al == strs_view(names@),
                al == aliases(self),
                normalized@ == normalized_process_name(value@),
                forall|j: int| 0 <= j < i ==> al[j] != normalized@,
        {
            let alias = chars_of(names[i]);
            if seq_eq(normalized.as_slice(), alias.as_slice()) {
                assert(al[i as int] == normalized@);
                return true;
            }
        }
        false
    }
}

/// The players of `s`, each at its first place.
pub open spec fn dedup_spec(s: Seq<SupportedPlayer>) -> Seq<SupportedPlayer>
    decreases s.len(),
{
    if s.len() == 0 {
        s
    } else if dedup_spec(s.drop_last()).contains(s.last()) {
        dedup_spec(s.drop_last())
    } else {
        dedup_spec(s.drop_last()).push(s.last())
    }
}

pub fn dedup_players(players: Vec<SupportedPlayer>) -> (r: Vec<SupportedPlayer>)
    ensures
        r@ == dedup_spec(players@),
{
    let mut out: Vec<SupportedPlayer> = Vec::new();
    for i in 0..players.len()
        invariant
            out@ == dedup_spec(players@.take(i as int)),
    {
        let p = players[i];
        let ghost t = players@.take(i + 1);
        assert(t.drop_last() =~= players@.take(i as int));
        let mut seen = false;
        for j in 0..out.len()
            invariant
                seen == (exists|k: int| 0 <= k < j && out@[k] == p),
        {
            if out[j] == p {
                seen = true;
            }
        }
        if !seen {
            out.push(p);
        }
    }
    assert(players@.take(players@.len() as int) =~= players@);
    out
}

/// The poll interval brought into its bounds.
pub open spec fn clamp_interval(value: u64) -> u64 {
    if value < MIN_OBSERVER_POLL_INTERVAL_MS {
        MIN_OBSERVER_POLL_INTERVAL_MS
    } else if value > MAX_OBSERVER_POLL_INTERVAL_MS {
        MAX_OBSERVER_POLL_INTERVAL_MS
    } else {
        value
    }
}

pub fn normalize_poll_interval_ms(value: u64) -> (r: u64)
    ensures
        r == clamp_interval(value),
        MIN_OBSERVER_POLL_INTERVAL_MS <= r <= MAX_OBSERVER_POLL_INTERVAL_MS,
{
    if value < MIN_OBSERVER_POLL_INTERVAL_MS {
        MIN_OBSERVER_POLL_INTERVAL_MS
    } else if value > MAX_OBSERVER_POLL_INTERVAL_MS {
        MAX_OBSERVER_POLL_INTERVAL_MS
    } else {
        value
    }
}

/// The state of a left-to-right scan of a command line: the finished
/// arguments, the one being read, and the quote that is open.
pub open spec fn split_step(st: (Seq<Seq<char>>, Seq<char>, Option<char>), ch: char) -> (
    Seq<Seq<char>>,
    Seq<char>,
    Option<char>,
) {
    match st.2 {
        Some(q) => if ch == q {
            (st.0, st.1, None)
        } else {
            (st.0, st.1.push(ch), Some(q))
        },
        None => if ch == '"' || ch == '\'' {
            (st.0, st.1, Some(ch))
        } else if is_space(ch) {
            if st.1.len() > 0 {
                (st.0.push(st.1), Seq::empty(), None)
            } else {
                st
            }
        } else {
            (st.0, st.1.push(ch), None)
        },
    }
}

pub open spec fn split_scan(s: Seq<char>) -> (Seq<Seq<char>>, Seq<char>, Option<char>)
    decreases s.len(),
{
    if s.len() == 0 {
        (Seq::empty(), Seq::empty(), None)
    } else {
        split_step(split_scan(s.drop_last()), s.last())
    }
}

/// The arguments of a command line: white space separates them outside
/// quotes, and a single or double quote brackets text that is kept whole.
pub open spec fn split_args(s: Seq<char>) -> Seq<Seq<char>> {
    let st = split_scan(s);
    if st.1.len() > 0 {
        st.0.push(st.1)
    } else {
        st.0
    }
}

pub fn split_command_line(value: &str) -> (r: Vec<String>)
    ensures
        strings_view(r@) == split_args(value@),
{
    let cs = chars_of(value);
    let mut parts: Vec<String> = Vec::new();
    let mut current: Vec<char> = Vec::new();
    let mut quote: Option<char> = None;
    for i in 0..cs.len()
        invariant
            cs@ == value@,
            (strings_view(parts@), current@, quote) == split_scan(cs@.take(i as int)),
    {
        let ch = cs[i];
        assert(cs@.take(i + 1).drop_last() =~= cs@.take(i as int));
        match quote {
            Some(q) => {
                if ch == q {
                    quote = None;
                } else {
                    current.push(ch);
                }
            },
            None => {
                if ch == '"' || ch == '\'' {
                    quote = Some(ch);
                } else if char_is_space(ch) {
                    if current.len() > 0 {
                        let ghost before = strings_view(parts@);
                        parts.push(string_from(current.as_slice()));
                        assert(strings_view(parts@) =~= before.push(current@));
                        current = Vec::new();
                    }
                } else {
                    current.push(ch);
                }
            },
        }
    }
    assert(cs@.take(cs@.len() as int) =~= cs@);
    if current.len() > 0 {
        let ghost before = strings_view(parts@);
        parts.push(string_from(current.as_slice()));
        assert(strings_view(parts@) =~= before.push(current@));
    }
    parts
}

} // verus!
