//! Reading process descriptions as the operating system reports them.

use vstd::prelude::*;
use crate::detector::ProcessSnapshot;
use crate::parser::{utf8_lossy, utf8_lossy_of};
use crate::player::{split_args, split_command_line, strings_view};
use crate::text::{
    chars_of, decimal_u64, is_space, char_is_space, parse_u64, string_from, trim, trim_chars,
    trim_start, TrimSet,
};

verus! {

/// A left-to-right scan of a NUL-separated argument list: the arguments
/// read so far and the one being read.
pub open spec fn nul_scan(b: Seq<u8>) -> (Seq<Seq<u8>>, Seq<u8>)
    decreases b.len(),
{
    if b.len() == 0 {
        (Seq::empty(), Seq::empty())
    } else {
        let (done, cur) = nul_scan(b.drop_last());
        if b.last() == 0 {
            if cur.len() > 0 {
                (done.push(cur), Seq::empty())
            } else {
                (done, Seq::empty())
            }
        } else {
            (done, cur.push(b.last()))
        }
    }
}

/// The non-empty NUL-separated pieces of `b`.
pub open spec fn nul_chunks(b: Seq<u8>) -> Seq<Seq<u8>> {
    let (done, cur) = nul_scan(b);
    if cur.len() > 0 {
        done.push(cur)
    } else {
        done
    }
}

/// The arguments of a Linux `cmdline` file: its non-empty NUL-separated
/// pieces, each read as lossy UTF-8.
pub fn parse_linux_cmdline(bytes: &[u8]) -> (r: Vec<String>)
    ensures
        strings_view(r@) == nul_chunks(bytes@).map_values(|c: Seq<u8>| utf8_lossy_of(c)),
{
    let mut chunks: Vec<Vec<u8>> = Vec::new();
    let mut current: Vec<u8> = Vec::new();
    for i in 0..bytes.len()
        invariant
            (chunks@.map_values(|x: Vec<u8>| x@), current@) == nul_scan(bytes@.take(i as int)),
    {
        assert(bytes@.take(i + 1).drop_last() =~= bytes@.take(i as int));
        let ghost before = chunks@.map_values(|x: Vec<u8>| x@);
        if bytes[i] == 0 {
            if current.len() > 0 {
                let done = current;
                current = Vec::new();
                chunks.push(done);
                assert(chunks@.map_values(|x: Vec<u8>| x@) =~= before.push(done@));
            }
        } else {
            current.push(bytes[i]);
        }
    }
    assert(bytes@.take(bytes@.len() as int) =~= bytes@);
    if current.len() > 0 {
        let ghost before = chunks@.map_values(|x: Vec<u8>| x@);
        chunks.push(current);
        assert(chunks@.map_values(|x: Vec<u8>| x@) =~= before.push(current@));
    }
    let ghost cv = chunks@.map_values(|x: Vec<u8>| x@);
    let mut out: Vec<String> = Vec::new();
    for i in 0..chunks.len()
        invariant
            cv == chunks@.map_values(|x: Vec<u8>| x@),
            strings_view(out@) == cv.take(i as int).map_values(|c: Seq<u8>| utf8_lossy_of(c)),
    {
        let s = utf8_lossy(chunks[i].as_slice());
        assert(cv[i as int] == chunks@[i as int]@);
        let ghost before = strings_view(out@);
        out.push(s);
        assert(strings_view(out@) =~= before.push(s@));
        assert(strings_view(out@) =~= cv.take(i + 1).map_values(|c: Seq<u8>| utf8_lossy_of(c)));
    }
    assert(cv.take(cv.len() as int) =~= cv);
    out
}

/// What precedes the first white space of `s`, and what follows it.
pub open spec fn split_at_space(s: Seq<char>) -> (Seq<char>, Option<Seq<char>>)
    decreases s.len(),
{
    if s.len() == 0 {
        (s, None)
    } else if is_space(s[0]) {
        (Seq::empty(), Some(s.drop_first()))
    } else {
        let (a, b) = split_at_space(s.drop_first());
        (seq![s[0]] + a, b)
    }
}

fn split_first_space(s: &[char]) -> (r: (Vec<char>, Option<Vec<char>>))
    ensures
        (r.0@, match r.1 {
            Some(v) => Some(v@),
            None => None,
        }) == split_at_space(s@),
{
    let mut head: Vec<char> = Vec::new();
    let mut i: usize = 0;
    assert(s@.skip(0) =~= s@);
    while i < s.len() && !char_is_space(s[i])
        invariant
            i <= s@.len(),
            head@ == s@.take(i as int),
            split_at_space(s@) == (head@ + split_at_space(s@.skip(i as int)).0, split_at_space(
                s@.skip(i as int),
            ).1),
        decreases s@.len() - i,
    {
        assert(s@.skip(i as int).drop_first() =~= s@.skip(i + 1));
        head.push(s[i]);
        assert(head@ =~= s@.take(i + 1));
        assert(head@ + split_at_space(s@.skip(i + 1)).0 =~= s@.take(i as int) + (seq![s@[i as int]]
            + split_at_space(s@.skip(i + 1)).0));
        i += 1;
    }
    if i == s.len() {
        assert(head@ + Seq::<char>::empty() =~= head@);
        return (head, None);
    }
    let mut tail: Vec<char> = Vec::new();
    let mut k: usize = i + 1;
    while k < s.len()
        invariant
            i < k <= s@.len(),
            tail@ == s@.subrange(i + 1, k as int),
        decreases s@.len() - k,
    {
        tail.push(s[k]);
        assert(tail@ =~= s@.subrange(i + 1, k + 1));
        k += 1;
    }
    assert(tail@ =~= s@.skip(i as int).drop_first());
    assert(head@ + Seq::<char>::empty() =~= head@);
    (head, Some(tail))
}

/// One line of `ps -o pid=,comm=,args=`: the id, the command name, and the
/// command line (the whole rest where no arguments follow the name).
pub open spec fn ps_line_of(line: Seq<char>) -> Option<(u32, Seq<char>, Seq<char>)> {
    let t = trim(line, TrimSet::Space);
    let (pid_raw, rest_raw) = split_at_space(t);
    if t.len() == 0 || rest_raw is None {
        None
    } else {
        match decimal_u64(trim(pid_raw, TrimSet::Space)) {
            Some(pid) if pid <= u32::MAX => {
                let rest = trim_start(rest_raw->0, TrimSet::Space);
                let (name, args_raw) = split_at_space(rest);
                let command_line = match args_raw {
                    Some(a) if trim_start(a, TrimSet::Space).len() > 0 => trim_start(a, TrimSet::Space),
                    _ => rest,
                };
                Some((pid as u32, name, command_line))
            },
            _ => None,
        }
    }
}

fn trim_start_chars(s: &[char]) -> (r: Vec<char>)
    ensures
        r@ == trim_start(s@, TrimSet::Space),
{
    let mut i: usize = 0;
    assert(s@.skip(0) =~= s@);
    while i < s.len() && char_is_space(s[i])
        invariant
            i <= s@.len(),
            trim_start(s@, TrimSet::Space) == trim_start(s@.skip(i as int), TrimSet::Space),
        decreases s@.len() - i,
    {
        assert(s@.skip(i as int).drop_first() =~= s@.skip(i + 1));
        i += 1;
    }
    let mut out: Vec<char> = Vec::new();
    let mut k: usize = i;
    while k < s.len()
        invariant
            i <= k <= s@.len(),
            out@ == s@.subrange(i as int, k as int),
        decreases s@.len() - k,
    {
        out.push(s[k]);
        assert(out@ =~= s@.subrange(i as int, k + 1));
        k += 1;
    }
    assert(out@ =~= s@.skip(i as int));
    out
}

/// Reads one line of `ps` output into a process description.
pub fn parse_ps_line(line: &str) -> (r: Option<ProcessSnapshot>)
    ensures
        match r {
            Some(p) => ps_line_of(line@) == Some((p.pid, p.name@, p.command_line@)) && strings_view(
                p.args@,
            ) == split_args(p.command_line@),
            None => ps_line_of(line@) is None,
        },
{
    let cs = chars_of(line);
    let t = trim_chars(cs.as_slice(), TrimSet::Space);
    if t.len() == 0 {
        return None;
    }
    let (pid_raw, rest_raw) = split_first_space(t.as_slice());
    let rest_raw = match rest_raw {
        Some(x) => x,
        None => {
            return None;
        },
    };
    let pid_text = trim_chars(pid_raw.as_slice(), TrimSet::Space);
    let pid = match parse_u64(pid_text.as_slice()) {
        Some(p) => if p <= 4294967295 {
            p as u32
        } else {
            return None;
        },
        None => {
            return None;
        },
    };
    let rest = trim_start_chars(rest_raw.as_slice());
    let (name, args_raw) = split_first_space(rest.as_slice());
    let command_line: Vec<char> = match args_raw {
        Some(a) => {
            let trimmed = trim_start_chars(a.as_slice());
            if trimmed.len() > 0 {
                trimmed
            } else {
                rest
            }
        },
        None => rest,
    };
    let command_text = string_from(command_line.as_slice());
    let args = split_command_line(command_text.as_str());
    Some(ProcessSnapshot { pid, name: string_from(name.as_slice()), command_line: command_text, args })
}

} // verus!
