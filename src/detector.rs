//! Detection of anime playback from a snapshot of the process table.

use vstd::prelude::*;
use crate::parser::{is_url, parse_anime_from_source, parsed_anime_of, source_arg_of, windows_path,
    normalize_source_arg, is_url_source, looks_like_windows_path};
use crate::player::{
    all_players, dedup_players, dedup_spec, split_args, split_command_line, strings_view,
    SupportedPlayer,
};
use crate::text::{chars_of, lower_seq, string_from, to_lower, trim, trim_chars, TrimSet};

verus! {

/// One process: its id, executable name, command line and arguments.
#[derive(Debug)]
pub struct ProcessSnapshot {
    pub pid: u32,
    pub name: String,
    pub command_line: String,
    pub args: Vec<String>,
}

/// An anime being played.
#[derive(Debug)]
pub struct AnimePlaybackDetection {
    pub player: SupportedPlayer,
    pub process_id: u32,
    pub source: String,
    pub anime_title: String,
    pub episode: Option<u32>,
}

impl AnimePlaybackDetection {
    pub fn duplicate(&self) -> (r: Self)
        ensures
            r == *self,
    {
        AnimePlaybackDetection {
            player: self.player,
            process_id: self.process_id,
            source: self.source.clone(),
            anime_title: self.anime_title.clone(),
            episode: self.episode,
        }
    }
}

/// Which players a one-shot detection looks for; all where none are named.
#[derive(Debug)]
pub struct DetectPlayingAnimeRequest {
    pub players: Option<Vec<SupportedPlayer>>,
}

/// A detection and the process it was read from.
#[derive(Debug)]
pub struct DetectionCandidate {
    pub process_id: u32,
    pub detection: AnimePlaybackDetection,
}

impl DetectionCandidate {
    pub fn duplicate(&self) -> (r: Self)
        ensures
            r == *self,
    {
        DetectionCandidate { process_id: self.process_id, detection: self.detection.duplicate() }
    }
}

/// The outcome of one poll: the candidates by process id, and the ids of
/// every process that belongs to a selected player.
#[derive(Debug)]
pub struct DetectionCycleResult {
    pub detections: Vec<DetectionCandidate>,
    pub matched_player_pids: Vec<u32>,
}

/// The players a request selects: its own, each once, or all of them.
pub open spec fn selected_players_of(request: Option<DetectPlayingAnimeRequest>) -> Seq<SupportedPlayer> {
    match request {
        Some(DetectPlayingAnimeRequest { players: Some(p) }) if p@.len() > 0 => dedup_spec(p@),
        _ => all_players(),
    }
}

pub fn resolve_selected_players(request: Option<DetectPlayingAnimeRequest>) -> (r: Vec<SupportedPlayer>)
    ensures
        r@ == selected_players_of(request),
{
    let ghost req = request;
    match request {
        Some(DetectPlayingAnimeRequest { players: Some(p) }) => {
            if p.len() > 0 {
                let unique = dedup_players(p);
                proof {
                    lemma_dedup_nonempty(req->0.players->0@);
                }
                unique
            } else {
                SupportedPlayer::all()
            }
        },
        _ => SupportedPlayer::all(),
    }
}

proof fn lemma_dedup_nonempty(s: Seq<SupportedPlayer>)
    requires
        s.len() > 0,
    ensures
        dedup_spec(s).len() > 0,
    decreases s.len(),
{
    if s.len() > 1 {
        lemma_dedup_nonempty(s.drop_last());
    }
}

/// Three points for an episode, two for a title of six characters or more,
/// one for three to five.
pub open spec fn score_of(episode: Option<u32>, title_len: nat) -> u8 {
    ((if episode is Some { 3int } else { 0int }) + (if title_len >= 6 {
        2int
    } else if title_len >= 3 {
        1int
    } else {
        0int
    })) as u8
}

pub fn score_detection(detection: &AnimePlaybackDetection) -> (r: u8)
    ensures
        r == score_of(detection.episode, detection.anime_title@.len()),
{
    let mut score: u8 = 0;
    if detection.episode.is_some() {
        score = 3;
    }
    let title_len = detection.anime_title.as_str().unicode_len();
    if title_len >= 6 {
        score += 2;
    } else if title_len >= 3 {
        score += 1;
    }
    score
}

/// The executable of a process: its first argument, else the first word of
/// its command line.
pub open spec fn executable_of(p: ProcessSnapshot) -> Seq<char> {
    if p.args@.len() > 0 {
        p.args@[0]@
    } else if split_args(p.command_line@).len() > 0 {
        split_args(p.command_line@)[0]
    } else {
        Seq::empty()
    }
}

/// The process runs player `pl`: by its name, its executable, or any argument.
pub open spec fn runs_player(pl: SupportedPlayer, p: ProcessSnapshot) -> bool {
    pl.matches_name(p.name@) || pl.matches_name(executable_of(p)) || exists|i: int|
        0 <= i < p.args@.len() && pl.matches_name(#[trigger] p.args@[i]@)
}

/// The first selected player that the process runs.
pub open spec fn player_of(selected: Seq<SupportedPlayer>, p: ProcessSnapshot) -> Option<
    SupportedPlayer,
>
    decreases selected.len(),
{
    if selected.len() == 0 {
        None
    } else if runs_player(selected[0], p) {
        Some(selected[0])
    } else {
        player_of(selected.drop_first(), p)
    }
}

fn any_arg_matches(pl: SupportedPlayer, args: &Vec<String>) -> (r: bool)
    ensures
        r == exists|i: int| 0 <= i < args@.len() && pl.matches_name(#[trigger] args@[i]@),
{
    for i in 0..args.len()
        invariant
            forall|j: int| 0 <= j < i ==> !pl.matches_name(#[trigger] args@[j]@),
    {
        if pl.matches_process_name(args[i].as_str()) {
            return true;
        }
    }
    false
}

pub fn match_process_to_player(process: &ProcessSnapshot, selected_players: &Vec<SupportedPlayer>) -> (r: Option<
    SupportedPlayer,
>)
    ensures
        r == player_of(selected_players@, *process),
{
    let executable: String = if process.args.len() > 0 {
        process.args[0].clone()
    } else {
        let words = split_command_line(process.command_line.as_str());
        if words.len() > 0 {
            words[0].clone()
        } else {
            String::new()
        }
    };
    let ghost s = selected_players@;
    assert(s.skip(0) =~= s);
    for i in 0..selected_players.len()
        invariant
            s == selected_players@,
            executable@ == executable_of(*process),
            player_of(s, *process) == player_of(s.skip(i as int), *process),
    {
        let pl = selected_players[i];
        assert(s.skip(i as int).drop_first() =~= s.skip(i + 1));
        assert(s.skip(i as int)[0] == pl);
        if pl.matches_process_name(process.name.as_str()) || pl.matches_process_name(
            executable.as_str(),
        ) || any_arg_matches(pl, &process.args) {
            return Some(pl);
        }
    }
    assert(s.skip(s.len() as int).len() == 0);
    None
}

/// An option of the player's command line rather than a source.
pub open spec fn player_option(pl: SupportedPlayer, value: Seq<char>) -> bool {
    let l = lower_seq(value);
    (l.len() > 0 && l[0] == '-') || (pl != SupportedPlayer::Mpv && l.len() > 0 && l[0] == '/'
        && !windows_path(value) && !is_url(value))
}

pub fn is_player_option(player: SupportedPlayer, value: &str) -> (r: bool)
    ensures
        r == player_option(player, value@),
{
    let cs = chars_of(value);
    let l = to_lower(cs.as_slice());
    if l.len() > 0 && l[0] == '-' {
        return true;
    }
    match player {
        SupportedPlayer::Mpv => false,
        _ => l.len() > 0 && l[0] == '/' && !looks_like_windows_path(value) && !is_url_source(value),
    }
}

/// The source that one argument names, if any.
pub open spec fn arg_source(pl: SupportedPlayer, arg: Seq<char>) -> Option<Seq<char>> {
    let v = trim(arg, TrimSet::Space);
    if v.len() == 0 || player_option(pl, v) {
        None
    } else {
        source_arg_of(v)
    }
}

/// The last argument that names a source.
pub open spec fn last_source(pl: SupportedPlayer, args: Seq<Seq<char>>) -> Option<Seq<char>>
    decreases args.len(),
{
    if args.len() == 0 {
        None
    } else {
        match arg_source(pl, args.last()) {
            Some(x) => Some(x),
            None => last_source(pl, args.drop_last()),
        }
    }
}

/// The media source of a player's process: the last argument, after the
/// executable, that names a URL or a video file.
pub open spec fn media_source_of(pl: SupportedPlayer, args: Seq<Seq<char>>, command_line: Seq<char>) -> Option<
    Seq<char>,
> {
    let a0 = if args.len() == 0 {
        split_args(command_line)
    } else {
        args
    };
    if a0.len() == 0 {
        None
    } else {
        let a1 = if pl.matches_name(a0[0]) {
            a0.drop_first()
        } else {
            a0
        };
        last_source(pl, a1)
    }
}

pub fn extract_media_source(player: SupportedPlayer, args: &Vec<String>, command_line: &str) -> (r: Option<
    String,
>)
    ensures
        crate::parser::opt_chars(r) == media_source_of(player, strings_view(args@), command_line@),
{
    let all: Vec<String> = if args.len() == 0 {
        split_command_line(command_line)
    } else {
        crate::token_manager::copy_strings(args)
    };
    if all.len() == 0 {
        return None;
    }
    let ghost a0 = strings_view(all@);
    let start: usize = if player.matches_process_name(all[0].as_str()) {
        1
    } else {
        0
    };
    let ghost a1 = a0.skip(start as int);
    assert(start == 1 ==> a1 =~= a0.drop_first());
    assert(start == 0 ==> a1 =~= a0);
    let mut candidate: Option<String> = None;
    let mut i: usize = start;
    assert(a1.take(0) =~= Seq::<Seq<char>>::empty());
    while i < all.len()
        invariant
            start <= i <= all@.len(),
            a0 == strings_view(all@),
            a1 == a0.skip(start as int),
            crate::parser::opt_chars(candidate) == last_source(player, a1.take(i - start)),
        decreases all@.len() - i,
    {
        let cs = chars_of(all[i].as_str());
        let v = trim_chars(cs.as_slice(), TrimSet::Space);
        assert(a1.take(i + 1 - start).drop_last() =~= a1.take(i - start));
        assert(a1.take(i + 1 - start).last() == all@[i as int]@);
        if v.len() > 0 {
            let value = string_from(v.as_slice());
            if !is_player_option(player, value.as_str()) {
                if let Some(source) = normalize_source_arg(value.as_str()) {
                    candidate = Some(source);
                }
            }
        }
        i += 1;
    }
    assert(a1.take(all@.len() - start) =~= a1);
    candidate
}


/// A candidate as values: process id, player, source, title, episode.
pub type CandidateView = (u32, SupportedPlayer, Seq<char>, Seq<char>, Option<u32>);

pub open spec fn candidate_view(c: DetectionCandidate) -> CandidateView {
    (c.process_id, c.detection.player, c.detection.source@, c.detection.anime_title@, c.detection.episode)
}

pub open spec fn candidates_view(s: Seq<DetectionCandidate>) -> Seq<CandidateView> {
    s.map_values(|c: DetectionCandidate| candidate_view(c))
}

/// A candidate is well formed when its detection names its own process.
pub open spec fn candidate_wf(c: DetectionCandidate) -> bool {
    c.detection.process_id == c.process_id
}

/// What one process contributes to a poll.
pub open spec fn process_candidate(p: ProcessSnapshot, selected: Seq<SupportedPlayer>) -> Option<
    CandidateView,
> {
    match player_of(selected, p) {
        None => None,
        Some(pl) => match media_source_of(pl, strings_view(p.args@), p.command_line@) {
            None => None,
            Some(src) => match parsed_anime_of(src) {
                None => None,
                Some((title, episode)) => Some((p.pid, pl, src, title, episode)),
            },
        },
    }
}

/// `x` placed after every entry whose process id is not larger.
pub open spec fn insert_by_pid(s: Seq<CandidateView>, x: CandidateView) -> Seq<CandidateView>
    decreases s.len(),
{
    if s.len() == 0 {
        seq![x]
    } else if s[0].0 > x.0 {
        seq![x] + s
    } else {
        seq![s[0]] + insert_by_pid(s.drop_first(), x)
    }
}

proof fn lemma_insert_at(s: Seq<CandidateView>, x: CandidateView, p: int)
    requires
        0 <= p <= s.len(),
        forall|j: int| 0 <= j < p ==> #[trigger] s[j].0 <= x.0,
        p < s.len() ==> s[p].0 > x.0,
    ensures
        insert_by_pid(s, x) == s.take(p) + seq![x] + s.skip(p),
    decreases s.len(),
{
    if s.len() == 0 {
        assert(s.take(p) + seq![x] + s.skip(p) =~= seq![x]);
    } else if p == 0 {
        assert(s.take(0) + seq![x] + s.skip(0) =~= seq![x] + s);
    } else {
        let t = s.drop_first();
        assert forall|j: int| 0 <= j < p - 1 implies #[trigger] t[j].0 <= x.0 by {
            assert(t[j] == s[j + 1]);
        }
        lemma_insert_at(t, x, p - 1);
        assert(seq![s[0]] + (t.take(p - 1) + seq![x] + t.skip(p - 1)) =~= s.take(p) + seq![x]
            + s.skip(p));
    }
}

/// The candidates of a poll, ordered by process id; equal ids keep the
/// order of the process table.
pub open spec fn cycle_candidates(procs: Seq<ProcessSnapshot>, selected: Seq<SupportedPlayer>) -> Seq<
    CandidateView,
>
    decreases procs.len(),
{
    if procs.len() == 0 {
        Seq::empty()
    } else {
        let c = cycle_candidates(procs.drop_last(), selected);
        match process_candidate(procs.last(), selected) {
            Some(x) => insert_by_pid(c, x),
            None => c,
        }
    }
}

/// The ids of the processes that run a selected player, in table order.
pub open spec fn matched_pids(procs: Seq<ProcessSnapshot>, selected: Seq<SupportedPlayer>) -> Seq<u32>
    decreases procs.len(),
{
    if procs.len() == 0 {
        Seq::empty()
    } else {
        let m = matched_pids(procs.drop_last(), selected);
        if player_of(selected, procs.last()) is Some {
            m.push(procs.last().pid)
        } else {
            m
        }
    }
}

fn insert_candidate(v: &mut Vec<DetectionCandidate>, c: DetectionCandidate)
    ensures
        candidates_view(final(v)@) == insert_by_pid(candidates_view(old(v)@), candidate_view(c)),
        (forall|i: int| 0 <= i < old(v)@.len() ==> candidate_wf(#[trigger] old(v)@[i])) && candidate_wf(c)
            ==> forall|i: int| 0 <= i < final(v)@.len() ==> candidate_wf(#[trigger] final(v)@[i]),
{
    let ghost s = candidates_view(v@);
    let mut p: usize = 0;
    while p < v.len() && v[p].process_id <= c.process_id
        invariant
            p <= v@.len(),
            s == candidates_view(v@),
            forall|j: int| 0 <= j < p ==> #[trigger] s[j].0 <= c.process_id,
        decreases v@.len() - p,
    {
        p += 1;
    }
    proof {
        lemma_insert_at(s, candidate_view(c), p as int);
    }
    let ghost old_v = v@;
    v.insert(p, c);
    assert(candidates_view(v@) =~= s.take(p as int) + seq![candidate_view(c)] + s.skip(p as int));
    assert forall|i: int| 0 <= i < v@.len() && (forall|k: int| 0 <= k < old_v.len() ==> candidate_wf(#[trigger] old_v[k])) && candidate_wf(c)
        implies candidate_wf(#[trigger] v@[i]) by {
        if i < p {
            assert(v@[i] == old_v[i]);
        } else if i > p {
            assert(v@[i] == old_v[i - 1]);
        }
    }
}

/// One poll over a snapshot of the process table.
pub fn collect_detection_cycle_result(
    selected_players: &Vec<SupportedPlayer>,
    processes: Vec<ProcessSnapshot>,
) -> (r: DetectionCycleResult)
    ensures
        candidates_view(r.detections@) == cycle_candidates(processes@, selected_players@),
        r.matched_player_pids@ == matched_pids(processes@, selected_players@),
        forall|i: int| 0 <= i < r.detections@.len() ==> candidate_wf(#[trigger] r.detections@[i]),
{
    let mut detections: Vec<DetectionCandidate> = Vec::new();
    let mut pids: Vec<u32> = Vec::new();
    let ghost procs = processes@;
    for i in 0..processes.len()
        invariant
            procs == processes@,
            candidates_view(detections@) == cycle_candidates(procs.take(i as int), selected_players@),
            pids@ == matched_pids(procs.take(i as int), selected_players@),
            forall|k: int| 0 <= k < detections@.len() ==> candidate_wf(#[trigger] detections@[k]),
    {
        let process = &processes[i];
        assert(procs.take(i + 1).drop_last() =~= procs.take(i as int));
        assert(procs.take(i + 1).last() == *process);
        if let Some(player) = match_process_to_player(process, selected_players) {
            pids.push(process.pid);
            if let Some(source) = extract_media_source(player, &process.args, process.command_line.as_str()) {
                if let Some(parsed) = parse_anime_from_source(source.as_str()) {
                    let candidate = DetectionCandidate {
                        process_id: process.pid,
                        detection: AnimePlaybackDetection {
                            player,
                            process_id: process.pid,
                            source,
                            anime_title: parsed.anime_title,
                            episode: parsed.episode,
                        },
                    };
                    insert_candidate(&mut detections, candidate);
                }
            }
        }
    }
    assert(procs.take(procs.len() as int) =~= procs);
    DetectionCycleResult { detections, matched_player_pids: pids }
}

/// `c` takes the place of the best so far: a higher score, or the same
/// score and a larger process id.
pub open spec fn replaces(best: CandidateView, c: CandidateView) -> bool {
    let sc = score_of(c.4, c.3.len());
    let sb = score_of(best.4, best.3.len());
    !(sc < sb || (sc == sb && c.0 <= best.0))
}

/// The best candidate of a poll.
pub open spec fn best_of(s: Seq<CandidateView>) -> Option<CandidateView>
    decreases s.len(),
{
    if s.len() == 0 {
        None
    } else {
        match best_of(s.drop_last()) {
            None => Some(s.last()),
            Some(b) => if replaces(b, s.last()) {
                Some(s.last())
            } else {
                Some(b)
            },
        }
    }
}

/// Picks the best candidate of a poll.
pub fn select_best_detection(candidates: Vec<DetectionCandidate>) -> (r: Option<AnimePlaybackDetection>)
    ensures
        match r {
            Some(d) => exists|i: int|
                0 <= i < candidates@.len() && best_of(candidates_view(candidates@)) == Some(
                    candidate_view(#[trigger] candidates@[i]),
                ) && d == candidates@[i].detection,
            None => best_of(candidates_view(candidates@)) is None,
        },
{
    let ghost all = candidates_view(candidates@);
    let mut best: Option<(u8, u32, usize)> = None;
    for i in 0..candidates.len()
        invariant
            all == candidates_view(candidates@),
            match best {
                None => best_of(all.take(i as int)) is None,
                Some((sc, pid, idx)) => idx < i && best_of(all.take(i as int)) == Some(all[idx as int])
                    && sc == score_of(all[idx as int].4, all[idx as int].3.len()) && pid == all[idx as int].0,
            },
    {
        let c = &candidates[i];
        let score = score_detection(&c.detection);
        assert(all.take(i + 1).drop_last() =~= all.take(i as int));
        assert(all.take(i + 1).last() == all[i as int]);
        let keep = match best {
            Some((best_score, best_pid, _)) => score < best_score || (score == best_score
                && c.process_id <= best_pid),
            None => false,
        };
        if !keep {
            best = Some((score, c.process_id, i));
        }
    }
    assert(all.take(all.len() as int) =~= all);
    match best {
        Some((_, _, idx)) => {
            let d = candidates[idx].detection.duplicate();
            assert(all[idx as int] == candidate_view(candidates@[idx as int]));
            Some(d)
        },
        None => None,
    }
}

/// The anime being played, read from a snapshot of the process table.
pub fn detect_playing_anime(
    request: Option<DetectPlayingAnimeRequest>,
    processes: Vec<ProcessSnapshot>,
) -> (r: Option<AnimePlaybackDetection>)
    ensures
        match r {
            Some(d) => best_of(cycle_candidates(processes@, selected_players_of(request))) == Some(
                (d.process_id, d.player, d.source@, d.anime_title@, d.episode),
            ),
            None => best_of(cycle_candidates(processes@, selected_players_of(request))) is None,
        },
{
    let selected = resolve_selected_players(request);
    let cycle = collect_detection_cycle_result(&selected, processes);
    let ghost dets = cycle.detections@;
    let r = select_best_detection(cycle.detections);
    proof {
        if r is Some {
            let d = r->0;
            let i = choose|i: int|
                0 <= i < dets.len() && best_of(candidates_view(dets)) == Some(
                    candidate_view(#[trigger] dets[i]),
                ) && d == dets[i].detection;
            assert(candidate_wf(dets[i]));
        }
    }
    r
}

} // verus!
