//! The playback observer's state and its transitions: configuration, and
//! the outcome of each poll.

use vstd::prelude::*;
use crate::detector::{AnimePlaybackDetection, DetectionCandidate, DetectionCycleResult};
use crate::player::{
    clamp_interval, dedup_players, dedup_spec, normalize_poll_interval_ms, SupportedPlayer,
    DEFAULT_OBSERVER_POLL_INTERVAL_MS, MAX_OBSERVER_POLL_INTERVAL_MS, MIN_OBSERVER_POLL_INTERVAL_MS,
};

verus! {

/// What the observer shows.
#[derive(Debug)]
pub struct PlaybackObserverSnapshot {
    pub active: Option<AnimePlaybackDetection>,
    pub last_observed: Option<AnimePlaybackDetection>,
    pub observed_process_id: Option<u32>,
    pub observed_player: Option<SupportedPlayer>,
    pub selected_players: Vec<SupportedPlayer>,
    pub enabled: bool,
    pub poll_interval_ms: u64,
    pub last_error: Option<String>,
}

/// A change of the observer's configuration; absent fields stay as they are.
#[derive(Debug)]
pub struct ConfigurePlaybackObserverRequest {
    pub enabled: Option<bool>,
    pub players: Option<Vec<SupportedPlayer>>,
    pub poll_interval_ms: Option<u64>,
}

/// The configuration a poll ran under.
#[derive(Debug)]
pub struct ObserverRuntimeConfig {
    pub enabled: bool,
    pub selected_players: Vec<SupportedPlayer>,
    pub poll_interval_ms: u64,
    pub observed_process_id: Option<u32>,
}

/// The observer's state.
#[derive(Debug)]
pub struct PlaybackObserverState {
    pub active: Option<AnimePlaybackDetection>,
    pub last_observed: Option<AnimePlaybackDetection>,
    pub observed_process_id: Option<u32>,
    pub observed_player: Option<SupportedPlayer>,
    pub selected_players: Vec<SupportedPlayer>,
    pub enabled: bool,
    pub poll_interval_ms: u64,
    pub last_error: Option<String>,
}

fn copy_detection(d: &Option<AnimePlaybackDetection>) -> (r: Option<AnimePlaybackDetection>)
    ensures
        r == *d,
{
    match d {
        Some(x) => Some(x.duplicate()),
        None => None,
    }
}

fn copy_players(v: &Vec<SupportedPlayer>) -> (r: Vec<SupportedPlayer>)
    ensures
        r@ == v@,
{
    let mut out: Vec<SupportedPlayer> = Vec::new();
    for i in 0..v.len()
        invariant
            out@ == v@.take(i as int),
    {
        out.push(v[i]);
        assert(out@ =~= v@.take(i + 1));
    }
    assert(out@ =~= v@);
    out
}

fn same_players(a: &Vec<SupportedPlayer>, b: &Vec<SupportedPlayer>) -> (r: bool)
    ensures
        r == (a@ == b@),
{
    if a.len() != b.len() {
        return false;
    }
    for i in 0..a.len()
        invariant
            a@.len() == b@.len(),
            forall|j: int| 0 <= j < i ==> a@[j] == b@[j],
    {
        if a[i] != b[i] {
            return false;
        }
    }
    assert(a@ =~= b@);
    true
}

/// Index of the first candidate of process `pid`.
pub open spec fn candidate_index(dets: Seq<DetectionCandidate>, pid: u32) -> Option<int>
    decreases dets.len(),
{
    if dets.len() == 0 {
        None
    } else if dets[0].process_id == pid {
        Some(0)
    } else {
        match candidate_index(dets.drop_first(), pid) {
            Some(k) => Some(k + 1),
            None => None,
        }
    }
}

/// The observer fields after a successful poll: (active, last observed,
/// observed process, observed player). The process observed when the poll
/// started is followed while it runs; once it is gone its detection moves
/// to `last_observed`; so it does when it still runs but yields no
/// candidate. With nothing observed, the candidate of lowest
/// process id is taken up.
pub open spec fn after_poll(
    s: PlaybackObserverState,
    observed: Option<u32>,
    cycle: DetectionCycleResult,
) -> (Option<AnimePlaybackDetection>, Option<AnimePlaybackDetection>, Option<u32>, Option<SupportedPlayer>) {
    let dets = cycle.detections@;
    let first = match observed {
        None => (s.active, s.last_observed, s.observed_process_id, s.observed_player),
        Some(pid) => if cycle.matched_player_pids@.contains(pid) && candidate_index(dets, pid) is Some {
            let k = candidate_index(dets, pid)->0;
            (Some(dets[k].detection), s.last_observed, Some(dets[k].process_id), Some(dets[k].detection.player))
        } else {
            (None, if s.active is Some { s.active } else { s.last_observed }, None, None)
        },
    };
    if first.2 is None {
        if dets.len() > 0 {
            (Some(dets[0].detection), first.1, Some(dets[0].process_id), Some(dets[0].detection.player))
        } else {
            (None, first.1, None, None)
        }
    } else {
        first
    }
}

/// How a successful poll run under `cfg` takes the observer from `s` to `t`.
pub open spec fn applies_poll(
    s: PlaybackObserverState,
    cfg: ObserverRuntimeConfig,
    cycle: DetectionCycleResult,
    t: PlaybackObserverState,
) -> bool {
    if !cfg.enabled || !s.enabled {
        t == s
    } else {
        let moved = after_poll(s, cfg.observed_process_id, cycle);
        &&& t.last_error is None
        &&& t.selected_players == s.selected_players
        &&& t.enabled == s.enabled
        &&& t.poll_interval_ms == s.poll_interval_ms
        &&& if s.selected_players@ != cfg.selected_players@ {
            t.active == s.active && t.last_observed == s.last_observed && t.observed_process_id
                == s.observed_process_id && t.observed_player == s.observed_player
        } else {
            (t.active, t.last_observed, t.observed_process_id, t.observed_player) == moved
        }
    }
}

impl PlaybackObserverState {
    /// The poll interval lies within its bounds.
    pub open spec fn wf(&self) -> bool {
        MIN_OBSERVER_POLL_INTERVAL_MS <= self.poll_interval_ms <= MAX_OBSERVER_POLL_INTERVAL_MS
    }

    pub fn new(enabled: bool, selected_players: Vec<SupportedPlayer>) -> (r: Self)
        ensures
            r.wf(),
            r.enabled == enabled,
            r.selected_players@ == dedup_spec(selected_players@),
            r.poll_interval_ms == DEFAULT_OBSERVER_POLL_INTERVAL_MS,
            r.active is None,
            r.last_observed is None,
            r.observed_process_id is None,
            r.observed_player is None,
            r.last_error is None,
    {
        PlaybackObserverState {
            active: None,
            last_observed: None,
            observed_process_id: None,
            observed_player: None,
            selected_players: dedup_players(selected_players),
            enabled,
            poll_interval_ms: DEFAULT_OBSERVER_POLL_INTERVAL_MS,
            last_error: None,
        }
    }

    pub open spec fn shows(&self, snap: PlaybackObserverSnapshot) -> bool {
        &&& snap.active == self.active
        &&& snap.last_observed == self.last_observed
        &&& snap.observed_process_id == self.observed_process_id
        &&& snap.observed_player == self.observed_player
        &&& snap.selected_players@ == self.selected_players@
        &&& snap.enabled == self.enabled
        &&& snap.poll_interval_ms == self.poll_interval_ms
        &&& snap.last_error == self.last_error
    }

    pub fn snapshot(&self) -> (r: PlaybackObserverSnapshot)
        ensures
            self.shows(r),
    {
        PlaybackObserverSnapshot {
            active: copy_detection(&self.active),
            last_observed: copy_detection(&self.last_observed),
            observed_process_id: self.observed_process_id,
            observed_player: self.observed_player,
            selected_players: copy_players(&self.selected_players),
            enabled: self.enabled,
            poll_interval_ms: self.poll_interval_ms,
            last_error: match &self.last_error {
                Some(e) => Some(e.clone()),
                None => None,
            },
        }
    }

    pub fn read_runtime_config(&self) -> (r: ObserverRuntimeConfig)
        ensures
            r.enabled == self.enabled,
            r.selected_players@ == self.selected_players@,
            r.poll_interval_ms == self.poll_interval_ms,
            r.observed_process_id == self.observed_process_id,
    {
        ObserverRuntimeConfig {
            enabled: self.enabled,
            selected_players: copy_players(&self.selected_players),
            poll_interval_ms: self.poll_interval_ms,
            observed_process_id: self.observed_process_id,
        }
    }

    /// Applies a configuration change. Disabling clears the active
    /// detection (moving it to `last_observed`) and the last error.
    pub fn configure(&mut self, request: ConfigurePlaybackObserverRequest) -> (r: PlaybackObserverSnapshot)
        requires
            old(self).wf(),
        ensures
            final(self).wf(),
            MIN_OBSERVER_POLL_INTERVAL_MS <= final(self).poll_interval_ms
                <= MAX_OBSERVER_POLL_INTERVAL_MS,
            final(self).shows(r),
            final(self).enabled == (match request.enabled {
                Some(e) => e,
                None => old(self).enabled,
            }),
            final(self).selected_players@ == (match request.players {
                Some(p) => dedup_spec(p@),
                None => old(self).selected_players@,
            }),
            final(self).poll_interval_ms == (match request.poll_interval_ms {
                Some(v) => clamp_interval(v),
                None => old(self).poll_interval_ms,
            }),
            final(self).enabled ==> final(self).active == old(self).active && final(self).last_observed
                == old(self).last_observed && final(self).observed_process_id == old(
                self).observed_process_id && final(self).observed_player == old(self).observed_player
                && final(self).last_error == old(self).last_error,
            !final(self).enabled ==> final(self).active is None && final(self).last_observed == (
            if old(self).active is Some {
                old(self).active
            } else {
                old(self).last_observed
            }) && final(self).observed_process_id is None && final(self).observed_player is None
                && final(self).last_error is None,
    {
        if let Some(enabled) = request.enabled {
            self.enabled = enabled;
        }
        if let Some(players) = request.players {
            self.selected_players = dedup_players(players);
        }
        if let Some(v) = request.poll_interval_ms {
            self.poll_interval_ms = normalize_poll_interval_ms(v);
        }
        if !self.enabled {
            if self.active.is_some() {
                self.last_observed = copy_detection(&self.active);
            }
            self.active = None;
            self.observed_process_id = None;
            self.observed_player = None;
            self.last_error = None;
        }
        self.snapshot()
    }

    /// Records the error of a failed poll while the observer is enabled.
    pub fn apply_cycle_error(&mut self, error: String)
        ensures
            *final(self) == (if old(self).enabled {
                PlaybackObserverState { last_error: Some(error), ..*old(self) }
            } else {
                *old(self)
            }),
    {
        if self.enabled {
            self.last_error = Some(error);
        }
    }

    /// Moves the active detection to `last_observed` and forgets the
    /// observed process.
    fn release_observed(&mut self)
        ensures
            *final(self) == (PlaybackObserverState {
                active: None,
                last_observed: if old(self).active is Some {
                    old(self).active
                } else {
                    old(self).last_observed
                },
                observed_process_id: None,
                observed_player: None,
                ..*old(self)
            }),
    {
        if self.active.is_some() {
            self.last_observed = copy_detection(&self.active);
        }
        self.active = None;
        self.observed_process_id = None;
        self.observed_player = None;
    }

    /// Applies the outcome of a poll run under `runtime_config`.
    pub fn apply_cycle_success(&mut self, runtime_config: &ObserverRuntimeConfig, cycle: DetectionCycleResult)
        requires
            old(self).wf(),
        ensures
            final(self).wf(),
            applies_poll(*old(self), *runtime_config, cycle, *final(self)),
    {
        if !runtime_config.enabled || !self.enabled {
            return;
        }
        self.last_error = None;
        if !same_players(&self.selected_players, &runtime_config.selected_players) {
            return;
        }
        let dets = &cycle.detections;
        if let Some(observed) = runtime_config.observed_process_id {
            let mut running = false;
            for i in 0..cycle.matched_player_pids.len()
                invariant
                    running == exists|j: int| 0 <= j < i && cycle.matched_player_pids@[j] == observed,
            {
                if cycle.matched_player_pids[i] == observed {
                    running = true;
                }
            }
            if running {
                let mut found: Option<usize> = None;
                let mut i: usize = 0;
                assert(dets@.skip(0) =~= dets@);
                while i < dets.len() && found.is_none()
                    invariant
                        i <= dets@.len(),
                        found matches Some(k) ==> k < dets@.len() && candidate_index(dets@, observed)
                            == Some(k as int),
                        found is None ==> candidate_index(dets@, observed) == match candidate_index(
                            dets@.skip(i as int),
                            observed,
                        ) {
                            Some(k) => Some(k + i),
                            None => None,
                        },
                    decreases dets@.len() - i + (if found is None { 1int } else { 0int }),
                {
                    assert(dets@.skip(i as int).drop_first() =~= dets@.skip(i + 1));
                    if dets[i].process_id == observed {
                        found = Some(i);
                    } else {
                        i += 1;
                    }
                }
                if let Some(k) = found {
                    self.active = Some(dets[k].detection.duplicate());
                    self.observed_process_id = Some(dets[k].process_id);
                    self.observed_player = Some(dets[k].detection.player);
                } else {
                    self.release_observed();
                }
            } else {
                self.release_observed();
            }
        }
        if self.observed_process_id.is_none() {
            if dets.len() > 0 {
                self.active = Some(dets[0].detection.duplicate());
                self.observed_process_id = Some(dets[0].process_id);
                self.observed_player = Some(dets[0].detection.player);
            } else {
                self.active = None;
                self.observed_player = None;
            }
        }
    }
}


proof fn lemma_candidate_index(dets: Seq<DetectionCandidate>, pid: u32)
    ensures
        candidate_index(dets, pid) matches Some(k) ==> 0 <= k < dets.len() && dets[k].process_id
            == pid,
    decreases dets.len(),
{
    if dets.len() > 0 && dets[0].process_id != pid {
        lemma_candidate_index(dets.drop_first(), pid);
    }
}

/// Stickiness of the observer over one poll, under an unchanged selection:
/// the observed process is followed while it runs and has a candidate,
/// whatever other candidates there are; once it is gone, or yields no
/// candidate, its detection moves to `last_observed`, and with no candidate left nothing is active;
/// with nothing observed, the candidate of lowest process id is taken up.
pub proof fn observer_stickiness(
    s: PlaybackObserverState,
    cfg: ObserverRuntimeConfig,
    cycle: DetectionCycleResult,
    t: PlaybackObserverState,
    pid: u32,
)
    requires
        applies_poll(s, cfg, cycle, t),
        cfg.enabled,
        s.enabled,
        s.selected_players@ == cfg.selected_players@,
    ensures
        cfg.observed_process_id == Some(pid) && cycle.matched_player_pids@.contains(pid)
            && candidate_index(cycle.detections@, pid) is Some ==> t.observed_process_id == Some(pid)
            && t.active == Some(
            cycle.detections@[candidate_index(cycle.detections@, pid)->0].detection,
        ),
        cfg.observed_process_id == Some(pid) && !(cycle.matched_player_pids@.contains(pid)
            && candidate_index(cycle.detections@, pid) is Some) ==> t.last_observed == (if s.active is Some {
            s.active
        } else {
            s.last_observed
        }) && (cycle.detections@.len() == 0 ==> t.active is None && t.observed_process_id is None),
        cfg.observed_process_id is None && s.observed_process_id is None
            && cycle.detections@.len() > 0 ==> t.active == Some(cycle.detections@[0].detection)
            && t.observed_process_id == Some(cycle.detections@[0].process_id),
{
    lemma_candidate_index(cycle.detections@, pid);
}

} // verus!
