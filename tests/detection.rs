use kioku::detector::{
    collect_detection_cycle_result, detect_playing_anime, extract_media_source, is_player_option,
    match_process_to_player, resolve_selected_players, score_detection, select_best_detection,
    AnimePlaybackDetection, DetectPlayingAnimeRequest, ProcessSnapshot,
};
use kioku::observer::{ConfigurePlaybackObserverRequest, PlaybackObserverState};
use kioku::player::{dedup_players, normalize_poll_interval_ms, normalize_process_name, split_command_line, SupportedPlayer};
use kioku::processes::{parse_linux_cmdline, parse_ps_line};
use kioku::player::SupportedPlayer::{MpcBe, MpcHc, Mpv};

fn process(pid: u32, name: &str, command_line: &str) -> ProcessSnapshot {
    ProcessSnapshot {
        pid,
        name: name.to_string(),
        command_line: command_line.to_string(),
        args: split_command_line(command_line),
    }
}

#[test]
fn command_lines_split_on_quotes() {
    assert_eq!(
        split_command_line("mpv --fs \"/v/My Show - 01.mkv\" 'a b'  c"),
        vec!["mpv", "--fs", "/v/My Show - 01.mkv", "a b", "c"]
    );
    assert!(split_command_line("   ").is_empty());
    assert_eq!(split_command_line("a\"\"b"), vec!["ab"]);
}

#[test]
fn process_names_are_normalised() {
    let n: String = normalize_process_name("\"C:\\Program Files\\MPV.EXE\"").into_iter().collect();
    assert_eq!(n, "mpv.exe");
    assert!(SupportedPlayer::Mpv.matches_process_name("/usr/bin/mpv"));
    assert!(SupportedPlayer::Mpv.matches_process_name("io.mpv.mpv"));
    assert!(SupportedPlayer::MpcHc.matches_process_name("MPC-HC64.exe"));
    assert!(!SupportedPlayer::MpcBe.matches_process_name("mpc-hc"));
    assert_eq!(SupportedPlayer::all(), vec![SupportedPlayer::Mpv, SupportedPlayer::MpcHc, SupportedPlayer::MpcBe]);
    assert_eq!(SupportedPlayer::MpcBe.process_aliases().len(), 4);
}

#[test]
fn players_dedup_and_interval_clamp() {
    assert_eq!(dedup_players(vec![MpcBe, Mpv, MpcBe, Mpv, MpcHc]), vec![MpcBe, Mpv, MpcHc]);
    assert_eq!(normalize_poll_interval_ms(0), 500);
    assert_eq!(normalize_poll_interval_ms(499), 500);
    assert_eq!(normalize_poll_interval_ms(2000), 2000);
    assert_eq!(normalize_poll_interval_ms(60_001), 60_000);
    assert_eq!(normalize_poll_interval_ms(u64::MAX), 60_000);
}

#[test]
fn selected_players_from_request() {
    assert_eq!(resolve_selected_players(None), vec![Mpv, MpcHc, MpcBe]);
    let empty = DetectPlayingAnimeRequest { players: Some(vec![]) };
    assert_eq!(resolve_selected_players(Some(empty)), vec![Mpv, MpcHc, MpcBe]);
    let some = DetectPlayingAnimeRequest { players: Some(vec![MpcHc, MpcHc]) };
    assert_eq!(resolve_selected_players(Some(some)), vec![MpcHc]);
}

#[test]
fn media_source_is_the_last_video_argument() {
    let args: Vec<String> = split_command_line("mpv --start=10 /v/a.mkv /v/notes.txt /v/b.mp4");
    assert_eq!(extract_media_source(SupportedPlayer::Mpv, &args, ""), Some("/v/b.mp4".to_string()));
    assert_eq!(
        extract_media_source(SupportedPlayer::MpcHc, &Vec::new(), "mpc-hc.exe /play C:\\v\\c.mkv"),
        Some("C:\\v\\c.mkv".to_string())
    );
    assert_eq!(extract_media_source(SupportedPlayer::Mpv, &Vec::new(), ""), None);
    assert!(is_player_option(SupportedPlayer::Mpv, "--"));
    assert!(is_player_option(SupportedPlayer::MpcBe, "/fullscreen"));
    assert!(!is_player_option(SupportedPlayer::Mpv, "/fullscreen"));
    assert!(!is_player_option(SupportedPlayer::MpcBe, "C:/v/a.mkv"));
}

#[test]
fn processes_match_players() {
    let p = process(10, "bash", "/usr/bin/mpv /v/x.mkv");
    assert_eq!(match_process_to_player(&p, &vec![SupportedPlayer::MpcHc, SupportedPlayer::Mpv]), Some(SupportedPlayer::Mpv));
    assert_eq!(match_process_to_player(&p, &vec![SupportedPlayer::MpcHc]), None);
}

fn detection(title: &str, episode: Option<u32>) -> AnimePlaybackDetection {
    AnimePlaybackDetection {
        player: SupportedPlayer::Mpv,
        process_id: 1,
        source: String::new(),
        anime_title: title.to_string(),
        episode,
    }
}

#[test]
fn detection_scores() {
    assert_eq!(score_detection(&detection("Frieren", Some(1))), 5);
    assert_eq!(score_detection(&detection("Mob", None)), 1);
    assert_eq!(score_detection(&detection("No", Some(2))), 3);
    assert_eq!(score_detection(&detection("進撃の巨人です", None)), 2);
}

#[test]
fn cycle_sorts_by_pid_and_best_prefers_newest() {
    let processes = vec![
        process(30, "mpv", "mpv \"/v/Frieren - 03.mkv\""),
        process(5, "bash", "bash"),
        process(20, "mpv", "mpv '/v/Frieren - 02.mkv'"),
        process(25, "mpv", "mpv --idle"),
    ];
    let cycle = collect_detection_cycle_result(&SupportedPlayer::all(), processes);
    let pids: Vec<u32> = cycle.detections.iter().map(|c| c.process_id).collect();
    assert_eq!(pids, vec![20, 30]);
    assert_eq!(cycle.matched_player_pids, vec![30, 20, 25]);
    assert_eq!(cycle.detections[1].detection.source, "/v/Frieren - 03.mkv");
    let best = select_best_detection(cycle.detections).expect("a detection");
    assert_eq!(best.process_id, 30);
    assert_eq!(best.episode, Some(3));
}

#[test]
fn one_shot_detection() {
    let processes = vec![
        process(40, "mpv", "mpv /v/Show.mkv"),
        process(41, "mpc-hc64.exe", "mpc-hc64.exe \"D:\\v\\Longer Title - 04.mkv\""),
    ];
    let d = detect_playing_anime(None, processes).expect("a detection");
    assert_eq!(d.process_id, 41);
    assert_eq!(d.player, SupportedPlayer::MpcHc);
    assert_eq!(d.anime_title, "Longer Title");
    assert!(detect_playing_anime(None, vec![]).is_none());
}

fn cycle_for(processes: Vec<ProcessSnapshot>) -> kioku::detector::DetectionCycleResult {
    collect_detection_cycle_result(&SupportedPlayer::all(), processes)
}

#[test]
fn observer_sticks_to_its_process() {
    let mut state = PlaybackObserverState::new(true, SupportedPlayer::all());
    // Poll 1: P = 50 appears and is taken up.
    let cfg = state.read_runtime_config();
    state.apply_cycle_success(&cfg, cycle_for(vec![process(50, "mpv", "mpv '/v/Show - 01.mkv'")]));
    assert_eq!(state.observed_process_id, Some(50));
    assert_eq!(state.active.as_ref().map(|d| d.episode), Some(Some(1)));
    // Poll 2: a lower pid appears, P changes file; P is kept and updated.
    let cfg = state.read_runtime_config();
    state.apply_cycle_success(
        &cfg,
        cycle_for(vec![
            process(50, "mpv", "mpv '/v/Show - 02.mkv'"),
            process(10, "mpv", "mpv '/v/Other - 05.mkv'"),
        ]),
    );
    assert_eq!(state.observed_process_id, Some(50));
    assert_eq!(state.active.as_ref().map(|d| d.episode), Some(Some(2)));
    // Poll 3: P is gone and nothing else plays.
    let cfg = state.read_runtime_config();
    state.apply_cycle_success(&cfg, cycle_for(vec![]));
    assert!(state.active.is_none());
    assert_eq!(state.observed_process_id, None);
    assert_eq!(state.last_observed.as_ref().map(|d| d.episode), Some(Some(2)));
}

#[test]
fn observer_configuration() {
    let mut state = PlaybackObserverState::new(true, vec![]);
    assert_eq!(state.poll_interval_ms, 2000);
    let snap = state.configure(ConfigurePlaybackObserverRequest { enabled: None, players: None, poll_interval_ms: Some(10) });
    assert_eq!(snap.poll_interval_ms, 500);
    let snap = state.configure(ConfigurePlaybackObserverRequest { enabled: None, players: None, poll_interval_ms: Some(1_000_000) });
    assert_eq!(snap.poll_interval_ms, 60_000);
    let cfg = state.read_runtime_config();
    state.configure(ConfigurePlaybackObserverRequest {
        enabled: None,
        players: Some(vec![SupportedPlayer::Mpv, SupportedPlayer::Mpv]),
        poll_interval_ms: None,
    });
    assert_eq!(state.selected_players, vec![SupportedPlayer::Mpv]);
    // A poll that ran under the old selection changes nothing but the error.
    state.apply_cycle_error("boom".to_string());
    assert_eq!(state.last_error.as_deref(), Some("boom"));
    state.apply_cycle_success(&cfg, cycle_for(vec![process(7, "mpv", "mpv '/v/A - 01.mkv'")]));
    assert!(state.active.is_none());
    assert!(state.last_error.is_none());
    let cfg = state.read_runtime_config();
    state.apply_cycle_success(&cfg, cycle_for(vec![process(7, "mpv", "mpv '/v/A - 01.mkv'")]));
    assert!(state.active.is_some());
    let snap = state.configure(ConfigurePlaybackObserverRequest { enabled: Some(false), players: None, poll_interval_ms: None });
    assert!(!snap.enabled);
    assert!(snap.active.is_none());
    assert_eq!(snap.last_observed.map(|d| d.process_id), Some(7));
    state.apply_cycle_error("ignored".to_string());
    assert!(state.last_error.is_none());
}

#[test]
fn linux_cmdline_and_ps_lines() {
    assert_eq!(parse_linux_cmdline(b"mpv\0--fs\0\0/v/a b.mkv\0"), vec!["mpv", "--fs", "/v/a b.mkv"]);
    assert!(parse_linux_cmdline(b"").is_empty());
    let p = parse_ps_line("  123 mpv   mpv --fs '/v/x y.mkv'").expect("a process");
    assert_eq!(p.pid, 123);
    assert_eq!(p.name, "mpv");
    assert_eq!(p.command_line, "mpv --fs '/v/x y.mkv'");
    assert_eq!(p.args, vec!["mpv", "--fs", "/v/x y.mkv"]);
    let q = parse_ps_line("7 launchd").expect("a process");
    assert_eq!(q.command_line, "launchd");
    assert!(parse_ps_line("abc mpv").is_none());
    assert!(parse_ps_line("   ").is_none());
    assert!(parse_ps_line("42").is_none());
}

#[test]
fn observer_releases_a_player_without_candidate() {
    let mut state = PlaybackObserverState::new(true, SupportedPlayer::all());
    let cfg = state.read_runtime_config();
    state.apply_cycle_success(&cfg, cycle_for(vec![process(50, "mpv", "mpv '/v/Show - 01.mkv'")]));
    assert_eq!(state.observed_process_id, Some(50));
    // P still runs but plays nothing that parses; another process plays.
    let cfg = state.read_runtime_config();
    state.apply_cycle_success(
        &cfg,
        cycle_for(vec![process(50, "mpv", "mpv --idle"), process(60, "mpv", "mpv '/v/Other - 02.mkv'")]),
    );
    assert_eq!(state.last_observed.as_ref().map(|d| d.process_id), Some(50));
    assert_eq!(state.observed_process_id, Some(60));
    assert_eq!(state.active.as_ref().map(|d| d.episode), Some(Some(2)));
    // With nothing else playing, nothing is active.
    let cfg = state.read_runtime_config();
    state.apply_cycle_success(&cfg, cycle_for(vec![process(60, "mpv", "mpv --idle")]));
    assert!(state.active.is_none());
    assert_eq!(state.observed_process_id, None);
    assert_eq!(state.last_observed.as_ref().map(|d| d.process_id), Some(60));
}
