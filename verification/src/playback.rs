//! Playback with an external player: which player to try, how to start
//! it, what to report when it exits, and how often to sync progress.

use vstd::prelude::*;
use crate::config::{PlayerConfig, PreferredPlayer};
use crate::jellyfin::models::{BaseItemDto, PlaybackInfoRequest, PlaybackInfoResponse};
use crate::text::{nat_text, u64_text, opt_text, opt_str_text};

verus! {

/// Where mpv's IPC socket is created (the process id is appended).
pub const MPV_IPC_SOCKET_PATH: &'static str = "/tmp/slimjelly-mpv.sock";

/// A direct-play session that ends within this many seconds, without
/// progress, is retried with transcoding.
pub const QUICK_EXIT_FALLBACK_SECONDS: u64 = 5;

/// How long one IPC exchange with mpv may take.
pub const MPV_IPC_TIMEOUT_MS: u64 = 500;

/// Longest pause between two progress reports.
pub const MAX_SYNC_INTERVAL_SECONDS: u64 = 60;

/// Server ticks per second (100 ns ticks).
pub const TICKS_PER_SECOND: i64 = 10_000_000;

#[derive(Debug, Clone, Copy, PartialEq, Eq, Structural)]
pub enum PlayerKind {
    Mpv,
    Vlc,
}

/// The state of a running playback session.
#[derive(Debug, Clone)]
pub struct PlaybackView {
    pub generation: u64,
    pub item_id: String,
    pub run_time_ticks: Option<i64>,
    pub player_kind: PlayerKind,
    pub mpv_socket_path: Option<String>,
    pub used_transcode: bool,
    pub transcode_stream_url: Option<String>,
    pub media_source_id: Option<String>,
    pub play_session_id: Option<String>,
    pub position_ticks: i64,
    pub is_paused: bool,
    pub status_text: String,
}

/// Retry with transcoding: direct play was used, a transcode URL is known,
/// nothing was played and the player exited quickly.
pub open spec fn retry_transcode_spec(p: PlaybackView, elapsed_seconds: u64) -> bool {
    &&& !p.used_transcode
    &&& p.transcode_stream_url is Some
    &&& p.position_ticks == 0
    &&& elapsed_seconds <= QUICK_EXIT_FALLBACK_SECONDS
}

/// `x` clamped to the range of `i64`.
pub open spec fn clamp_i64(x: int) -> int {
    if x > i64::MAX {
        i64::MAX as int
    } else if x < i64::MIN {
        i64::MIN as int
    } else {
        x
    }
}

/// The position to report when the player exits: the last known position,
/// or else the elapsed wall time in ticks (`elapsed as i64`, saturating).
pub open spec fn stop_ticks_spec(p: PlaybackView, elapsed_seconds: u64) -> int {
    if p.position_ticks > 0 {
        p.position_ticks as int
    } else {
        clamp_i64((elapsed_seconds as i64) as int * TICKS_PER_SECOND as int)
    }
}

/// The status line of a playback session.
pub open spec fn status_text_spec(is_paused: bool, used_transcode: bool) -> Seq<char> {
    if is_paused {
        if used_transcode {
            "Paused (transcode)"@
        } else {
            "Paused"@
        }
    } else if used_transcode {
        "Playing (transcode)"@
    } else {
        "Playing"@
    }
}

pub open spec fn player_name(kind: PlayerKind) -> Seq<char> {
    match kind {
        PlayerKind::Mpv => "mpv"@,
        PlayerKind::Vlc => "VLC"@,
    }
}

/// Whether to retry a session with transcoding after its player exited.
pub fn should_retry_transcode(playback: &PlaybackView, elapsed_seconds: u64) -> (b: bool)
    ensures
        b == retry_transcode_spec(*playback, elapsed_seconds),
{
    !playback.used_transcode && playback.transcode_stream_url.is_some()
        && playback.position_ticks == 0 && elapsed_seconds <= QUICK_EXIT_FALLBACK_SECONDS
}

/// `x * 10_000_000`, saturating at the bounds of `i64`.
fn saturating_ticks(x: i64) -> (t: i64)
    ensures
        t == clamp_i64(x as int * TICKS_PER_SECOND as int),
{
    if x > 922337203685 {
        assert(x * TICKS_PER_SECOND > i64::MAX) by (nonlinear_arith)
            requires
                x > 922337203685,
        ;
        i64::MAX
    } else if x < -922337203685 {
        assert(x * TICKS_PER_SECOND < i64::MIN) by (nonlinear_arith)
            requires
                x < -922337203685,
        ;
        i64::MIN
    } else {
        assert(i64::MIN <= x * TICKS_PER_SECOND <= i64::MAX) by (nonlinear_arith)
            requires
                -922337203685 <= x <= 922337203685,
        ;
        x * TICKS_PER_SECOND
    }
}

/// The position to report when the player exits.
pub fn stop_ticks_for_exit(playback: &PlaybackView, elapsed_seconds: u64) -> (t: i64)
    ensures
        t == stop_ticks_spec(*playback, elapsed_seconds),
{
    if playback.position_ticks > 0 {
        playback.position_ticks
    } else {
        saturating_ticks(elapsed_seconds as i64)
    }
}

/// The status line of a playback session.
pub fn status_text_for_playback(playback: &PlaybackView) -> (s: String)
    ensures
        s@ == status_text_spec(playback.is_paused, playback.used_transcode),
{
    status_text_for(playback.is_paused, playback.used_transcode)
}

/// The status line for a pause state and stream kind.
pub fn status_text_for(is_paused: bool, used_transcode: bool) -> (s: String)
    ensures
        s@ == status_text_spec(is_paused, used_transcode),
{
    if is_paused {
        if used_transcode {
            String::from_str("Paused (transcode)")
        } else {
            String::from_str("Paused")
        }
    } else if used_transcode {
        String::from_str("Playing (transcode)")
    } else {
        String::from_str("Playing")
    }
}

/// The name a player is shown under.
pub fn describe_player_kind(player_kind: PlayerKind) -> (s: &'static str)
    ensures
        s@ == player_name(player_kind),
{
    match player_kind {
        PlayerKind::Mpv => "mpv",
        PlayerKind::Vlc => "VLC",
    }
}

/// The players to try, preferred one first.
pub fn resolve_player_candidates(preferred: PreferredPlayer) -> (v: Vec<PlayerKind>)
    ensures
        v@ == match preferred {
            PreferredPlayer::Mpv => seq![PlayerKind::Mpv, PlayerKind::Vlc],
            PreferredPlayer::Vlc => seq![PlayerKind::Vlc, PlayerKind::Mpv],
        },
{
    let mut v: Vec<PlayerKind> = Vec::new();
    match preferred {
        PreferredPlayer::Mpv => {
            v.push(PlayerKind::Mpv);
            v.push(PlayerKind::Vlc);
        },
        PreferredPlayer::Vlc => {
            v.push(PlayerKind::Vlc);
            v.push(PlayerKind::Mpv);
        },
    }
    assert(v@ =~= match preferred {
        PreferredPlayer::Mpv => seq![PlayerKind::Mpv, PlayerKind::Vlc],
        PreferredPlayer::Vlc => seq![PlayerKind::Vlc, PlayerKind::Mpv],
    });
    v
}

pub open spec fn strings_of(v: Seq<String>) -> Seq<Seq<char>> {
    v.map_values(|s: String| s@)
}

/// The program of a player: the configured path, else its usual name.
pub open spec fn player_program(player: PlayerConfig, kind: PlayerKind) -> Seq<char> {
    match kind {
        PlayerKind::Mpv => match opt_text(player.mpv_path) {
            Some(p) => p,
            None => "mpv"@,
        },
        PlayerKind::Vlc => match opt_text(player.vlc_path) {
            Some(p) => p,
            None => "vlc"@,
        },
    }
}

/// The leading arguments of a player: mpv always opens a window and, when
/// a socket is given, listens for IPC on it; VLC takes none.
pub open spec fn player_base_args(kind: PlayerKind, mpv_socket_path: Option<Seq<char>>) -> Seq<
    Seq<char>,
> {
    match kind {
        PlayerKind::Mpv => seq!["--force-window=yes"@] + match mpv_socket_path {
            Some(p) => seq!["--input-ipc-server="@ + p],
            None => seq![],
        },
        PlayerKind::Vlc => seq![],
    }
}

/// The program and leading arguments that start a player.
pub fn player_command_for(
    player: &PlayerConfig,
    player_kind: PlayerKind,
    mpv_socket_path: Option<&str>,
) -> (r: (String, Vec<String>))
    ensures
        r.0@ == player_program(*player, player_kind),
        strings_of(r.1@) == player_base_args(player_kind, opt_str_text(mpv_socket_path)),
{
    match player_kind {
        PlayerKind::Mpv => {
            let mpv = match &player.mpv_path {
                Some(p) => p.clone(),
                None => String::from_str("mpv"),
            };
            let mut args: Vec<String> = Vec::new();
            args.push(String::from_str("--force-window=yes"));
            if let Some(socket_path) = mpv_socket_path {
                let mut a = String::from_str("--input-ipc-server=");
                a.append(socket_path);
                args.push(a);
            }
            assert(strings_of(args@) =~= player_base_args(
                player_kind,
                opt_str_text(mpv_socket_path),
            ));
            (mpv, args)
        },
        PlayerKind::Vlc => {
            let vlc = match &player.vlc_path {
                Some(p) => p.clone(),
                None => String::from_str("vlc"),
            };
            let args: Vec<String> = Vec::new();
            assert(strings_of(args@) =~= player_base_args(
                player_kind,
                opt_str_text(mpv_socket_path),
            ));
            (vlc, args)
        },
    }
}

/// The arguments that load a subtitle file: "--sub-file=PATH" for mpv,
/// "--sub-file PATH" for VLC.
pub open spec fn subtitle_args(kind: PlayerKind, path: Seq<char>) -> Seq<Seq<char>> {
    match kind {
        PlayerKind::Mpv => seq!["--sub-file="@ + path],
        PlayerKind::Vlc => seq!["--sub-file"@, path],
    }
}

/// Every argument of a player launch: the leading arguments, the subtitle
/// file if any, and the stream URL last.
pub open spec fn launch_args_spec(
    kind: PlayerKind,
    base: Seq<Seq<char>>,
    subtitle_path: Option<Seq<char>>,
    stream_url: Seq<char>,
) -> Seq<Seq<char>> {
    base + match subtitle_path {
        Some(p) => subtitle_args(kind, p),
        None => seq![],
    } + seq![stream_url]
}

/// Every argument of a player launch.
pub fn launch_args(
    kind: PlayerKind,
    base: Vec<String>,
    subtitle_path: Option<&str>,
    stream_url: &str,
) -> (args: Vec<String>)
    ensures
        strings_of(args@) == launch_args_spec(
            kind,
            strings_of(base@),
            opt_str_text(subtitle_path),
            stream_url@,
        ),
{
    let mut args = base;
    let ghost b = strings_of(args@);
    if let Some(path) = subtitle_path {
        match kind {
            PlayerKind::Mpv => {
                let mut a = String::from_str("--sub-file=");
                a.append(path);
                args.push(a);
            },
            PlayerKind::Vlc => {
                args.push(String::from_str("--sub-file"));
                args.push(String::from_str(path));
            },
        }
    }
    args.push(String::from_str(stream_url));
    assert(strings_of(args@) =~= launch_args_spec(
        kind,
        b,
        opt_str_text(subtitle_path),
        stream_url@,
    ));
    args
}

/// The mpv IPC socket of the process with id `pid`.
pub fn mpv_socket_path_for(pid: u32) -> (p: String)
    ensures
        p@ == MPV_IPC_SOCKET_PATH@ + "-"@ + nat_text(pid as nat),
{
    let mut p = String::from_str(MPV_IPC_SOCKET_PATH);
    p.append("-");
    let n = u64_text(pid as u64);
    p.append(n.as_str());
    p
}

// ---------------------------------------------------------------------------
// Preparing playback
// ---------------------------------------------------------------------------

/// The position to resume an item at: its saved position when positive.
pub open spec fn resume_ticks_spec(item: BaseItemDto) -> Option<i64> {
    match item.user_data {
        Some(u) => match u.playback_position_ticks {
            Some(t) => if t > 0 {
                Some(t)
            } else {
                None
            },
            None => None,
        },
        None => None,
    }
}

/// The position to resume an item at.
pub fn resume_ticks(item: &BaseItemDto) -> (t: Option<i64>)
    ensures
        t == resume_ticks_spec(*item),
{
    match &item.user_data {
        Some(u) => match u.playback_position_ticks {
            Some(t) => if t > 0 {
                Some(t)
            } else {
                None
            },
            None => None,
        },
        None => None,
    }
}

/// The playback-information request for a user, allowing every delivery
/// method, starting at `start_ticks`.
pub fn playback_info_request(user_id: &str, start_ticks: Option<i64>) -> (r: PlaybackInfoRequest)
    ensures
        r.user_id matches Some(u) && u@ == user_id@,
        r.start_time_ticks == start_ticks,
        r.audio_stream_index is None,
        r.subtitle_stream_index is None,
        r.media_source_id is None,
        r.enable_direct_play == Some(true),
        r.enable_direct_stream == Some(true),
        r.enable_transcoding == Some(true),
        r.max_streaming_bitrate is None,
{
    PlaybackInfoRequest {
        user_id: Some(String::from_str(user_id)),
        start_time_ticks: start_ticks,
        audio_stream_index: None,
        subtitle_stream_index: None,
        media_source_id: None,
        enable_direct_play: Some(true),
        enable_direct_stream: Some(true),
        enable_transcoding: Some(true),
        max_streaming_bitrate: None,
    }
}

/// How a prepared item is to be streamed.
#[derive(Debug, Clone)]
pub struct PlaybackPlan {
    /// Ask the server to transcode.
    pub use_transcode: bool,
    /// The media source to stream (the first one offered).
    pub media_source_id: Option<String>,
    /// Also prepare a transcoding URL to fall back on once.
    pub want_fallback_url: bool,
}

/// Transcode when direct play is not wanted first or the first media
/// source cannot be played directly (unknown means it can).
pub open spec fn plan_transcode(direct_first: bool, response: PlaybackInfoResponse) -> bool {
    let supports_direct = match response.media_sources {
        Some(v) => if v@.len() > 0 {
            match v@[0].supports_direct_play {
                Some(b) => b,
                None => true,
            }
        } else {
            true
        },
        None => true,
    };
    !direct_first || !supports_direct
}

/// The id of the first media source offered.
pub open spec fn first_source_id(response: PlaybackInfoResponse) -> Option<Seq<char>> {
    match response.media_sources {
        Some(v) => if v@.len() > 0 {
            opt_text(v@[0].id)
        } else {
            None
        },
        None => None,
    }
}

/// How to stream an item, given the server's playback information.
pub fn plan_playback(direct_first: bool, fallback_once: bool, response: &PlaybackInfoResponse) -> (p:
    PlaybackPlan)
    ensures
        p.use_transcode == plan_transcode(direct_first, *response),
        opt_text(p.media_source_id) == first_source_id(*response),
        p.want_fallback_url == (fallback_once && !p.use_transcode),
{
    let (supports_direct, media_source_id) = match &response.media_sources {
        Some(v) => {
            if v.len() > 0 {
                let first = &v[0];
                let s = match first.supports_direct_play {
                    Some(b) => b,
                    None => true,
                };
                let id = match &first.id {
                    Some(i) => Some(i.clone()),
                    None => None,
                };
                (s, id)
            } else {
                (true, None)
            }
        },
        None => (true, None),
    };
    let use_transcode = !direct_first || !supports_direct;
    PlaybackPlan { use_transcode, media_source_id, want_fallback_url: fallback_once && !use_transcode }
}

// ---------------------------------------------------------------------------
// Running playback
// ---------------------------------------------------------------------------

/// A fresh session for a launched player: at the start, not paused.
pub fn started_playback(
    generation: u64,
    item_id: String,
    run_time_ticks: Option<i64>,
    player_kind: PlayerKind,
    mpv_socket_path: Option<String>,
    used_transcode: bool,
    transcode_stream_url: Option<String>,
    media_source_id: Option<String>,
    play_session_id: Option<String>,
) -> (p: PlaybackView)
    ensures
        p.generation == generation,
        p.item_id == item_id,
        p.run_time_ticks == run_time_ticks,
        p.player_kind == player_kind,
        p.mpv_socket_path == mpv_socket_path,
        p.used_transcode == used_transcode,
        p.transcode_stream_url == transcode_stream_url,
        p.media_source_id == media_source_id,
        p.play_session_id == play_session_id,
        p.position_ticks == 0,
        !p.is_paused,
        p.status_text@ == status_text_spec(false, used_transcode),
{
    let status_text = status_text_for(false, used_transcode);
    PlaybackView {
        generation,
        item_id,
        run_time_ticks,
        player_kind,
        mpv_socket_path,
        used_transcode,
        transcode_stream_url,
        media_source_id,
        play_session_id,
        position_ticks: 0,
        is_paused: false,
        status_text,
    }
}

/// The status line after a player was launched.
pub fn launched_status(player_kind: PlayerKind, used_transcode: bool) -> (s: String)
    ensures
        s@ == "Playback launched with "@ + player_name(player_kind) + if used_transcode {
            " (transcode fallback)"@
        } else {
            ""@
        },
{
    let mut s = String::from_str("Playback launched with ");
    s.append(describe_player_kind(player_kind));
    if used_transcode {
        s.append(" (transcode fallback)");
    } else {
        proof {
            reveal_strlit("");
        }
        assert(s@ =~= s@ + ""@);
    }
    s
}

/// What to do when no player could be started.
#[derive(Debug, Clone)]
pub enum LaunchFailure {
    /// Start again with this transcoding URL.
    RetryTranscode(String),
    /// Give up with this status line.
    GiveUp(String),
}

/// What to do when no player could be started: retry once with the
/// transcoding URL when direct play was tried and one is known, otherwise
/// report the last launch error.
pub fn on_launch_failed(
    used_transcode: bool,
    transcode_stream_url: Option<String>,
    last_error: Option<String>,
) -> (r: LaunchFailure)
    ensures
        (!used_transcode && transcode_stream_url is Some) ==> (r matches LaunchFailure::RetryTranscode(
            u,
        ) && Some(u) == transcode_stream_url),
        !(!used_transcode && transcode_stream_url is Some) ==> (r matches LaunchFailure::GiveUp(m)
            && m@ == "Failed to launch external player: "@ + match opt_text(last_error) {
            Some(e) => e,
            None => "unknown error"@,
        }),
{
    if !used_transcode {
        if let Some(url) = transcode_stream_url {
            return LaunchFailure::RetryTranscode(url);
        }
    }
    let mut m = String::from_str("Failed to launch external player: ");
    match last_error {
        Some(e) => m.append(e.as_str()),
        None => m.append("unknown error"),
    }
    LaunchFailure::GiveUp(m)
}

/// Transcoding is retried at most once: a session that already transcodes
/// never asks for another retry, whatever the exit.
pub proof fn transcode_retry_at_most_once(p: PlaybackView, elapsed_seconds: u64)
    requires
        p.used_transcode,
    ensures
        !retry_transcode_spec(p, elapsed_seconds),
{
}

/// A session that made progress is never retried: its exit reports the
/// position reached.
pub proof fn progress_is_reported_on_exit(p: PlaybackView, elapsed_seconds: u64)
    requires
        p.position_ticks > 0,
    ensures
        !retry_transcode_spec(p, elapsed_seconds),
        stop_ticks_spec(p, elapsed_seconds) == p.position_ticks,
{
}

/// What to do when the player of a session exits.
#[derive(Debug, Clone)]
pub enum ExitAction {
    /// The exit belongs to no current session.
    Ignore,
    /// Start the item again with this transcoding URL.
    RetryTranscode(String),
    /// Report that playback stopped at this position.
    ReportStop(i64),
}

/// What to do when the player of session `generation` exits after
/// `elapsed_seconds`.
pub fn on_player_exited(playback: &Option<PlaybackView>, generation: u64, elapsed_seconds: u64) -> (a:
    ExitAction)
    ensures
        match *playback {
            Some(p) => if p.generation != generation {
                a is Ignore
            } else if retry_transcode_spec(p, elapsed_seconds) {
                a matches ExitAction::RetryTranscode(u) && Some(u) == p.transcode_stream_url
            } else {
                a matches ExitAction::ReportStop(t) && t == stop_ticks_spec(p, elapsed_seconds)
            },
            None => a is Ignore,
        },
{
    match playback {
        Some(p) => {
            if p.generation != generation {
                ExitAction::Ignore
            } else if should_retry_transcode(p, elapsed_seconds) {
                match &p.transcode_stream_url {
                    Some(u) => ExitAction::RetryTranscode(u.clone()),
                    None => ExitAction::Ignore,
                }
            } else {
                ExitAction::ReportStop(stop_ticks_for_exit(p, elapsed_seconds))
            }
        },
        None => ExitAction::Ignore,
    }
}

/// Records a progress report in the session.
pub fn apply_progress(playback: &mut PlaybackView, position_ticks: i64, is_paused: bool)
    ensures
        final(playback).position_ticks == position_ticks,
        final(playback).is_paused == is_paused,
        final(playback).status_text@ == status_text_spec(is_paused, old(playback).used_transcode),
        final(playback).generation == old(playback).generation,
        final(playback).item_id == old(playback).item_id,
        final(playback).used_transcode == old(playback).used_transcode,
        final(playback).transcode_stream_url == old(playback).transcode_stream_url,
        final(playback).play_session_id == old(playback).play_session_id,
        final(playback).media_source_id == old(playback).media_source_id,
        final(playback).mpv_socket_path == old(playback).mpv_socket_path,
        final(playback).player_kind == old(playback).player_kind,
        final(playback).run_time_ticks == old(playback).run_time_ticks,
{
    playback.position_ticks = position_ticks;
    playback.is_paused = is_paused;
    playback.status_text = status_text_for(is_paused, playback.used_transcode);
}

/// Seconds until the next progress report: the base interval while mpv
/// reports a moving position, twice that (at most a minute) while it seems
/// stalled or when the position can only be estimated.
pub open spec fn sync_sleep_spec(base_interval: u64, used_mpv_snapshot: bool, stagnant_count: u8) -> int {
    let doubled = if base_interval as int * 2 > u64::MAX {
        u64::MAX as int
    } else {
        base_interval as int * 2
    };
    let slow = if doubled < MAX_SYNC_INTERVAL_SECONDS {
        doubled
    } else {
        MAX_SYNC_INTERVAL_SECONDS as int
    };
    if used_mpv_snapshot && stagnant_count < 3 {
        base_interval as int
    } else {
        slow
    }
}

/// Seconds until the next progress report.
pub fn sync_sleep_seconds(base_interval: u64, used_mpv_snapshot: bool, stagnant_count: u8) -> (s:
    u64)
    ensures
        s == sync_sleep_spec(base_interval, used_mpv_snapshot, stagnant_count),
{
    let doubled = if base_interval > u64::MAX / 2 {
        u64::MAX
    } else {
        base_interval * 2
    };
    let slow = if doubled < MAX_SYNC_INTERVAL_SECONDS {
        doubled
    } else {
        MAX_SYNC_INTERVAL_SECONDS
    };
    if used_mpv_snapshot && stagnant_count < 3 {
        base_interval
    } else {
        slow
    }
}

/// Without a player position, the player counts as paused once its
/// position stood still for three reports.
pub fn inferred_paused(stagnant_count: u8) -> (b: bool)
    ensures
        b == (stagnant_count >= 3),
{
    stagnant_count >= 3
}

/// The stall counter after a report: one more (saturating) when the
/// position did not move, back to zero when it did.
pub fn next_stagnant_count(stagnant_count: u8, moved: bool) -> (c: u8)
    ensures
        c == if moved {
            0
        } else if stagnant_count == 255 {
            255
        } else {
            stagnant_count + 1
        },
{
    if moved {
        0
    } else if stagnant_count == 255 {
        255
    } else {
        stagnant_count + 1
    }
}

/// How far mpv's position must move between reports, in ticks, to count
/// as moving: 0.2 seconds.
pub const MOVE_THRESHOLD_TICKS: i64 = 2_000_000;

/// What the progress loop of a session keeps between reports: the position
/// estimated from the wall time, the furthest position mpv reported, and
/// how many reports in a row mpv's position stood still.
#[derive(Debug, Clone, Copy, PartialEq, Eq)]
pub struct ProgressTracker {
    pub estimated_ticks: i64,
    pub last_known_ticks: i64,
    pub stagnant_count: u8,
}

/// The position and pause state of one report, and whether mpv gave them.
#[derive(Debug, Clone, Copy, PartialEq, Eq)]
pub struct ProgressSample {
    pub position_ticks: i64,
    pub is_paused: bool,
    pub used_mpv_snapshot: bool,
}

/// mpv's position `position` moved from `last` by the threshold or more.
pub open spec fn moved_from(position: i64, last: i64) -> bool {
    position - last >= MOVE_THRESHOLD_TICKS || last - position >= MOVE_THRESHOLD_TICKS
}

/// The tracker after a report, and the report, given what mpv said (the
/// position in ticks and whether it is paused), if anything: with mpv's
/// word, the furthest position it reported; without it, the estimate,
/// which grows by the interval unless three still reports in a row suggest
/// a pause.
pub open spec fn tracked_sample(
    t: ProgressTracker,
    snapshot: Option<(i64, bool)>,
    base_interval: u64,
) -> (ProgressTracker, ProgressSample) {
    match snapshot {
        Some((position, paused)) => {
            let moved = moved_from(position, t.last_known_ticks);
            let stagnant = if moved {
                0
            } else if t.stagnant_count == 255 {
                255
            } else {
                (t.stagnant_count + 1) as u8
            };
            let last = if position > t.last_known_ticks {
                position
            } else {
                t.last_known_ticks
            };
            (
                ProgressTracker { last_known_ticks: last, stagnant_count: stagnant, ..t },
                ProgressSample { position_ticks: last, is_paused: paused, used_mpv_snapshot: true },
            )
        },
        None => {
            let paused = t.stagnant_count >= 3;
            let estimated = if paused {
                t.estimated_ticks as int
            } else {
                clamp_i64(t.estimated_ticks + base_interval * TICKS_PER_SECOND)
            };
            (
                ProgressTracker { estimated_ticks: estimated as i64, ..t },
                ProgressSample {
                    position_ticks: estimated as i64,
                    is_paused: paused,
                    used_mpv_snapshot: false,
                },
            )
        },
    }
}

impl ProgressTracker {
    /// A session's tracker before its first report.
    pub fn new() -> (t: Self)
        ensures
            t == (ProgressTracker { estimated_ticks: 0, last_known_ticks: 0, stagnant_count: 0 }),
    {
        ProgressTracker { estimated_ticks: 0, last_known_ticks: 0, stagnant_count: 0 }
    }

    /// The next report, given what mpv said, if anything.
    pub fn next_sample(&mut self, snapshot: Option<(i64, bool)>, base_interval: u64) -> (s:
        ProgressSample)
        ensures
            (*final(self), s) == tracked_sample(*old(self), snapshot, base_interval),
    {
        match snapshot {
            Some((position, paused)) => {
                let diff: i128 = position as i128 - self.last_known_ticks as i128;
                let moved = diff >= MOVE_THRESHOLD_TICKS as i128 || -diff >= MOVE_THRESHOLD_TICKS as i128;
                self.stagnant_count = next_stagnant_count(self.stagnant_count, moved);
                if position > self.last_known_ticks {
                    self.last_known_ticks = position;
                }
                ProgressSample {
                    position_ticks: self.last_known_ticks,
                    is_paused: paused,
                    used_mpv_snapshot: true,
                }
            },
            None => {
                let paused = inferred_paused(self.stagnant_count);
                if !paused {
                    let step: i128 = base_interval as i128 * TICKS_PER_SECOND as i128;
                    let sum: i128 = self.estimated_ticks as i128 + step;
                    self.estimated_ticks = if sum > i64::MAX as i128 {
                        i64::MAX
                    } else if sum < i64::MIN as i128 {
                        i64::MIN
                    } else {
                        sum as i64
                    };
                }
                ProgressSample {
                    position_ticks: self.estimated_ticks,
                    is_paused: paused,
                    used_mpv_snapshot: false,
                }
            },
        }
    }
}

/// The positions a progress loop keeps never move backwards, whatever mpv
/// says: the furthest reported position and the estimate only grow.
pub proof fn tracked_positions_never_go_back(
    t: ProgressTracker,
    snapshot: Option<(i64, bool)>,
    base_interval: u64,
)
    ensures
        tracked_sample(t, snapshot, base_interval).0.last_known_ticks >= t.last_known_ticks,
        tracked_sample(t, snapshot, base_interval).0.estimated_ticks >= t.estimated_ticks,
{
}

/// The progress report of a session at a position.
pub fn progress_info(
    item_id: &String,
    play_session_id: &Option<String>,
    media_source_id: &Option<String>,
    position_ticks: i64,
    is_paused: bool,
) -> (p: crate::jellyfin::models::PlaybackProgressInfo)
    ensures
        p.item_id@ == item_id@,
        opt_text(p.play_session_id) == opt_text(*play_session_id),
        opt_text(p.media_source_id) == opt_text(*media_source_id),
        p.position_ticks == Some(position_ticks),
        p.is_paused == Some(is_paused),
{
    crate::jellyfin::models::PlaybackProgressInfo {
        item_id: item_id.clone(),
        play_session_id: clone_opt(play_session_id),
        position_ticks: Some(position_ticks),
        is_paused: Some(is_paused),
        media_source_id: clone_opt(media_source_id),
    }
}

/// The report that playback started at the beginning, not paused.
pub fn start_info(item_id: String, media_source_id: Option<String>, play_session_id: Option<String>) -> (p:
    crate::jellyfin::models::PlaybackStartInfo)
    ensures
        p.item_id == item_id,
        p.play_session_id == play_session_id,
        p.can_seek == Some(true),
        p.is_paused == Some(false),
        p.position_ticks == Some(0i64),
        p.media_source_id == media_source_id,
{
    crate::jellyfin::models::PlaybackStartInfo {
        item_id,
        play_session_id,
        can_seek: Some(true),
        is_paused: Some(false),
        position_ticks: Some(0),
        media_source_id,
    }
}

/// The report that playback stopped at a position.
pub fn stop_info(playback: &PlaybackView, position_ticks: i64) -> (p:
    crate::jellyfin::models::PlaybackStopInfo)
    ensures
        p.item_id@ == playback.item_id@,
        opt_text(p.play_session_id) == opt_text(playback.play_session_id),
        p.position_ticks == Some(position_ticks),
        opt_text(p.media_source_id) == opt_text(playback.media_source_id),
{
    crate::jellyfin::models::PlaybackStopInfo {
        item_id: playback.item_id.clone(),
        play_session_id: clone_opt(&playback.play_session_id),
        position_ticks: Some(position_ticks),
        media_source_id: clone_opt(&playback.media_source_id),
    }
}

/// A copy of an optional string.
pub fn clone_opt(o: &Option<String>) -> (r: Option<String>)
    ensures
        opt_text(r) == opt_text(*o),
{
    match o {
        Some(s) => Some(s.clone()),
        None => None,
    }
}

/// A player launch passes the downloaded subtitle: the leading arguments
/// come first and the stream URL last; with a subtitle path p, mpv gets
/// "--sub-file=p" and VLC the two arguments "--sub-file" and p just before
/// the URL; without one, nothing comes between.
pub proof fn launch_passes_the_subtitle(
    kind: PlayerKind,
    base: Seq<Seq<char>>,
    subtitle_path: Option<Seq<char>>,
    stream_url: Seq<char>,
)
    ensures
        launch_args_spec(kind, base, subtitle_path, stream_url).len() > base.len(),
        launch_args_spec(kind, base, subtitle_path, stream_url).last() == stream_url,
        launch_args_spec(kind, base, subtitle_path, stream_url).subrange(0, base.len() as int)
            == base,
        subtitle_path is None ==> launch_args_spec(kind, base, subtitle_path, stream_url).len()
            == base.len() + 1,
        subtitle_path matches Some(p) ==> kind == PlayerKind::Mpv ==> launch_args_spec(
            kind,
            base,
            subtitle_path,
            stream_url,
        ).len() == base.len() + 2 && launch_args_spec(kind, base, subtitle_path, stream_url)[base.len() as int]
            == "--sub-file="@ + p,
        subtitle_path matches Some(p) ==> kind == PlayerKind::Vlc ==> launch_args_spec(
            kind,
            base,
            subtitle_path,
            stream_url,
        ).len() == base.len() + 3 && launch_args_spec(kind, base, subtitle_path, stream_url)[base.len() as int]
            == "--sub-file"@ && launch_args_spec(kind, base, subtitle_path, stream_url)[base.len() as int + 1]
            == p,
{
    let a = launch_args_spec(kind, base, subtitle_path, stream_url);
    assert(a.subrange(0, base.len() as int) =~= base);
}

/// Playback transcodes when direct play is not asked for first, or when
/// the first media source says it cannot be played directly; otherwise it
/// plays directly.
pub proof fn transcode_when_direct_play_is_refused(direct_first: bool, response: PlaybackInfoResponse)
    ensures
        !direct_first ==> plan_transcode(direct_first, response),
        (response.media_sources matches Some(v) && v@.len() > 0 && v@[0].supports_direct_play
            == Some(false)) ==> plan_transcode(direct_first, response),
        (direct_first && !(response.media_sources matches Some(v) && v@.len() > 0
            && v@[0].supports_direct_play == Some(false))) ==> !plan_transcode(direct_first, response),
{
}

} // verus!
