use slimjelly::playback::{
    should_retry_transcode, status_text_for_playback, stop_ticks_for_exit, PlaybackView,
    PlayerKind, ProgressTracker, QUICK_EXIT_FALLBACK_SECONDS,
};

fn playback_fixture() -> PlaybackView {
    PlaybackView {
        generation: 1,
        item_id: "item-1".to_string(),
        run_time_ticks: None,
        player_kind: PlayerKind::Mpv,
        mpv_socket_path: None,
        used_transcode: false,
        transcode_stream_url: Some("https://server/transcode".to_string()),
        media_source_id: Some("source-1".to_string()),
        play_session_id: Some("play-1".to_string()),
        position_ticks: 0,
        is_paused: false,
        status_text: "Playing".to_string(),
    }
}

#[test]
fn retry_transcode_when_quick_exit_and_no_progress() {
    let playback = playback_fixture();
    assert!(should_retry_transcode(&playback, QUICK_EXIT_FALLBACK_SECONDS));
}

#[test]
fn no_retry_when_already_transcoding() {
    let mut playback = playback_fixture();
    playback.used_transcode = true;
    assert!(!should_retry_transcode(&playback, 1));
}

#[test]
fn no_retry_when_playback_has_progress() {
    let mut playback = playback_fixture();
    playback.position_ticks = 42;
    assert!(!should_retry_transcode(&playback, 1));
}

#[test]
fn uses_recorded_ticks_on_exit_when_available() {
    let mut playback = playback_fixture();
    playback.position_ticks = 88_000_000;
    assert_eq!(stop_ticks_for_exit(&playback, 3), 88_000_000);
}

#[test]
fn uses_elapsed_seconds_when_no_ticks_recorded() {
    let playback = playback_fixture();
    assert_eq!(stop_ticks_for_exit(&playback, 9), 90_000_000);
}

#[test]
fn status_text_reflects_pause_and_transcode() {
    let mut playback = playback_fixture();
    assert_eq!(status_text_for_playback(&playback), "Playing");

    playback.is_paused = true;
    assert_eq!(status_text_for_playback(&playback), "Paused");

    playback.used_transcode = true;
    playback.is_paused = false;
    assert_eq!(status_text_for_playback(&playback), "Playing (transcode)");

    playback.is_paused = true;
    assert_eq!(status_text_for_playback(&playback), "Paused (transcode)");
}

#[test]
fn no_retry_after_slow_exit() {
    let playback = playback_fixture();
    assert!(!should_retry_transcode(&playback, QUICK_EXIT_FALLBACK_SECONDS + 1));
}

#[test]
fn no_retry_without_transcode_url() {
    let mut playback = playback_fixture();
    playback.transcode_stream_url = None;
    assert!(!should_retry_transcode(&playback, 0));
}

#[test]
fn stop_ticks_saturate_for_huge_elapsed_time() {
    let playback = playback_fixture();
    assert_eq!(stop_ticks_for_exit(&playback, 1u64 << 62), i64::MAX);
    // The elapsed seconds are read as an i64 first, so u64::MAX reads as -1.
    assert_eq!(stop_ticks_for_exit(&playback, u64::MAX), -10_000_000);
}

#[test]
fn mpv_is_asked_for_a_property_in_one_json_line() {
    assert_eq!(
        slimjelly::mpv::mpv_property_request("time-pos"),
        "{\"command\":[\"get_property\",\"time-pos\"]}\n"
    );
}

#[test]
fn progress_follows_mpv_and_never_goes_back() {
    let mut t = ProgressTracker::new();
    let s = t.next_sample(Some((50_000_000, false)), 10);
    assert_eq!((s.position_ticks, s.is_paused, s.used_mpv_snapshot), (50_000_000, false, true));
    assert_eq!(t.stagnant_count, 0);
    let s = t.next_sample(Some((40_000_000, true)), 10);
    assert_eq!(s.position_ticks, 50_000_000);
    assert!(s.is_paused);
    assert_eq!(t.stagnant_count, 0);
    let s = t.next_sample(Some((50_100_000, true)), 10);
    assert_eq!(s.position_ticks, 50_100_000);
    assert_eq!(t.stagnant_count, 1);
}

#[test]
fn progress_is_estimated_without_mpv_until_it_stalls() {
    let mut t = ProgressTracker::new();
    let s = t.next_sample(None, 10);
    assert_eq!((s.position_ticks, s.is_paused, s.used_mpv_snapshot), (100_000_000, false, false));
    let s = t.next_sample(None, 10);
    assert_eq!(s.position_ticks, 200_000_000);
    t.stagnant_count = 3;
    let s = t.next_sample(None, 10);
    assert_eq!((s.position_ticks, s.is_paused), (200_000_000, true));
    let mut t = ProgressTracker { estimated_ticks: i64::MAX - 5, last_known_ticks: 0, stagnant_count: 0 };
    assert_eq!(t.next_sample(None, 60).position_ticks, i64::MAX);
}

#[test]
fn mpv_reply_gives_the_first_successful_data() {
    let reply = "{\"event\":\"pause\"}\n{\"data\":12.5,\"error\":\"success\",\"request_id\":0}\n";
    let data = slimjelly::mpv::reply_data(reply).expect("a successful reply");
    assert_eq!(data.data_number_bits.map(f64::from_bits), Some(12.5));
    assert_eq!(data.data_bool, None);

    let paused = slimjelly::mpv::reply_data("{\"data\":true,\"error\":\"success\"}\r\n").expect("a reply");
    assert_eq!(paused.data_bool, Some(true));

    assert!(slimjelly::mpv::reply_data("{\"error\":\"property unavailable\"}\n").is_none());
    assert!(slimjelly::mpv::reply_data("{\"error\":\"success\"}\nnot json\n").is_none());
    assert!(slimjelly::mpv::reply_data("").is_none());
}
