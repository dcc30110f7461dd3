use slimjelly::accounts::LoginSuccess;
use slimjelly::browse::{LibrarySection, Screen};
use slimjelly::jellyfin::models::{BaseItemDto, VirtualFolderInfo};
use slimjelly::playback::PlayerKind;
use slimjelly::secure_store::SessionToken;
use slimjelly::status::Failure;
use slimjelly::window::{
    item_to_delete, library_to_delete, ClientState, Effect, Message, PreparedPlayback, SessionView,
};

fn item(id: &str, item_type: Option<&str>) -> BaseItemDto {
    BaseItemDto {
        id: Some(id.to_string()),
        name: Some(format!("name {id}")),
        item_type: item_type.map(str::to_string),
        media_type: None,
        index_number: None,
        parent_index_number: None,
        production_year: None,
        community_rating_bits: None,
        official_rating: None,
        run_time_ticks: None,
        overview: None,
        people: None,
        primary_image_tag: None,
        image_tags: None,
        playlist_item_id: None,
        last_played_date: None,
        user_data: None,
        season_id: None,
        parent_id: None,
        series_id: None,
        series_name: None,
    }
}

fn folder(name: &str) -> VirtualFolderInfo {
    VirtualFolderInfo {
        name: Some(name.to_string()),
        locations: None,
        collection_type: None,
        item_id: None,
        refresh_progress_bits: None,
        refresh_status: None,
    }
}

fn ids(items: &[BaseItemDto]) -> Vec<String> {
    items.iter().map(|i| i.id.clone().unwrap_or_default()).collect()
}

fn prepared(used_transcode: bool, transcode_url: Option<&str>) -> PreparedPlayback {
    PreparedPlayback {
        item_id: "movie".to_string(),
        run_time_ticks: Some(600),
        stream_url: "http://server/direct".to_string(),
        transcode_stream_url: transcode_url.map(str::to_string),
        used_transcode,
        media_source_id: Some("source".to_string()),
        play_session_id: Some("play".to_string()),
    }
}

fn signed_in_state(is_admin: bool) -> ClientState {
    let mut s = ClientState::new();
    s.session = Some(SessionView {
        user_id: "user".to_string(),
        user_name: "alice".to_string(),
        is_admin,
    });
    s.current_screen = Screen::Home;
    s
}

fn playing_state(used_transcode: bool) -> ClientState {
    let mut s = signed_in_state(false);
    s.player_launched(
        7,
        PlayerKind::Mpv,
        Some("/tmp/mpv.sock".to_string()),
        prepared(used_transcode, Some("http://server/transcode")),
    );
    s
}

#[test]
fn new_window_shows_login_and_ready() {
    let s = ClientState::new();
    assert_eq!(s.current_screen, Screen::Login);
    assert_eq!(s.detail_return_screen, Screen::Home);
    assert_eq!(s.current_library_section, LibrarySection::Movies);
    assert_eq!(s.status_line, "Ready");
    assert!(s.session.is_none() && s.playback.is_none());
}

#[test]
fn signing_in_stores_the_session_and_loads_everything() {
    let mut s = ClientState::new();
    let fx = s.signed_in(LoginSuccess {
        token: "tok".to_string(),
        user_id: "u1".to_string(),
        user_name: "alice".to_string(),
        is_admin: true,
        server_id: Some("srv".to_string()),
    });
    assert_eq!(s.status_line, "Login successful");
    assert_eq!(s.current_screen, Screen::Home);
    assert_eq!(
        s.session,
        Some(SessionView { user_id: "u1".to_string(), user_name: "alice".to_string(), is_admin: true })
    );
    assert_eq!(fx.len(), 8);
    match &fx[0] {
        Effect::StoreSession(SessionToken { access_token, user_id, server_id }) => {
            assert_eq!(access_token, "tok");
            assert_eq!(user_id, "u1");
            assert_eq!(server_id.as_deref(), Some("srv"));
        }
        other => panic!("unexpected effect {other:?}"),
    }
    assert!(matches!(fx[1], Effect::LoadViews));
    assert!(matches!(fx[3], Effect::LoadLibraryItems(LibrarySection::Movies)));
    assert!(matches!(fx[7], Effect::Search));
}

#[test]
fn restoring_a_session_validates_it_first() {
    let mut s = ClientState::new();
    let token = SessionToken {
        access_token: "tok".to_string(),
        user_id: "u1".to_string(),
        server_id: None,
    };
    let fx = s.session_restored(token, "bob".to_string());
    assert_eq!(s.status_line, "Session restored");
    assert_eq!(s.session.as_ref().map(|v| v.is_admin), Some(false));
    assert!(matches!(fx[0], Effect::ValidateSession));
    assert!(matches!(fx[1], Effect::RefreshHealth));
    assert_eq!(fx.len(), 9);
}

#[test]
fn session_validation_updates_the_user() {
    let mut s = signed_in_state(false);
    let fx = s.handle_message(Message::SessionValidated { user_name: "carol".to_string(), is_admin: true });
    assert!(fx.is_empty());
    assert_eq!(s.status_line, "Session validated");
    let v = s.session.unwrap();
    assert_eq!(v.user_name, "carol");
    assert!(v.is_admin);
    assert_eq!(v.user_id, "user");
}

#[test]
fn logging_out_drops_the_session_and_its_files() {
    let mut s = playing_state(false);
    s.subtitle_temp_path = Some("/tmp/sub.srt".to_string());
    s.items = vec![item("a", None)];
    s.selected_item = Some(item("a", None));
    let fx = s.logged_out();
    assert_eq!(fx.len(), 4);
    assert!(matches!(fx[0], Effect::EndProgressReports));
    assert!(matches!(&fx[1], Effect::RemoveFile(p) if p == "/tmp/mpv.sock"));
    assert!(matches!(fx[2], Effect::ClearSession));
    assert!(matches!(&fx[3], Effect::RemoveFile(p) if p == "/tmp/sub.srt"));
    assert_eq!(s.current_screen, Screen::Login);
    assert_eq!(s.status_line, "Logged out");
    assert!(s.session.is_none() && s.playback.is_none() && s.selected_item.is_none());
    assert!(s.items.is_empty() && s.subtitle_temp_path.is_none());
}

#[test]
fn failures_go_to_the_status_line() {
    let mut s = signed_in_state(false);
    s.subtitle_search_loading = true;
    let fx = s.handle_message(Message::Failed(Failure::SubtitleSearch, "boom".to_string()));
    assert!(fx.is_empty());
    assert_eq!(s.status_line, "Subtitle search failed: boom");
    assert!(!s.subtitle_search_loading);

    s.subtitle_search_loading = true;
    s.handle_message(Message::Failed(Failure::Library, "down".to_string()));
    assert_eq!(s.status_line, "Library load failed: down");
    assert!(s.subtitle_search_loading);
}

#[test]
fn loaded_lists_are_counted() {
    let mut s = signed_in_state(false);
    s.handle_message(Message::ViewsLoaded(vec![item("a", None), item("b", None)]));
    assert_eq!(s.status_line, "Loaded 2 libraries");
    s.handle_message(Message::TasksLoaded(Vec::new()));
    assert_eq!(s.status_line, "Loaded 0 tasks");
    s.handle_message(Message::SubtitleSearchResults(Vec::new()));
    assert_eq!(s.status_line, "Found 0 subtitle results");
}

#[test]
fn library_items_of_another_section_are_dropped() {
    let mut s = signed_in_state(false);
    s.status_line = "before".to_string();
    s.handle_message(Message::LibraryItemsLoaded {
        section: LibrarySection::TvShows,
        items: vec![item("a", None)],
    });
    assert!(s.library_items.is_empty());
    assert_eq!(s.status_line, "before");
    s.handle_message(Message::LibraryItemsLoaded {
        section: LibrarySection::Movies,
        items: vec![item("a", None)],
    });
    assert_eq!(ids(&s.library_items), vec!["a"]);
    assert_eq!(s.status_line, "Loaded 1 library item");
}

#[test]
fn first_playlist_is_selected_and_loaded() {
    let mut s = signed_in_state(false);
    let fx = s.handle_message(Message::PlaylistsLoaded(vec![item("p1", None), item("p2", None)]));
    assert_eq!(s.selected_playlist_id.as_deref(), Some("p1"));
    assert_eq!(fx.len(), 1);
    assert!(matches!(&fx[0], Effect::LoadPlaylistItems(id) if id == "p1"));

    let fx = s.handle_message(Message::PlaylistsLoaded(vec![item("p2", None)]));
    assert!(fx.is_empty());
    assert_eq!(s.selected_playlist_id.as_deref(), Some("p1"));

    s.handle_message(Message::PlaylistItemsLoaded { playlist_id: "p2".to_string(), items: vec![item("x", None)] });
    assert!(s.playlist_items.is_empty());
    s.handle_message(Message::PlaylistItemsLoaded { playlist_id: "p1".to_string(), items: vec![item("y", None)] });
    assert_eq!(ids(&s.playlist_items), vec!["y"]);
}

#[test]
fn deleting_the_shown_item_leaves_its_details() {
    let mut s = signed_in_state(true);
    s.current_screen = Screen::Details;
    s.selected_item = Some(item("x", None));
    s.items = vec![item("a", None), item("x", None)];
    s.home_recent_movies = vec![item("x", None), item("b", None)];
    s.admin_delete_item_confirm = "x".to_string();
    let fx = s.handle_message(Message::DeleteItemDone { item_id: "x".to_string() });
    assert_eq!(s.status_line, "Item deleted");
    assert_eq!(s.current_screen, Screen::Admin);
    assert!(s.selected_item.is_none());
    assert!(s.admin_delete_item_confirm.is_empty());
    assert_eq!(ids(&s.items), vec!["a"]);
    assert_eq!(ids(&s.home_recent_movies), vec!["b"]);
    assert_eq!(fx.len(), 6);
    assert!(matches!(fx[0], Effect::LoadHomeSections));
    assert!(matches!(fx[5], Effect::LoadLastPlayed));
}

#[test]
fn deleting_the_selected_library_selects_the_first_left() {
    let mut s = signed_in_state(true);
    s.admin_virtual_folders = vec![folder("Movies"), folder("Shows"), folder("Music")];
    s.admin_selected_virtual_folder_name = Some("Movies".to_string());
    let fx = s.handle_message(Message::DeleteLibraryDone { name: "Movies".to_string() });
    assert_eq!(s.status_line, "Library 'Movies' deleted");
    assert_eq!(s.admin_virtual_folders.len(), 2);
    assert_eq!(s.admin_selected_virtual_folder_name.as_deref(), Some("Shows"));
    assert_eq!(fx.len(), 5);
    assert!(matches!(fx[0], Effect::LoadVirtualFolders));
}

#[test]
fn folder_selection_survives_a_reload_that_keeps_it() {
    let mut s = signed_in_state(true);
    s.admin_selected_virtual_folder_name = Some("Shows".to_string());
    s.handle_message(Message::VirtualFoldersLoaded(vec![folder("Movies"), folder("Shows")]));
    assert_eq!(s.admin_selected_virtual_folder_name.as_deref(), Some("Shows"));
    s.handle_message(Message::VirtualFoldersLoaded(vec![folder("Music")]));
    assert_eq!(s.admin_selected_virtual_folder_name.as_deref(), Some("Music"));
}

#[test]
fn next_season_opens_its_first_episode_when_it_arrives() {
    let mut s = signed_in_state(false);
    let fx = s.step_to_next_season("s2".to_string());
    assert!(matches!(&fx[0], Effect::LoadEpisodes(id) if id == "s2"));
    let fx = s.handle_message(Message::DetailEpisodesLoaded {
        season_id: "s1".to_string(),
        items: vec![item("old", Some("Episode"))],
    });
    assert!(fx.is_empty());
    assert!(s.detail_episodes.is_empty());
    let fx = s.handle_message(Message::DetailEpisodesLoaded {
        season_id: "s2".to_string(),
        items: vec![item("e1", Some("Episode"))],
    });
    assert_eq!(fx.len(), 1);
    assert!(matches!(fx[0], Effect::OpenFirstEpisode));
    assert_eq!(s.seasons.pending_next, None);

    s.detail_return_screen = Screen::Libraries;
    let fx = s.open_first_episode(Some(item("e1", Some("Episode"))));
    assert_eq!(s.current_screen, Screen::Details);
    assert_eq!(s.detail_return_screen, Screen::Libraries);
    assert!(matches!(&fx[0], Effect::LoadItemDetail(id) if id == "e1"));

    let fx = s.open_first_episode(None);
    assert!(fx.is_empty());
    assert_eq!(s.status_line, "No episodes found in the next season");
}

#[test]
fn seasons_arriving_for_a_series_load_the_first_season() {
    let mut s = signed_in_state(false);
    let fx = s.handle_message(Message::DetailSeasonsLoaded(vec![item("s1", Some("Season")), item("s2", Some("Season"))]));
    assert_eq!(s.seasons.selected.as_deref(), Some("s1"));
    assert_eq!(fx.len(), 1);
    assert!(matches!(&fx[0], Effect::LoadEpisodes(id) if id == "s1"));

    let fx = s.handle_message(Message::DetailSeasonsLoaded(Vec::new()));
    assert!(fx.is_empty());
    assert_eq!(s.seasons.selected, None);
}

#[test]
fn opening_the_home_screen_loads_its_rows_once() {
    let mut s = signed_in_state(false);
    let fx = s.navigate_to(Screen::Home);
    assert_eq!(fx.len(), 1);
    assert!(matches!(fx[0], Effect::LoadHomeSections));
    s.home_recent_movies = vec![item("m", None)];
    let fx = s.navigate_to(Screen::Home);
    assert!(fx.is_empty());
    let fx = s.navigate_to(Screen::Settings);
    assert!(fx.is_empty());
    assert_eq!(s.current_screen, Screen::Settings);
}

#[test]
fn admin_actions_refresh_tasks_for_admins_only() {
    let mut s = signed_in_state(false);
    let fx = s.handle_message(Message::ActionDone("Library scan started".to_string()));
    assert_eq!(s.status_line, "Library scan started");
    assert!(fx.is_empty());
    let mut s = signed_in_state(true);
    let fx = s.handle_message(Message::ActionDone("done".to_string()));
    assert_eq!(fx.len(), 2);
    assert!(matches!(fx[0], Effect::LoadTasks));
    assert!(matches!(fx[1], Effect::LoadVirtualFolders));
}

#[test]
fn launching_records_a_fresh_session() {
    let s = playing_state(false);
    let pv = s.playback.clone().unwrap();
    assert_eq!(pv.generation, 7);
    assert_eq!(pv.position_ticks, 0);
    assert_eq!(pv.status_text, "Playing");
    assert_eq!(pv.mpv_socket_path.as_deref(), Some("/tmp/mpv.sock"));
    assert_eq!(s.status_line, "Playback launched with mpv");
}

#[test]
fn a_failed_direct_launch_retries_transcoding_once() {
    let mut s = signed_in_state(false);
    let fx = s.launch_failed(prepared(false, Some("http://server/transcode")), Some("no mpv".to_string()));
    assert_eq!(s.status_line, "Direct launch failed, retrying with transcode...");
    match &fx[..] {
        [Effect::LaunchPlayer(p)] => {
            assert!(p.used_transcode);
            assert_eq!(p.stream_url, "http://server/transcode");
            assert!(p.transcode_stream_url.is_none());
        }
        other => panic!("unexpected effects {other:?}"),
    }
    let fx = s.launch_failed(prepared(true, None), Some("no vlc".to_string()));
    assert!(fx.is_empty());
    assert_eq!(s.status_line, "Failed to launch external player: no vlc");
}

#[test]
fn an_exit_of_an_older_session_is_ignored() {
    let mut s = playing_state(false);
    let fx = s.handle_message(Message::PlayerExited { generation: 6, elapsed_seconds: 1 });
    assert!(fx.is_empty());
    assert!(s.playback.is_some());
}

#[test]
fn a_quick_direct_exit_retries_with_transcoding() {
    let mut s = playing_state(false);
    let fx = s.handle_message(Message::PlayerExited { generation: 7, elapsed_seconds: 2 });
    assert!(s.playback.is_none());
    assert_eq!(s.status_line, "Direct playback exited quickly; retrying transcode...");
    assert_eq!(fx.len(), 3);
    assert!(matches!(fx[0], Effect::EndProgressReports));
    assert!(matches!(&fx[1], Effect::RemoveFile(p) if p == "/tmp/mpv.sock"));
    match &fx[2] {
        Effect::LaunchPlayer(p) => {
            assert_eq!(p.stream_url, "http://server/transcode");
            assert!(p.used_transcode);
            assert_eq!(p.item_id, "movie");
        }
        other => panic!("unexpected effect {other:?}"),
    }
}

#[test]
fn an_exit_after_progress_reports_the_position() {
    let mut s = playing_state(false);
    s.subtitle_temp_path = Some("/tmp/sub.srt".to_string());
    s.subtitle_panel_open = true;
    s.handle_message(Message::ProgressTick { position_ticks: 5_000, is_paused: true });
    let pv = s.playback.clone().unwrap();
    assert_eq!(pv.position_ticks, 5_000);
    assert_eq!(pv.status_text, "Paused");
    let fx = s.handle_message(Message::PlayerExited { generation: 7, elapsed_seconds: 2 });
    assert_eq!(s.status_line, "Playback ended");
    assert!(s.playback.is_none() && s.subtitle_temp_path.is_none() && !s.subtitle_panel_open);
    assert_eq!(fx.len(), 4);
    assert!(matches!(&fx[2], Effect::RemoveFile(p) if p == "/tmp/sub.srt"));
    match &fx[3] {
        Effect::ReportStop { playback, position_ticks } => {
            assert_eq!(*position_ticks, 5_000);
            assert_eq!(playback.generation, 7);
        }
        other => panic!("unexpected effect {other:?}"),
    }
}

#[test]
fn stopping_reports_the_last_position() {
    let mut s = playing_state(true);
    s.handle_message(Message::ProgressTick { position_ticks: 42, is_paused: false });
    let fx = s.stop_playback();
    assert_eq!(s.status_line, "Stopping playback...");
    assert!(s.playback.is_none());
    assert_eq!(fx.len(), 3);
    assert!(matches!(fx[2], Effect::ReportStop { position_ticks: 42, .. }));
    let fx = s.stop_playback();
    assert_eq!(fx.len(), 1);
    assert!(matches!(fx[0], Effect::EndProgressReports));
}

#[test]
fn a_stopped_item_refreshes_the_shown_views() {
    let mut s = playing_state(false);
    s.current_screen = Screen::Details;
    let fx = s.handle_message(Message::PlaybackStopped { item_id: "movie".to_string() });
    assert!(s.playback.is_none());
    assert_eq!(fx.len(), 3);
    assert!(matches!(&fx[0], Effect::LoadItemDetail(id) if id == "movie"));
    assert!(matches!(fx[1], Effect::LoadHomeSections));
    assert!(matches!(fx[2], Effect::LoadLastPlayed));

    let mut s = signed_in_state(false);
    s.current_screen = Screen::Playlists;
    s.selected_playlist_id = Some("p".to_string());
    let fx = s.handle_message(Message::MarkPlayedDone { item_id: "movie".to_string() });
    assert_eq!(s.status_line, "Marked played");
    assert_eq!(fx.len(), 2);
    let fx = s.handle_message(Message::PlaybackStopped { item_id: "movie".to_string() });
    assert_eq!(fx.len(), 3);
    assert!(matches!(&fx[2], Effect::LoadPlaylistItems(id) if id == "p"));
}

#[test]
fn adding_to_a_playlist_selects_and_reloads_it() {
    let mut s = signed_in_state(false);
    s.current_screen = Screen::Details;
    let fx = s.handle_message(Message::PlaylistAddDone { playlist_id: "p".to_string(), item_id: "i".to_string() });
    assert_eq!(s.status_line, "Added item to playlist");
    assert_eq!(s.selected_playlist_id.as_deref(), Some("p"));
    assert_eq!(fx.len(), 2);
    assert!(matches!(&fx[1], Effect::LoadItemDetail(id) if id == "i"));
}

#[test]
fn a_downloaded_subtitle_is_kept_for_the_player() {
    let mut s = signed_in_state(false);
    s.handle_message(Message::SubtitleDownloaded { file_name: "a.srt".to_string(), path: "/tmp/a.srt".to_string() });
    assert_eq!(s.status_line, "Subtitle downloaded: a.srt");
    assert_eq!(s.subtitle_temp_path.as_deref(), Some("/tmp/a.srt"));
}

#[test]
fn a_shuffled_item_is_selected_and_played() {
    let mut s = signed_in_state(false);
    let fx = s.handle_message(Message::ShuffleItemReady(item("r", None)));
    assert_eq!(s.selected_item.as_ref().and_then(|i| i.id.as_deref()), Some("r"));
    assert!(matches!(fx[..], [Effect::StartPlayback]));
    let fx = s.handle_message(Message::PlaybackPrepared(prepared(false, None)));
    assert!(matches!(&fx[..], [Effect::LaunchPlayer(p)] if p.item_id == "movie"));
}

#[test]
fn item_deletion_needs_an_id_and_the_word_delete() {
    assert_eq!(item_to_delete("  abc ", " DELETE "), Some("abc".to_string()));
    assert_eq!(item_to_delete("abc", "delete"), None);
    assert_eq!(item_to_delete("   ", "DELETE"), None);
}

#[test]
fn library_deletion_needs_its_name_typed() {
    let selected = Some("Movies".to_string());
    assert_eq!(library_to_delete(&selected, " Movies "), Some("Movies".to_string()));
    assert_eq!(library_to_delete(&selected, "movies"), None);
    assert_eq!(library_to_delete(&None, ""), None);
    assert_eq!(library_to_delete(&Some(String::new()), ""), None);
}

#[test]
fn admin_requests_need_an_administrator_and_a_target() {
    let mut s = ClientState::new();
    s.status_line = "idle".to_string();
    assert!(!s.may_delete_item("x"));
    assert_eq!(s.status_line, "idle");

    let mut s = signed_in_state(false);
    assert!(!s.may_delete_library("Movies"));
    assert_eq!(s.status_line, "Admin privileges required");

    let mut s = signed_in_state(true);
    assert!(!s.may_delete_item("  "));
    assert_eq!(s.status_line, "Enter an item id");
    assert!(!s.may_delete_library(""));
    assert_eq!(s.status_line, "Select a library");
    assert!(s.may_delete_item("x"));
    assert!(!s.may_refresh_item(" "));
    assert_eq!(s.status_line, "Enter a library/item id");
    assert!(s.may_refresh_item("x"));
}

#[test]
fn actions_on_the_selection_need_an_item_with_an_id() {
    let mut s = signed_in_state(false);
    assert_eq!(s.selected_item_id(), None);
    assert_eq!(s.status_line, "Select an item first");
    let mut no_id = item("a", None);
    no_id.id = None;
    s.selected_item = Some(no_id);
    assert_eq!(s.selected_item_id(), None);
    assert_eq!(s.status_line, "Selected item has no id");
    s.selected_item = Some(item("a", None));
    s.status_line = "idle".to_string();
    assert_eq!(s.selected_item_id(), Some("a".to_string()));
    assert_eq!(s.status_line, "idle");
}

#[test]
fn picking_another_library_tab_loads_it() {
    let mut s = signed_in_state(false);
    let fx = s.select_library_section(LibrarySection::Movies);
    assert!(fx.is_empty());
    let fx = s.select_library_section(LibrarySection::Music);
    assert_eq!(s.current_library_section, LibrarySection::Music);
    assert!(matches!(fx[..], [Effect::LoadLibraryItems(LibrarySection::Music)]));
}

#[test]
fn choosing_a_playlist_reloads_its_items() {
    let mut s = signed_in_state(false);
    s.playlist_items = vec![item("old", None)];
    let fx = s.choose_playlist("p9".to_string());
    assert_eq!(s.selected_playlist_id.as_deref(), Some("p9"));
    assert!(s.playlist_items.is_empty());
    assert!(matches!(&fx[..], [Effect::LoadPlaylistItems(id)] if id == "p9"));
}

#[test]
fn a_blank_search_drops_the_hints() {
    let mut s = signed_in_state(false);
    s.search_hints = vec![slimjelly::jellyfin::models::SearchHint {
        item_id: Some("h".to_string()),
        name: None,
        item_type: None,
    }];
    assert_eq!(s.begin_search("  matrix "), Some("matrix".to_string()));
    assert_eq!(s.status_line, "Searching...");
    assert_eq!(s.search_hints.len(), 1);
    assert_eq!(s.begin_search("   "), None);
    assert!(s.search_hints.is_empty());
}

#[test]
fn a_subtitle_search_names_its_query() {
    let mut s = signed_in_state(false);
    s.subtitle_search_results = Vec::new();
    s.begin_subtitle_search("Show S01E02");
    assert!(s.subtitle_search_loading);
    assert_eq!(s.status_line, "Searching subtitles for \"Show S01E02\"...");
}
