//! The client window's state and how it follows what the background work
//! reports: each message moves the state and asks for further work
//! (loads, player launches, file removals), which the program performs.

use vstd::prelude::*;

use crate::accounts::LoginSuccess;
use crate::browse::{LibrarySection, Screen};
use crate::episodes::{
    after_seasons_loaded, opt_eq_str, detail_plan_spec, episode_season_id, item_type_is, selection_view,
    EpisodeListAction, EpisodesArrival, SeasonSelection,
};
use crate::home::{navigate_load, navigate_load_spec, EmptyLists, ScreenLoad};
use crate::jellyfin::models::{
    BaseItemDto, MediaSourceInfo, SearchHint, TaskInfo, VirtualFolderInfo,
};
use crate::lists::{
    folder_selection_after_delete, folder_selection_after_load, folder_selection_spec,
    first_folder_name, playlist_selection_after_load, remove_folders_named, remove_items_with_id,
    without_id, without_name,
};
use crate::playback::{
    apply_progress, launched_status, on_launch_failed, on_player_exited, player_name, retry_transcode_spec,
    started_playback, status_text_spec, stop_ticks_spec, ExitAction,
    LaunchFailure, PlaybackView, PlayerKind,
};
use crate::secure_store::SessionToken;
use crate::seerr::models::{SeerrRequest, SeerrSearchResult};
use crate::status::{failure_heading, failure_status, listing_words, loaded_status, Failure, Listing};
use crate::browse::count_text_spec;
use crate::subtitles::models::SubtitleResult;
use crate::text::{chars_eq, chars_of, concat2, opt_text, push_str, string_of, trim, trim_str};

verus! {

/// The signed-in user.
#[derive(Debug, Clone, PartialEq, Eq)]
pub struct SessionView {
    pub user_id: String,
    pub user_name: String,
    pub is_admin: bool,
}

/// A stream ready to be handed to a player.
#[derive(Debug, Clone, PartialEq, Eq)]
pub struct PreparedPlayback {
    pub item_id: String,
    pub run_time_ticks: Option<i64>,
    pub stream_url: String,
    pub transcode_stream_url: Option<String>,
    pub used_transcode: bool,
    pub media_source_id: Option<String>,
    pub play_session_id: Option<String>,
}

/// What background work reports.
#[derive(Debug, Clone)]
pub enum Message {
    Failed(Failure, String),
    SessionValidated { user_name: String, is_admin: bool },
    HealthResult,
    ViewsLoaded(Vec<BaseItemDto>),
    SearchHintsLoaded(Vec<SearchHint>),
    SearchLoaded(Vec<BaseItemDto>),
    HomeContinueWatchingLoaded(Vec<BaseItemDto>),
    HomeRecentMoviesLoaded(Vec<BaseItemDto>),
    HomeRecentSeriesLoaded(Vec<BaseItemDto>),
    LibraryItemsLoaded { section: LibrarySection, items: Vec<BaseItemDto> },
    CollectionItemsLoaded(Vec<BaseItemDto>),
    VirtualFoldersLoaded(Vec<VirtualFolderInfo>),
    DetailSeasonsLoaded(Vec<BaseItemDto>),
    DetailEpisodesLoaded { season_id: String, items: Vec<BaseItemDto> },
    DetailRelatedLoaded(Vec<BaseItemDto>),
    DetailTechLoaded(Option<MediaSourceInfo>),
    PlaylistsLoaded(Vec<BaseItemDto>),
    PlaylistItemsLoaded { playlist_id: String, items: Vec<BaseItemDto> },
    LastPlayedLoaded(Option<BaseItemDto>),
    ItemLoaded(BaseItemDto),
    PlaybackPrepared(PreparedPlayback),
    PlayerExited { generation: u64, elapsed_seconds: u64 },
    ProgressTick { position_ticks: i64, is_paused: bool },
    PlaybackStopped { item_id: String },
    TasksLoaded(Vec<TaskInfo>),
    ActionDone(String),
    ShuffleItemReady(BaseItemDto),
    PlaylistAddDone { playlist_id: String, item_id: String },
    MarkPlayedDone { item_id: String },
    MarkUnplayedDone { item_id: String },
    DeleteItemDone { item_id: String },
    DeleteLibraryDone { name: String },
    SubtitleSearchResults(Vec<SubtitleResult>),
    SubtitleDownloaded { file_name: String, path: String },
    SeerrSearchLoaded(Vec<SeerrSearchResult>),
    SeerrRequestsLoaded(Vec<SeerrRequest>),
    SeerrNotice(String),
}

/// Work the state asks the program to do.
#[derive(Debug, Clone)]
pub enum Effect {
    StoreSession(SessionToken),
    ClearSession,
    ValidateSession,
    RefreshHealth,
    LoadViews,
    LoadHomeSections,
    LoadLastPlayed,
    LoadLibraryItems(LibrarySection),
    LoadCollections,
    Search,
    LoadPlaylists,
    LoadPlaylistItems(String),
    LoadItemDetail(String),
    LoadSeasons(String),
    LoadEpisodes(String),
    LoadRelated,
    LoadTech,
    LoadTasks,
    LoadVirtualFolders,
    /// Open the first of the shown episodes in episode order.
    OpenFirstEpisode,
    StartPlayback,
    LaunchPlayer(PreparedPlayback),
    /// Stop the progress reports of the running session.
    EndProgressReports,
    RemoveFile(String),
    ReportStop { playback: PlaybackView, position_ticks: i64 },
}

/// The state of the client window.
#[derive(Debug, Clone)]
pub struct ClientState {
    pub current_screen: Screen,
    pub detail_return_screen: Screen,
    pub current_library_section: LibrarySection,
    pub status_line: String,
    pub session: Option<SessionView>,
    pub views: Vec<BaseItemDto>,
    pub library_items: Vec<BaseItemDto>,
    pub collection_items: Vec<BaseItemDto>,
    pub home_continue_watching: Vec<BaseItemDto>,
    pub home_recent_movies: Vec<BaseItemDto>,
    pub home_recent_series: Vec<BaseItemDto>,
    pub detail_seasons: Vec<BaseItemDto>,
    pub seasons: SeasonSelection,
    pub detail_episodes: Vec<BaseItemDto>,
    pub detail_related: Vec<BaseItemDto>,
    pub detail_media_source: Option<MediaSourceInfo>,
    pub playlists: Vec<BaseItemDto>,
    pub selected_playlist_id: Option<String>,
    pub playlist_items: Vec<BaseItemDto>,
    pub last_played_item: Option<BaseItemDto>,
    pub search_hints: Vec<SearchHint>,
    pub items: Vec<BaseItemDto>,
    pub selected_item: Option<BaseItemDto>,
    pub tasks: Vec<TaskInfo>,
    pub admin_virtual_folders: Vec<VirtualFolderInfo>,
    pub admin_selected_virtual_folder_name: Option<String>,
    pub admin_delete_item_confirm: String,
    pub admin_delete_library_confirm: String,
    pub subtitle_panel_open: bool,
    pub subtitle_search_loading: bool,
    pub subtitle_search_results: Vec<SubtitleResult>,
    pub subtitle_temp_path: Option<String>,
    pub subtitle_os_token: Option<String>,
    pub seerr_results: Vec<SeerrSearchResult>,
    pub seerr_requests: Vec<SeerrRequest>,
    pub playback: Option<PlaybackView>,
}

// ---------------------------------------------------------------------------
// What the steps do
// ---------------------------------------------------------------------------

/// The status line after a list of `n` entries arrived.
pub open spec fn loaded_text(l: Listing, n: nat) -> Seq<char> {
    listing_words(l).0 + count_text_spec(n, listing_words(l).1, listing_words(l).2)
}

/// The loads that refresh the admin screen: tasks and libraries, for an
/// administrator only.
pub open spec fn tasks_effects(s: ClientState) -> Seq<Effect> {
    if s.session matches Some(v) && v.is_admin {
        seq![Effect::LoadTasks, Effect::LoadVirtualFolders]
    } else {
        seq![]
    }
}

/// `seq![x]` when `b`, else empty.
pub open spec fn when(b: bool, x: Effect) -> Seq<Effect> {
    if b {
        seq![x]
    } else {
        seq![]
    }
}

/// The reloads after an item changed state: the shown item's details (when
/// the details screen is open and the item is known), the home rows and the
/// last played item always, and each list whose screen is shown (the
/// collections, search and playlist ones only when asked for, the playlist
/// only when one is selected).
pub open spec fn refresh_effects(
    s: ClientState,
    detail_item: Option<String>,
    collections: bool,
    search: bool,
    playlists: bool,
) -> Seq<Effect> {
    (match detail_item {
        Some(id) => when(s.current_screen == Screen::Details, Effect::LoadItemDetail(id)),
        None => seq![],
    }) + seq![Effect::LoadHomeSections, Effect::LoadLastPlayed] + when(
        s.current_screen == Screen::Libraries,
        Effect::LoadLibraryItems(s.current_library_section),
    ) + when(collections && s.current_screen == Screen::Collections, Effect::LoadCollections)
        + when(search && s.current_screen == Screen::Search, Effect::Search) + (
    match s.selected_playlist_id {
        Some(p) => when(playlists && s.current_screen == Screen::Playlists, Effect::LoadPlaylistItems(p)),
        None => seq![],
    })
}

/// The removal of a file, where there is one.
pub open spec fn removal(path: Option<String>) -> Seq<Effect> {
    match path {
        Some(p) => seq![Effect::RemoveFile(p)],
        None => seq![],
    }
}

/// The state after the temporary subtitle was dropped: no file, no search
/// results, the panel closed.
pub open spec fn subtitles_cleared(new: ClientState) -> bool {
    &&& new.subtitle_temp_path is None
    &&& new.subtitle_search_results@.len() == 0
    &&& !new.subtitle_panel_open
}

/// What opening the details of the item selected in `old` does: the plan of
/// `detail_plan_spec` applied to the lists and the season selection, with
/// the loads it asks for.
pub open spec fn detail_sections_step(old: ClientState, new: ClientState, fx: Seq<Effect>) -> bool {
    let (plan, sel) = detail_plan_spec(old.seasons, old.selected_item);
    let seasons_of = match old.selected_item {
        Some(it) => if item_type_is(it, "Series"@) {
            it.id
        } else if item_type_is(it, "Episode"@) {
            it.series_id
        } else {
            None
        },
        None => None,
    };
    let episodes_of = match old.selected_item {
        Some(it) => if !item_type_is(it, "Series"@) && item_type_is(it, "Episode"@) {
            episode_season_id(it)
        } else {
            None
        },
        None => None,
    };
    &&& selection_view(new.seasons) == sel
    &&& new.detail_seasons@ == if plan.0 { Seq::empty() } else { old.detail_seasons@ }
    &&& new.detail_episodes@ == if plan.1 { Seq::empty() } else { old.detail_episodes@ }
    &&& new.detail_related@ == if plan.4 { Seq::empty() } else { old.detail_related@ }
    &&& new.detail_media_source == if plan.4 { None } else { old.detail_media_source }
    &&& new == ClientState {
        seasons: new.seasons,
        detail_seasons: new.detail_seasons,
        detail_episodes: new.detail_episodes,
        detail_related: new.detail_related,
        detail_media_source: new.detail_media_source,
        ..old
    }
    &&& fx == (match episodes_of {
        Some(e) => seq![Effect::LoadEpisodes(e)],
        None => seq![],
    }) + (match seasons_of {
        Some(s) => seq![Effect::LoadSeasons(s)],
        None => seq![],
    }) + if plan.5 {
        seq![Effect::LoadRelated, Effect::LoadTech]
    } else {
        seq![]
    }
}

/// What opening the details of `item` does: the details screen shows it,
/// returning to `ret`; its full record is loaded, then its sections.
pub open spec fn open_details_step(
    old: ClientState,
    item: BaseItemDto,
    ret: Screen,
    new: ClientState,
    fx: Seq<Effect>,
) -> bool {
    let mid = ClientState {
        detail_return_screen: ret,
        current_screen: Screen::Details,
        selected_item: Some(item),
        ..old
    };
    let first = match item.id {
        Some(id) => seq![Effect::LoadItemDetail(id)],
        None => seq![],
    };
    &&& fx.len() >= first.len()
    &&& fx.subrange(0, first.len() as int) == first
    &&& detail_sections_step(mid, new, fx.subrange(first.len() as int, fx.len() as int))
}

/// Which lists are still empty.
pub open spec fn empty_lists(s: ClientState) -> EmptyLists {
    EmptyLists {
        continue_watching: s.home_continue_watching@.len() == 0,
        recent_movies: s.home_recent_movies@.len() == 0,
        search_items: s.items@.len() == 0,
        library_items: s.library_items@.len() == 0,
        collection_items: s.collection_items@.len() == 0,
        playlists: s.playlists@.len() == 0,
    }
}

/// The loads that opening `screen` starts.
pub open spec fn navigate_effects(s: ClientState, screen: Screen) -> Seq<Effect> {
    match navigate_load_spec(screen, empty_lists(s)) {
        Some(ScreenLoad::HomeSections) => seq![Effect::LoadHomeSections],
        Some(ScreenLoad::Search) => seq![Effect::Search],
        Some(ScreenLoad::LibraryItems) => seq![Effect::LoadLibraryItems(s.current_library_section)],
        Some(ScreenLoad::Collections) => seq![Effect::LoadCollections],
        Some(ScreenLoad::Playlists) => seq![Effect::LoadPlaylists],
        Some(ScreenLoad::Tasks) => tasks_effects(s),
        None => seq![],
    }
}

/// The loads after signing in or restoring a session.
pub open spec fn post_auth_effects(s: ClientState) -> Seq<Effect> {
    seq![
        Effect::LoadViews,
        Effect::LoadHomeSections,
        Effect::LoadLibraryItems(s.current_library_section),
        Effect::LoadCollections,
        Effect::LoadPlaylists,
        Effect::LoadLastPlayed,
        Effect::Search,
    ]
}

/// A launch of `p` again, transcoding this time with `url`.
pub open spec fn transcode_retry(p: PreparedPlayback, url: String) -> PreparedPlayback {
    PreparedPlayback { stream_url: url, used_transcode: true, transcode_stream_url: None, ..p }
}

/// The relaunch of the session `p` with the transcoding URL `url`.
pub open spec fn session_retry(p: PlaybackView, url: String) -> PreparedPlayback {
    PreparedPlayback {
        item_id: p.item_id,
        run_time_ticks: p.run_time_ticks,
        stream_url: url,
        transcode_stream_url: None,
        used_transcode: true,
        media_source_id: p.media_source_id,
        play_session_id: p.play_session_id,
    }
}

/// `new` is `old` with only the status line changed, to `text`.
pub open spec fn status_only(old: ClientState, new: ClientState, text: Seq<char>) -> bool {
    new.status_line@ == text && new == ClientState { status_line: new.status_line, ..old }
}

/// The state and the work that follow `msg` in the state `old`.
pub open spec fn handled(old: ClientState, msg: Message, new: ClientState, fx: Seq<Effect>) -> bool {
    match msg {
        Message::Failed(kind, m) => {
            &&& new.status_line@ == failure_heading(kind) + m@
            &&& new == ClientState {
                status_line: new.status_line,
                subtitle_search_loading: if kind == Failure::SubtitleSearch {
                    false
                } else {
                    old.subtitle_search_loading
                },
                ..old
            }
            &&& fx.len() == 0
        },
        Message::SessionValidated { user_name, is_admin } => {
            &&& new.status_line@ == "Session validated"@
            &&& new == ClientState {
                status_line: new.status_line,
                session: match old.session {
                    Some(v) => Some(SessionView { user_name, is_admin, ..v }),
                    None => None,
                },
                ..old
            }
            &&& fx.len() == 0
        },
        Message::HealthResult => status_only(old, new, "Server health updated"@) && fx.len() == 0,
        Message::ViewsLoaded(v) => {
            &&& new.status_line@ == loaded_text(Listing::Libraries, v@.len())
            &&& new == ClientState { views: v, status_line: new.status_line, ..old }
            &&& fx.len() == 0
        },
        Message::SearchHintsLoaded(h) => new == ClientState { search_hints: h, ..old } && fx.len() == 0,
        Message::SearchLoaded(v) => {
            &&& new.status_line@ == loaded_text(Listing::SearchItems, v@.len())
            &&& new == ClientState { items: v, status_line: new.status_line, ..old }
            &&& fx.len() == 0
        },
        Message::HomeContinueWatchingLoaded(v) => new == ClientState {
            home_continue_watching: v,
            ..old
        } && fx.len() == 0,
        Message::HomeRecentMoviesLoaded(v) => new == ClientState { home_recent_movies: v, ..old }
            && fx.len() == 0,
        Message::HomeRecentSeriesLoaded(v) => new == ClientState { home_recent_series: v, ..old }
            && fx.len() == 0,
        Message::LibraryItemsLoaded { section, items } => {
            &&& if section == old.current_library_section {
                &&& new.status_line@ == loaded_text(Listing::LibraryItems, items@.len())
                &&& new == ClientState { library_items: items, status_line: new.status_line, ..old }
            } else {
                new == old
            }
            &&& fx.len() == 0
        },
        Message::CollectionItemsLoaded(v) => {
            &&& new.status_line@ == loaded_text(Listing::Collections, v@.len())
            &&& new == ClientState { collection_items: v, status_line: new.status_line, ..old }
            &&& fx.len() == 0
        },
        Message::VirtualFoldersLoaded(f) => {
            &&& opt_text(new.admin_selected_virtual_folder_name) == folder_selection_spec(
                f@,
                opt_text(old.admin_selected_virtual_folder_name),
            )
            &&& new == ClientState {
                admin_virtual_folders: f,
                admin_selected_virtual_folder_name: new.admin_selected_virtual_folder_name,
                ..old
            }
            &&& fx.len() == 0
        },
        Message::DetailSeasonsLoaded(seasons) => {
            let (sel, act) = after_seasons_loaded(
                old.seasons,
                seasons@,
                old.detail_episodes@.len() == 0,
            );
            &&& selection_view(new.seasons) == sel
            &&& new.detail_episodes@ == match act {
                Some(None) => old.detail_episodes@,
                _ => Seq::empty(),
            }
            &&& new == ClientState {
                detail_seasons: seasons,
                seasons: new.seasons,
                detail_episodes: new.detail_episodes,
                ..old
            }
            &&& match act {
                Some(Some(t)) => fx.len() == 1 && (fx[0] matches Effect::LoadEpisodes(x) && x@ == t),
                _ => fx.len() == 0,
            }
        },
        Message::DetailEpisodesLoaded { season_id, items } => {
            if opt_text(old.seasons.selected) != Some(season_id@) {
                new == old && fx.len() == 0
            } else {
                let awaited = opt_text(old.seasons.pending_next) == Some(season_id@);
                &&& selection_view(new.seasons) == (
                    Some(season_id@),
                    Some(season_id@),
                    if awaited {
                        None
                    } else {
                        opt_text(old.seasons.pending_next)
                    },
                )
                &&& new == ClientState { seasons: new.seasons, detail_episodes: items, ..old }
                &&& fx == if awaited {
                    seq![Effect::OpenFirstEpisode]
                } else {
                    seq![]
                }
            }
        },
        Message::DetailRelatedLoaded(v) => new == ClientState { detail_related: v, ..old } && fx.len()
            == 0,
        Message::DetailTechLoaded(m) => new == ClientState { detail_media_source: m, ..old }
            && fx.len() == 0,
        Message::PlaylistsLoaded(lists) => {
            &&& match old.selected_playlist_id {
                Some(_) => new == ClientState { playlists: lists, ..old } && fx.len() == 0,
                None => {
                    let first = if lists@.len() == 0 {
                        None
                    } else {
                        opt_text(lists@[0].id)
                    };
                    &&& opt_text(new.selected_playlist_id) == first
                    &&& new == ClientState {
                        playlists: lists,
                        selected_playlist_id: new.selected_playlist_id,
                        ..old
                    }
                    &&& match first {
                        Some(id) => fx.len() == 1 && (fx[0] matches Effect::LoadPlaylistItems(x)
                            && x@ == id),
                        None => fx.len() == 0,
                    }
                },
            }
        },
        Message::PlaylistItemsLoaded { playlist_id, items } => {
            &&& if opt_text(old.selected_playlist_id) == Some(playlist_id@) {
                new == ClientState { playlist_items: items, ..old }
            } else {
                new == old
            }
            &&& fx.len() == 0
        },
        Message::LastPlayedLoaded(i) => new == ClientState { last_played_item: i, ..old } && fx.len()
            == 0,
        Message::ItemLoaded(item) => {
            let mid = ClientState { selected_item: Some(item), ..old };
            if old.current_screen == Screen::Details {
                detail_sections_step(mid, new, fx)
            } else {
                new == mid && fx.len() == 0
            }
        },
        Message::PlaybackPrepared(p) => new == old && fx == seq![Effect::LaunchPlayer(p)],
        Message::PlayerExited { generation, elapsed_seconds } => match old.playback {
            Some(pv) => if pv.generation != generation {
                new == old && fx.len() == 0
            } else if retry_transcode_spec(pv, elapsed_seconds) {
                &&& new.status_line@ == "Direct playback exited quickly; retrying transcode..."@
                &&& new == ClientState { playback: None, status_line: new.status_line, ..old }
                &&& fx == seq![Effect::EndProgressReports] + removal(pv.mpv_socket_path) + seq![
                    Effect::LaunchPlayer(session_retry(pv, pv.transcode_stream_url->Some_0)),
                ]
            } else {
                let head = seq![Effect::EndProgressReports] + removal(pv.mpv_socket_path) + removal(
                    old.subtitle_temp_path,
                );
                &&& new.status_line@ == "Playback ended"@
                &&& subtitles_cleared(new)
                &&& new == ClientState {
                    playback: None,
                    status_line: new.status_line,
                    subtitle_temp_path: None,
                    subtitle_search_results: new.subtitle_search_results,
                    subtitle_panel_open: false,
                    ..old
                }
                &&& fx.len() == head.len() + 1
                &&& fx.subrange(0, head.len() as int) == head
                &&& fx.last() matches Effect::ReportStop { playback: q, position_ticks: t }
                &&& q == pv
                &&& t == stop_ticks_spec(pv, elapsed_seconds)
            },
            None => new == old && fx.len() == 0,
        },
        Message::ProgressTick { position_ticks, is_paused } => {
            &&& match old.playback {
                Some(pv) => {
                    &&& new.playback matches Some(q)
                    &&& q.status_text@ == status_text_spec(is_paused, pv.used_transcode)
                    &&& q == PlaybackView { position_ticks, is_paused, status_text: q.status_text, ..pv }
                    &&& new == ClientState { playback: new.playback, ..old }
                },
                None => new == old,
            }
            &&& fx.len() == 0
        },
        Message::PlaybackStopped { item_id } => {
            let refresh = refresh_effects(old, Some(item_id), true, true, true);
            if old.playback is Some {
                &&& subtitles_cleared(new)
                &&& new == ClientState {
                    playback: None,
                    subtitle_temp_path: None,
                    subtitle_search_results: new.subtitle_search_results,
                    subtitle_panel_open: false,
                    ..old
                }
                &&& fx == removal(old.subtitle_temp_path) + refresh
            } else {
                new == old && fx == refresh
            }
        },
        Message::TasksLoaded(t) => {
            &&& new.status_line@ == loaded_text(Listing::Tasks, t@.len())
            &&& new == ClientState { tasks: t, status_line: new.status_line, ..old }
            &&& fx.len() == 0
        },
        Message::ActionDone(m) => new == ClientState { status_line: m, ..old } && fx == tasks_effects(
            old,
        ),
        Message::ShuffleItemReady(item) => new == ClientState { selected_item: Some(item), ..old }
            && fx == seq![Effect::StartPlayback],
        Message::PlaylistAddDone { playlist_id, item_id } => {
            &&& new.status_line@ == "Added item to playlist"@
            &&& new == ClientState {
                status_line: new.status_line,
                selected_playlist_id: Some(playlist_id),
                ..old
            }
            &&& fx == seq![Effect::LoadPlaylistItems(playlist_id)] + when(
                old.current_screen == Screen::Details,
                Effect::LoadItemDetail(item_id),
            )
        },
        Message::MarkPlayedDone { item_id } => status_only(old, new, "Marked played"@) && fx
            == refresh_effects(old, Some(item_id), false, false, false),
        Message::MarkUnplayedDone { item_id } => status_only(old, new, "Marked unplayed"@) && fx
            == refresh_effects(old, Some(item_id), false, false, false),
        Message::DeleteItemDone { item_id } => {
            let shown = old.selected_item matches Some(it) && opt_text(it.id) == Some(item_id@);
            &&& new.status_line@ == "Item deleted"@
            &&& new.admin_delete_item_confirm@.len() == 0
            &&& new.home_continue_watching@ == without_id(old.home_continue_watching@, item_id@)
            &&& new.home_recent_movies@ == without_id(old.home_recent_movies@, item_id@)
            &&& new.home_recent_series@ == without_id(old.home_recent_series@, item_id@)
            &&& new.library_items@ == without_id(old.library_items@, item_id@)
            &&& new.collection_items@ == without_id(old.collection_items@, item_id@)
            &&& new.items@ == without_id(old.items@, item_id@)
            &&& new.playlist_items@ == without_id(old.playlist_items@, item_id@)
            &&& new.detail_related@ == without_id(old.detail_related@, item_id@)
            &&& new.detail_episodes@ == without_id(old.detail_episodes@, item_id@)
            &&& new == ClientState {
                status_line: new.status_line,
                admin_delete_item_confirm: new.admin_delete_item_confirm,
                home_continue_watching: new.home_continue_watching,
                home_recent_movies: new.home_recent_movies,
                home_recent_series: new.home_recent_series,
                library_items: new.library_items,
                collection_items: new.collection_items,
                items: new.items,
                playlist_items: new.playlist_items,
                detail_related: new.detail_related,
                detail_episodes: new.detail_episodes,
                selected_item: if shown {
                    None
                } else {
                    old.selected_item
                },
                current_screen: if shown {
                    Screen::Admin
                } else {
                    old.current_screen
                },
                ..old
            }
            &&& fx == seq![
                Effect::LoadHomeSections,
                Effect::LoadLibraryItems(old.current_library_section),
                Effect::LoadCollections,
                Effect::Search,
                Effect::LoadPlaylists,
                Effect::LoadLastPlayed,
            ]
        },
        Message::DeleteLibraryDone { name } => {
            let was_selected = opt_text(old.admin_selected_virtual_folder_name) == Some(name@);
            &&& new.status_line@ == "Library '"@ + name@ + "' deleted"@
            &&& new.admin_delete_library_confirm@.len() == 0
            &&& new.admin_virtual_folders@ == without_name(old.admin_virtual_folders@, name@)
            &&& opt_text(new.admin_selected_virtual_folder_name) == if was_selected {
                first_folder_name(new.admin_virtual_folders@)
            } else {
                opt_text(old.admin_selected_virtual_folder_name)
            }
            &&& new == ClientState {
                status_line: new.status_line,
                admin_delete_library_confirm: new.admin_delete_library_confirm,
                admin_virtual_folders: new.admin_virtual_folders,
                admin_selected_virtual_folder_name: new.admin_selected_virtual_folder_name,
                ..old
            }
            &&& fx == seq![
                Effect::LoadVirtualFolders,
                Effect::LoadViews,
                Effect::LoadLibraryItems(old.current_library_section),
                Effect::LoadCollections,
                Effect::Search,
            ]
        },
        Message::SubtitleSearchResults(r) => {
            &&& new.status_line@ == loaded_text(Listing::SubtitleResults, r@.len())
            &&& new == ClientState {
                subtitle_search_results: r,
                subtitle_search_loading: false,
                status_line: new.status_line,
                ..old
            }
            &&& fx.len() == 0
        },
        Message::SubtitleDownloaded { file_name, path } => {
            &&& new.status_line@ == "Subtitle downloaded: "@ + file_name@
            &&& new == ClientState {
                subtitle_temp_path: Some(path),
                status_line: new.status_line,
                ..old
            }
            &&& fx.len() == 0
        },
        Message::SeerrSearchLoaded(r) => new == ClientState { seerr_results: r, ..old } && fx.len()
            == 0,
        Message::SeerrRequestsLoaded(r) => new == ClientState { seerr_requests: r, ..old } && fx.len()
            == 0,
        Message::SeerrNotice(m) => new == ClientState { status_line: m, ..old } && fx.len() == 0,
    }
}

// ---------------------------------------------------------------------------
// Steps
// ---------------------------------------------------------------------------

impl ClientState {
    /// The window before anyone signed in: the login screen, nothing
    /// loaded, "Ready" on the status line.
    pub fn new() -> (s: Self)
        ensures
            s.current_screen == Screen::Login,
            s.detail_return_screen == Screen::Home,
            s.current_library_section == LibrarySection::Movies,
            s.status_line@ == "Ready"@,
            s.session is None,
            s.views@.len() == 0,
            s.library_items@.len() == 0,
            s.collection_items@.len() == 0,
            s.home_continue_watching@.len() == 0,
            s.home_recent_movies@.len() == 0,
            s.home_recent_series@.len() == 0,
            s.detail_seasons@.len() == 0,
            selection_view(s.seasons) == (None::<Seq<char>>, None::<Seq<char>>, None::<Seq<char>>),
            s.detail_episodes@.len() == 0,
            s.detail_related@.len() == 0,
            s.detail_media_source is None,
            s.playlists@.len() == 0,
            s.selected_playlist_id is None,
            s.playlist_items@.len() == 0,
            s.last_played_item is None,
            s.search_hints@.len() == 0,
            s.items@.len() == 0,
            s.selected_item is None,
            s.tasks@.len() == 0,
            s.admin_virtual_folders@.len() == 0,
            s.admin_selected_virtual_folder_name is None,
            s.admin_delete_item_confirm@.len() == 0,
            s.admin_delete_library_confirm@.len() == 0,
            !s.subtitle_panel_open,
            !s.subtitle_search_loading,
            s.subtitle_search_results@.len() == 0,
            s.subtitle_temp_path is None,
            s.subtitle_os_token is None,
            s.seerr_results@.len() == 0,
            s.seerr_requests@.len() == 0,
            s.playback is None,
    {
        ClientState {
            current_screen: Screen::Login,
            detail_return_screen: Screen::Home,
            current_library_section: LibrarySection::Movies,
            status_line: String::from_str("Ready"),
            session: None,
            views: Vec::new(),
            library_items: Vec::new(),
            collection_items: Vec::new(),
            home_continue_watching: Vec::new(),
            home_recent_movies: Vec::new(),
            home_recent_series: Vec::new(),
            detail_seasons: Vec::new(),
            seasons: SeasonSelection::new(),
            detail_episodes: Vec::new(),
            detail_related: Vec::new(),
            detail_media_source: None,
            playlists: Vec::new(),
            selected_playlist_id: None,
            playlist_items: Vec::new(),
            last_played_item: None,
            search_hints: Vec::new(),
            items: Vec::new(),
            selected_item: None,
            tasks: Vec::new(),
            admin_virtual_folders: Vec::new(),
            admin_selected_virtual_folder_name: None,
            admin_delete_item_confirm: String::new(),
            admin_delete_library_confirm: String::new(),
            subtitle_panel_open: false,
            subtitle_search_loading: false,
            subtitle_search_results: Vec::new(),
            subtitle_temp_path: None,
            subtitle_os_token: None,
            seerr_results: Vec::new(),
            seerr_requests: Vec::new(),
            playback: None,
        }
    }

    /// The reloads after the item `detail_item` (if known) changed state.
    pub fn refresh_after_item_change(
        &self,
        detail_item: Option<String>,
        collections: bool,
        search: bool,
        playlists: bool,
    ) -> (fx: Vec<Effect>)
        ensures
            fx@ == refresh_effects(*self, detail_item, collections, search, playlists),
    {
        let mut fx: Vec<Effect> = Vec::new();
        if let Some(id) = detail_item {
            if self.current_screen == Screen::Details {
                fx.push(Effect::LoadItemDetail(id));
            }
        }
        let ghost a = fx@;
        fx.push(Effect::LoadHomeSections);
        fx.push(Effect::LoadLastPlayed);
        let ghost b = fx@;
        assert(b =~= a + seq![Effect::LoadHomeSections, Effect::LoadLastPlayed]);
        if self.current_screen == Screen::Libraries {
            fx.push(Effect::LoadLibraryItems(self.current_library_section));
        }
        let ghost c = fx@;
        assert(c =~= b + when(
            self.current_screen == Screen::Libraries,
            Effect::LoadLibraryItems(self.current_library_section),
        ));
        if collections && self.current_screen == Screen::Collections {
            fx.push(Effect::LoadCollections);
        }
        let ghost d = fx@;
        assert(d =~= c + when(collections && self.current_screen == Screen::Collections, Effect::LoadCollections));
        if search && self.current_screen == Screen::Search {
            fx.push(Effect::Search);
        }
        let ghost e = fx@;
        assert(e =~= d + when(search && self.current_screen == Screen::Search, Effect::Search));
        if let Some(p) = &self.selected_playlist_id {
            if playlists && self.current_screen == Screen::Playlists {
                fx.push(Effect::LoadPlaylistItems(p.clone()));
            }
        }
        assert(fx@ =~= e + match self.selected_playlist_id {
            Some(p) => when(playlists && self.current_screen == Screen::Playlists, Effect::LoadPlaylistItems(p)),
            None => seq![],
        });
        fx
    }

    /// The loads that refresh the admin screen.
    pub fn tasks_refresh(&self) -> (fx: Vec<Effect>)
        ensures
            fx@ == tasks_effects(*self),
    {
        let mut fx: Vec<Effect> = Vec::new();
        if let Some(v) = &self.session {
            if v.is_admin {
                fx.push(Effect::LoadTasks);
                fx.push(Effect::LoadVirtualFolders);
            }
        }
        assert(fx@ =~= tasks_effects(*self));
        fx
    }

    /// Turns the details screen to the selected item: clears what does not
    /// belong to it and asks for its seasons, episodes, related items and
    /// media details.
    pub fn load_detail_sections(&mut self) -> (fx: Vec<Effect>)
        ensures
            detail_sections_step(*old(self), *final(self), fx@),
    {
        let ghost old_state = *self;
        let plan = self.seasons.plan_detail_sections(&self.selected_item);
        if plan.clear_seasons {
            self.detail_seasons = Vec::new();
        }
        if plan.clear_episodes {
            self.detail_episodes = Vec::new();
        }
        if plan.clear_related_and_media {
            self.detail_related = Vec::new();
            self.detail_media_source = None;
        }
        let mut fx: Vec<Effect> = Vec::new();
        if let Some(e) = plan.load_episodes_of {
            fx.push(Effect::LoadEpisodes(e));
        }
        let ghost a = fx@;
        if let Some(s) = plan.load_seasons_of {
            fx.push(Effect::LoadSeasons(s));
        }
        let ghost b = fx@;
        if plan.load_related_and_tech {
            fx.push(Effect::LoadRelated);
            fx.push(Effect::LoadTech);
        }
        proof {
            let (pl, _) = detail_plan_spec(old_state.seasons, old_state.selected_item);
            assert(b =~= a + match plan.load_seasons_of {
                Some(s) => seq![Effect::LoadSeasons(s)],
                None => seq![],
            });
            assert(fx@ =~= b + if pl.5 {
                seq![Effect::LoadRelated, Effect::LoadTech]
            } else {
                seq![]
            });
            assert(*self == ClientState {
                seasons: self.seasons,
                detail_seasons: self.detail_seasons,
                detail_episodes: self.detail_episodes,
                detail_related: self.detail_related,
                detail_media_source: self.detail_media_source,
                ..old_state
            });
        }
        fx
    }

    /// Opens the details of `item`, returning to `return_screen`.
    pub fn open_item_details(&mut self, item: BaseItemDto, return_screen: Screen) -> (fx: Vec<Effect>)
        ensures
            open_details_step(*old(self), item, return_screen, *final(self), fx@),
    {
        self.detail_return_screen = return_screen;
        self.current_screen = Screen::Details;
        let first: Option<String> = match &item.id {
            Some(id) => Some(id.clone()),
            None => None,
        };
        self.selected_item = Some(item);
        let mut fx: Vec<Effect> = Vec::new();
        if let Some(id) = first {
            fx.push(Effect::LoadItemDetail(id));
        }
        let ghost head = fx@;
        let mut rest = self.load_detail_sections();
        let ghost rest_fx = rest@;
        fx.append(&mut rest);
        assert(fx@.subrange(0, head.len() as int) =~= head);
        assert(fx@.subrange(head.len() as int, fx@.len() as int) =~= rest_fx);
        fx
    }

    /// Opens the first episode of a season that a "next season" step
    /// waited for (`first`, the first in episode order), or reports that
    /// the season has none.
    pub fn open_first_episode(&mut self, first: Option<BaseItemDto>) -> (fx: Vec<Effect>)
        ensures
            match first {
                Some(item) => open_details_step(*old(self), item, old(self).detail_return_screen, *final(self), fx@),
                None => status_only(*old(self), *final(self), "No episodes found in the next season"@)
                    && fx@.len() == 0,
            },
    {
        match first {
            Some(item) => {
                let ret = self.detail_return_screen;
                self.open_item_details(item, ret)
            },
            None => {
                self.status_line = String::from_str("No episodes found in the next season");
                Vec::new()
            },
        }
    }

    fn post_auth_loads(&self) -> (fx: Vec<Effect>)
        ensures
            fx@ == post_auth_effects(*self),
    {
        let mut fx: Vec<Effect> = Vec::new();
        fx.push(Effect::LoadViews);
        fx.push(Effect::LoadHomeSections);
        fx.push(Effect::LoadLibraryItems(self.current_library_section));
        fx.push(Effect::LoadCollections);
        fx.push(Effect::LoadPlaylists);
        fx.push(Effect::LoadLastPlayed);
        fx.push(Effect::Search);
        assert(fx@ =~= post_auth_effects(*self));
        fx
    }

    /// Moves to `screen`, loading its list the first time it is opened.
    pub fn navigate_to(&mut self, screen: Screen) -> (fx: Vec<Effect>)
        ensures
            *final(self) == (ClientState { current_screen: screen, ..*old(self) }),
            fx@ == navigate_effects(*old(self), screen),
    {
        let empty = EmptyLists {
            continue_watching: self.home_continue_watching.len() == 0,
            recent_movies: self.home_recent_movies.len() == 0,
            search_items: self.items.len() == 0,
            library_items: self.library_items.len() == 0,
            collection_items: self.collection_items.len() == 0,
            playlists: self.playlists.len() == 0,
        };
        let fx = match navigate_load(screen, empty) {
            Some(ScreenLoad::HomeSections) => {
                let mut v: Vec<Effect> = Vec::new();
                v.push(Effect::LoadHomeSections);
                v
            },
            Some(ScreenLoad::Search) => {
                let mut v: Vec<Effect> = Vec::new();
                v.push(Effect::Search);
                v
            },
            Some(ScreenLoad::LibraryItems) => {
                let mut v: Vec<Effect> = Vec::new();
                v.push(Effect::LoadLibraryItems(self.current_library_section));
                v
            },
            Some(ScreenLoad::Collections) => {
                let mut v: Vec<Effect> = Vec::new();
                v.push(Effect::LoadCollections);
                v
            },
            Some(ScreenLoad::Playlists) => {
                let mut v: Vec<Effect> = Vec::new();
                v.push(Effect::LoadPlaylists);
                v
            },
            Some(ScreenLoad::Tasks) => self.tasks_refresh(),
            None => Vec::new(),
        };
        proof {
            assert(empty == empty_lists(*self));
        }
        self.current_screen = screen;
        assert(fx@ =~= navigate_effects(*old(self), screen));
        fx
    }

    /// The user picked the season `season_id`: its episodes are loaded.
    pub fn select_detail_season(&mut self, season_id: String) -> (fx: Vec<Effect>)
        ensures
            selection_view(final(self).seasons) == (Some(season_id@), Some(season_id@), None::<Seq<char>>),
            final(self).detail_episodes@.len() == 0,
            *final(self) == (ClientState {
                seasons: final(self).seasons,
                detail_episodes: final(self).detail_episodes,
                ..*old(self)
            }),
            fx@ == seq![Effect::LoadEpisodes(season_id)],
    {
        self.seasons.select_season(season_id.clone());
        self.detail_episodes = Vec::new();
        let mut fx: Vec<Effect> = Vec::new();
        fx.push(Effect::LoadEpisodes(season_id));
        assert(fx@ =~= seq![Effect::LoadEpisodes(season_id)]);
        fx
    }

    /// "Next season" on a season finale: `season_id` is loaded, and its
    /// first episode opens when its episodes arrive.
    pub fn step_to_next_season(&mut self, season_id: String) -> (fx: Vec<Effect>)
        ensures
            selection_view(final(self).seasons) == (Some(season_id@), Some(season_id@), Some(season_id@)),
            final(self).detail_episodes@.len() == 0,
            *final(self) == (ClientState {
                seasons: final(self).seasons,
                detail_episodes: final(self).detail_episodes,
                ..*old(self)
            }),
            fx@ == seq![Effect::LoadEpisodes(season_id)],
    {
        self.seasons.step_to_next_season(season_id.clone());
        self.detail_episodes = Vec::new();
        let mut fx: Vec<Effect> = Vec::new();
        fx.push(Effect::LoadEpisodes(season_id));
        assert(fx@ =~= seq![Effect::LoadEpisodes(season_id)]);
        fx
    }

    /// A login succeeded and its client was built: the user is signed in,
    /// the home screen shows, the session is stored and everything loads.
    pub fn signed_in(&mut self, login: LoginSuccess) -> (fx: Vec<Effect>)
        ensures
            final(self).session == Some(
                SessionView { user_id: login.user_id, user_name: login.user_name, is_admin: login.is_admin },
            ),
            final(self).status_line@ == "Login successful"@,
            *final(self) == (ClientState {
                session: final(self).session,
                current_screen: Screen::Home,
                detail_return_screen: Screen::Home,
                status_line: final(self).status_line,
                ..*old(self)
            }),
            fx@ == seq![
                Effect::StoreSession(
                    SessionToken {
                        access_token: login.token,
                        user_id: login.user_id,
                        server_id: login.server_id,
                    },
                ),
            ] + post_auth_effects(*old(self)),
    {
        self.session = Some(
            SessionView {
                user_id: login.user_id.clone(),
                user_name: login.user_name,
                is_admin: login.is_admin,
            },
        );
        self.current_screen = Screen::Home;
        self.detail_return_screen = Screen::Home;
        self.status_line = String::from_str("Login successful");
        let mut fx: Vec<Effect> = Vec::new();
        fx.push(
            Effect::StoreSession(
                SessionToken {
                    access_token: login.token,
                    user_id: login.user_id,
                    server_id: login.server_id,
                },
            ),
        );
        let mut loads = self.post_auth_loads();
        fx.append(&mut loads);
        fx
    }

    /// A stored session was found and its client built: the user (named
    /// `user_name` until the server says otherwise, not an administrator)
    /// is signed in, and the session is checked and everything loads.
    pub fn session_restored(&mut self, token: SessionToken, user_name: String) -> (fx: Vec<Effect>)
        ensures
            final(self).session == Some(
                SessionView { user_id: token.user_id, user_name, is_admin: false },
            ),
            final(self).status_line@ == "Session restored"@,
            *final(self) == (ClientState {
                session: final(self).session,
                current_screen: Screen::Home,
                status_line: final(self).status_line,
                ..*old(self)
            }),
            fx@ == seq![Effect::ValidateSession, Effect::RefreshHealth] + post_auth_effects(*old(self)),
    {
        self.session = Some(SessionView { user_id: token.user_id, user_name, is_admin: false });
        self.current_screen = Screen::Home;
        self.status_line = String::from_str("Session restored");
        let mut fx: Vec<Effect> = Vec::new();
        fx.push(Effect::ValidateSession);
        fx.push(Effect::RefreshHealth);
        let mut loads = self.post_auth_loads();
        fx.append(&mut loads);
        fx
    }

    /// A player was started for `p`: a fresh session of `generation` runs.
    pub fn player_launched(
        &mut self,
        generation: u64,
        kind: PlayerKind,
        mpv_socket_path: Option<String>,
        p: PreparedPlayback,
    )
        ensures
            final(self).playback matches Some(pv) && pv.generation == generation && pv.item_id
                == p.item_id && pv.run_time_ticks == p.run_time_ticks && pv.player_kind == kind
                && pv.mpv_socket_path == mpv_socket_path && pv.used_transcode == p.used_transcode
                && pv.transcode_stream_url == p.transcode_stream_url && pv.media_source_id
                == p.media_source_id && pv.play_session_id == p.play_session_id
                && pv.position_ticks == 0 && !pv.is_paused && pv.status_text@ == status_text_spec(
                false,
                p.used_transcode,
            ),
            final(self).status_line@ == "Playback launched with "@ + player_name(kind) + if p.used_transcode {
                " (transcode fallback)"@
            } else {
                ""@
            },
            *final(self) == (ClientState {
                playback: final(self).playback,
                status_line: final(self).status_line,
                ..*old(self)
            }),
    {
        self.status_line = launched_status(kind, p.used_transcode);
        self.playback = Some(
            started_playback(
                generation,
                p.item_id,
                p.run_time_ticks,
                kind,
                mpv_socket_path,
                p.used_transcode,
                p.transcode_stream_url,
                p.media_source_id,
                p.play_session_id,
            ),
        );
    }

    /// No player could be started for `p`: retry transcoding once where
    /// direct play was tried and a transcoding URL is known, else report
    /// the last launch error.
    pub fn launch_failed(&mut self, p: PreparedPlayback, last_error: Option<String>) -> (fx: Vec<Effect>)
        ensures
            (!p.used_transcode && p.transcode_stream_url is Some) ==> status_only(
                *old(self),
                *final(self),
                "Direct launch failed, retrying with transcode..."@,
            ) && fx@ == seq![Effect::LaunchPlayer(transcode_retry(p, p.transcode_stream_url->Some_0))],
            !(!p.used_transcode && p.transcode_stream_url is Some) ==> status_only(
                *old(self),
                *final(self),
                "Failed to launch external player: "@ + match opt_text(last_error) {
                    Some(e) => e,
                    None => "unknown error"@,
                },
            ) && fx@.len() == 0,
    {
        let used_transcode = p.used_transcode;
        let url = match &p.transcode_stream_url {
            Some(u) => Some(u.clone()),
            None => None,
        };
        match on_launch_failed(used_transcode, url, last_error) {
            LaunchFailure::RetryTranscode(u) => {
                self.status_line = String::from_str("Direct launch failed, retrying with transcode...");
                let retry = PreparedPlayback {
                    stream_url: u,
                    used_transcode: true,
                    transcode_stream_url: None,
                    ..p
                };
                let mut fx: Vec<Effect> = Vec::new();
                fx.push(Effect::LaunchPlayer(retry));
                assert(fx@ =~= seq![Effect::LaunchPlayer(transcode_retry(p, p.transcode_stream_url->Some_0))]);
                fx
            },
            LaunchFailure::GiveUp(m) => {
                self.status_line = m;
                Vec::new()
            },
        }
    }

    /// The user stopped playback: the running session ends and its stop is
    /// reported at the last known position.
    pub fn stop_playback(&mut self) -> (fx: Vec<Effect>)
        ensures
            match old(self).playback {
                None => *final(self) == *old(self) && fx@ == seq![Effect::EndProgressReports],
                Some(pv) => {
                    &&& final(self).status_line@ == "Stopping playback..."@
                    &&& *final(self) == (ClientState {
                        playback: None,
                        status_line: final(self).status_line,
                        ..*old(self)
                    })
                    &&& fx@ == seq![Effect::EndProgressReports] + removal(pv.mpv_socket_path) + seq![
                        (Effect::ReportStop { playback: pv, position_ticks: pv.position_ticks }),
                    ]
                },
            },
    {
        let mut fx: Vec<Effect> = Vec::new();
        fx.push(Effect::EndProgressReports);
        match self.playback.take() {
            None => fx,
            Some(pv) => {
                if let Some(path) = &pv.mpv_socket_path {
                    fx.push(Effect::RemoveFile(path.clone()));
                }
                self.status_line = String::from_str("Stopping playback...");
                let ticks = pv.position_ticks;
                let ghost before = fx@;
                fx.push(Effect::ReportStop { playback: pv, position_ticks: ticks });
                assert(before =~= seq![Effect::EndProgressReports] + removal(pv.mpv_socket_path));
                fx
            },
        }
    }
}

/// The state after signing out of `old`: the login screen, no session, the
/// lists of the signed-in user, the season choice, the playback session,
/// the subtitle panel and the admin selections all dropped; "Logged out".
pub open spec fn logged_out_state(old: ClientState, new: ClientState) -> bool {
    &&& new.status_line@ == "Logged out"@
    &&& selection_view(new.seasons) == (None::<Seq<char>>, None::<Seq<char>>, None::<Seq<char>>)
    &&& new.items@.len() == 0
    &&& new.library_items@.len() == 0
    &&& new.collection_items@.len() == 0
    &&& new.home_continue_watching@.len() == 0
    &&& new.home_recent_movies@.len() == 0
    &&& new.home_recent_series@.len() == 0
    &&& new.detail_seasons@.len() == 0
    &&& new.detail_episodes@.len() == 0
    &&& new.detail_related@.len() == 0
    &&& new.views@.len() == 0
    &&& new.admin_virtual_folders@.len() == 0
    &&& new.admin_delete_item_confirm@.len() == 0
    &&& new.admin_delete_library_confirm@.len() == 0
    &&& new.subtitle_search_results@.len() == 0
    &&& new == ClientState {
        session: None,
        current_screen: Screen::Login,
        detail_return_screen: Screen::Home,
        status_line: new.status_line,
        seasons: new.seasons,
        items: new.items,
        library_items: new.library_items,
        collection_items: new.collection_items,
        home_continue_watching: new.home_continue_watching,
        home_recent_movies: new.home_recent_movies,
        home_recent_series: new.home_recent_series,
        detail_seasons: new.detail_seasons,
        detail_episodes: new.detail_episodes,
        detail_related: new.detail_related,
        detail_media_source: None,
        views: new.views,
        selected_item: None,
        playback: None,
        admin_virtual_folders: new.admin_virtual_folders,
        admin_selected_virtual_folder_name: None,
        admin_delete_item_confirm: new.admin_delete_item_confirm,
        admin_delete_library_confirm: new.admin_delete_library_confirm,
        subtitle_temp_path: None,
        subtitle_search_results: new.subtitle_search_results,
        subtitle_panel_open: false,
        subtitle_os_token: None,
        ..old
    }
}

/// The work of signing out of `old`: the progress reports end, the player's
/// socket and the temporary subtitle are removed, and the stored session is
/// cleared.
pub open spec fn logout_effects(old: ClientState) -> Seq<Effect> {
    seq![Effect::EndProgressReports] + removal(
        match old.playback {
            Some(pv) => pv.mpv_socket_path,
            None => None,
        },
    ) + seq![Effect::ClearSession] + removal(old.subtitle_temp_path)
}

impl ClientState {
    /// Signs out: everything of the session is dropped and the login
    /// screen shows.
    pub fn logged_out(&mut self) -> (fx: Vec<Effect>)
        ensures
            logged_out_state(*old(self), *final(self)),
            fx@ == logout_effects(*old(self)),
    {
        let mut fx: Vec<Effect> = Vec::new();
        fx.push(Effect::EndProgressReports);
        if let Some(pv) = &self.playback {
            if let Some(path) = &pv.mpv_socket_path {
                fx.push(Effect::RemoveFile(path.clone()));
            }
        }
        fx.push(Effect::ClearSession);
        if let Some(path) = self.subtitle_temp_path.take() {
            fx.push(Effect::RemoveFile(path));
        }
        assert(fx@ =~= logout_effects(*old(self)));
        self.session = None;
        self.current_screen = Screen::Login;
        self.detail_return_screen = Screen::Home;
        self.items = Vec::new();
        self.library_items = Vec::new();
        self.collection_items = Vec::new();
        self.home_continue_watching = Vec::new();
        self.home_recent_movies = Vec::new();
        self.home_recent_series = Vec::new();
        self.detail_seasons = Vec::new();
        self.seasons.clear();
        self.detail_episodes = Vec::new();
        self.detail_related = Vec::new();
        self.detail_media_source = None;
        self.views = Vec::new();
        self.selected_item = None;
        self.playback = None;
        self.admin_virtual_folders = Vec::new();
        self.admin_selected_virtual_folder_name = None;
        self.admin_delete_item_confirm = String::new();
        self.admin_delete_library_confirm = String::new();
        self.subtitle_search_results = Vec::new();
        self.subtitle_panel_open = false;
        self.subtitle_os_token = None;
        self.status_line = String::from_str("Logged out");
        fx
    }
}

impl ClientState {
    fn on_failed(&mut self, kind: Failure, m: String) -> (fx: Vec<Effect>)
        ensures
            handled(*old(self), Message::Failed(kind, m), *final(self), fx@),
    {
        if kind == Failure::SubtitleSearch {
            self.subtitle_search_loading = false;
        }
        self.status_line = failure_status(kind, m.as_str());
        Vec::new()
    }

    fn on_session_validated(&mut self, user_name: String, is_admin: bool) -> (fx: Vec<Effect>)
        ensures
            handled(*old(self), Message::SessionValidated { user_name, is_admin }, *final(self), fx@),
    {
        if let Some(v) = self.session.take() {
            self.session = Some(SessionView { user_name, is_admin, ..v });
        }
        self.status_line = String::from_str("Session validated");
        Vec::new()
    }

    fn on_virtual_folders(&mut self, folders: Vec<VirtualFolderInfo>) -> (fx: Vec<Effect>)
        ensures
            handled(*old(self), Message::VirtualFoldersLoaded(folders), *final(self), fx@),
    {
        let sel = folder_selection_after_load(&folders, &self.admin_selected_virtual_folder_name);
        self.admin_virtual_folders = folders;
        self.admin_selected_virtual_folder_name = sel;
        Vec::new()
    }

    fn on_seasons(&mut self, seasons: Vec<BaseItemDto>) -> (fx: Vec<Effect>)
        ensures
            handled(*old(self), Message::DetailSeasonsLoaded(seasons), *final(self), fx@),
    {
        let empty = self.detail_episodes.len() == 0;
        let act = self.seasons.on_seasons_loaded(&seasons, empty);
        self.detail_seasons = seasons;
        match act {
            EpisodeListAction::Clear => {
                self.detail_episodes = Vec::new();
                Vec::new()
            },
            EpisodeListAction::Reload(t) => {
                self.detail_episodes = Vec::new();
                let mut fx: Vec<Effect> = Vec::new();
                fx.push(Effect::LoadEpisodes(t));
                fx
            },
            EpisodeListAction::Keep => Vec::new(),
        }
    }

    fn on_episodes(&mut self, season_id: String, items: Vec<BaseItemDto>) -> (fx: Vec<Effect>)
        ensures
            handled(*old(self), Message::DetailEpisodesLoaded { season_id, items }, *final(self), fx@),
    {
        match self.seasons.on_episodes_loaded(season_id.as_str()) {
            EpisodesArrival::Ignore => Vec::new(),
            EpisodesArrival::Accept => {
                self.detail_episodes = items;
                Vec::new()
            },
            EpisodesArrival::AcceptAndOpenFirst => {
                self.detail_episodes = items;
                let mut fx: Vec<Effect> = Vec::new();
                fx.push(Effect::OpenFirstEpisode);
                assert(fx@ =~= seq![Effect::OpenFirstEpisode]);
                fx
            },
        }
    }

    fn on_playlists(&mut self, lists: Vec<BaseItemDto>) -> (fx: Vec<Effect>)
        ensures
            handled(*old(self), Message::PlaylistsLoaded(lists), *final(self), fx@),
    {
        if self.selected_playlist_id.is_some() {
            self.playlists = lists;
            return Vec::new();
        }
        let (sel, load) = playlist_selection_after_load(&lists, None);
        self.playlists = lists;
        let mut fx: Vec<Effect> = Vec::new();
        if load {
            if let Some(id) = &sel {
                fx.push(Effect::LoadPlaylistItems(id.clone()));
            }
        }
        self.selected_playlist_id = sel;
        fx
    }

    fn on_playlist_items(&mut self, playlist_id: String, items: Vec<BaseItemDto>) -> (fx: Vec<Effect>)
        ensures
            handled(*old(self), Message::PlaylistItemsLoaded { playlist_id, items }, *final(self), fx@),
    {
        if opt_eq_str(&self.selected_playlist_id, playlist_id.as_str()) {
            self.playlist_items = items;
        }
        Vec::new()
    }

    fn on_item_loaded(&mut self, item: BaseItemDto) -> (fx: Vec<Effect>)
        ensures
            handled(*old(self), Message::ItemLoaded(item), *final(self), fx@),
    {
        self.selected_item = Some(item);
        if self.current_screen == Screen::Details {
            self.load_detail_sections()
        } else {
            Vec::new()
        }
    }
}

impl ClientState {
    /// Drops the temporary subtitle: the effect that removes its file, if
    /// there is one.
    fn clear_subtitles(&mut self) -> (fx: Vec<Effect>)
        ensures
            fx@ == removal(old(self).subtitle_temp_path),
            subtitles_cleared(*final(self)),
            *final(self) == (ClientState {
                subtitle_temp_path: None,
                subtitle_search_results: final(self).subtitle_search_results,
                subtitle_panel_open: false,
                ..*old(self)
            }),
    {
        let mut fx: Vec<Effect> = Vec::new();
        if let Some(path) = self.subtitle_temp_path.take() {
            fx.push(Effect::RemoveFile(path));
        }
        self.subtitle_search_results = Vec::new();
        self.subtitle_panel_open = false;
        assert(fx@ =~= removal(old(self).subtitle_temp_path));
        fx
    }

    fn on_exit(&mut self, generation: u64, elapsed_seconds: u64) -> (fx: Vec<Effect>)
        ensures
            handled(
                *old(self),
                Message::PlayerExited { generation, elapsed_seconds },
                *final(self),
                fx@,
            ),
    {
        let action = on_player_exited(&self.playback, generation, elapsed_seconds);
        match action {
            ExitAction::Ignore => Vec::new(),
            ExitAction::RetryTranscode(url) => match self.playback.take() {
                None => Vec::new(),
                Some(pv) => {
                    let mut fx: Vec<Effect> = Vec::new();
                    fx.push(Effect::EndProgressReports);
                    if let Some(path) = &pv.mpv_socket_path {
                        fx.push(Effect::RemoveFile(path.clone()));
                    }
                    let ghost head = fx@;
                    self.status_line = String::from_str(
                        "Direct playback exited quickly; retrying transcode...",
                    );
                    let retry = PreparedPlayback {
                        item_id: pv.item_id,
                        run_time_ticks: pv.run_time_ticks,
                        stream_url: url,
                        transcode_stream_url: None,
                        used_transcode: true,
                        media_source_id: pv.media_source_id,
                        play_session_id: pv.play_session_id,
                    };
                    fx.push(Effect::LaunchPlayer(retry));
                    assert(head =~= seq![Effect::EndProgressReports] + removal(pv.mpv_socket_path));
                    assert(fx@ =~= head + seq![
                        Effect::LaunchPlayer(session_retry(pv, pv.transcode_stream_url->Some_0)),
                    ]);
                    fx
                },
            },
            ExitAction::ReportStop(ticks) => match self.playback.take() {
                None => Vec::new(),
                Some(pv) => {
                    let mut fx: Vec<Effect> = Vec::new();
                    fx.push(Effect::EndProgressReports);
                    if let Some(path) = &pv.mpv_socket_path {
                        fx.push(Effect::RemoveFile(path.clone()));
                    }
                    let ghost a = fx@;
                    let mut sub = self.clear_subtitles();
                    let ghost b = sub@;
                    fx.append(&mut sub);
                    self.status_line = String::from_str("Playback ended");
                    let ghost head = fx@;
                    fx.push(Effect::ReportStop { playback: pv, position_ticks: ticks });
                    assert(a =~= seq![Effect::EndProgressReports] + removal(pv.mpv_socket_path));
                    assert(head =~= a + b);
                    assert(fx@.subrange(0, head.len() as int) =~= head);
                    fx
                },
            },
        }
    }

    fn on_progress(&mut self, position_ticks: i64, is_paused: bool) -> (fx: Vec<Effect>)
        ensures
            handled(*old(self), Message::ProgressTick { position_ticks, is_paused }, *final(self), fx@),
    {
        if let Some(mut pv) = self.playback.take() {
            apply_progress(&mut pv, position_ticks, is_paused);
            self.playback = Some(pv);
        }
        Vec::new()
    }

    fn on_playback_stopped(&mut self, item_id: String) -> (fx: Vec<Effect>)
        ensures
            handled(*old(self), Message::PlaybackStopped { item_id }, *final(self), fx@),
    {
        let mut fx: Vec<Effect> = Vec::new();
        if self.playback.is_some() {
            self.playback = None;
            fx = self.clear_subtitles();
        }
        let ghost a = fx@;
        let mut refresh = self.refresh_after_item_change(Some(item_id), true, true, true);
        proof {
            assert(refresh_effects(*self, Some(item_id), true, true, true) == refresh_effects(
                *old(self),
                Some(item_id),
                true,
                true,
                true,
            ));
        }
        fx.append(&mut refresh);
        fx
    }

    fn on_delete_item(&mut self, item_id: String) -> (fx: Vec<Effect>)
        ensures
            handled(*old(self), Message::DeleteItemDone { item_id }, *final(self), fx@),
    {
        self.status_line = String::from_str("Item deleted");
        self.admin_delete_item_confirm = String::new();
        let id = item_id.as_str();
        remove_items_with_id(&mut self.home_continue_watching, id);
        remove_items_with_id(&mut self.home_recent_movies, id);
        remove_items_with_id(&mut self.home_recent_series, id);
        remove_items_with_id(&mut self.library_items, id);
        remove_items_with_id(&mut self.collection_items, id);
        remove_items_with_id(&mut self.items, id);
        remove_items_with_id(&mut self.playlist_items, id);
        remove_items_with_id(&mut self.detail_related, id);
        remove_items_with_id(&mut self.detail_episodes, id);
        let shown = match &self.selected_item {
            Some(it) => opt_eq_str(&it.id, id),
            None => false,
        };
        if shown {
            self.selected_item = None;
            self.current_screen = Screen::Admin;
        }
        let mut fx: Vec<Effect> = Vec::new();
        fx.push(Effect::LoadHomeSections);
        fx.push(Effect::LoadLibraryItems(self.current_library_section));
        fx.push(Effect::LoadCollections);
        fx.push(Effect::Search);
        fx.push(Effect::LoadPlaylists);
        fx.push(Effect::LoadLastPlayed);
        assert(fx@ =~= seq![
            Effect::LoadHomeSections,
            Effect::LoadLibraryItems(old(self).current_library_section),
            Effect::LoadCollections,
            Effect::Search,
            Effect::LoadPlaylists,
            Effect::LoadLastPlayed,
        ]);
        fx
    }

    fn on_delete_library(&mut self, name: String) -> (fx: Vec<Effect>)
        ensures
            handled(*old(self), Message::DeleteLibraryDone { name }, *final(self), fx@),
    {
        let mut status = concat2("Library '", name.as_str());
        push_str(&mut status, "' deleted");
        self.status_line = status;
        self.admin_delete_library_confirm = String::new();
        remove_folders_named(&mut self.admin_virtual_folders, name.as_str());
        let selected = self.admin_selected_virtual_folder_name.take();
        self.admin_selected_virtual_folder_name = folder_selection_after_delete(
            &self.admin_virtual_folders,
            selected,
            name.as_str(),
        );
        let mut fx: Vec<Effect> = Vec::new();
        fx.push(Effect::LoadVirtualFolders);
        fx.push(Effect::LoadViews);
        fx.push(Effect::LoadLibraryItems(self.current_library_section));
        fx.push(Effect::LoadCollections);
        fx.push(Effect::Search);
        assert(fx@ =~= seq![
            Effect::LoadVirtualFolders,
            Effect::LoadViews,
            Effect::LoadLibraryItems(old(self).current_library_section),
            Effect::LoadCollections,
            Effect::Search,
        ]);
        fx
    }
}

impl ClientState {
    fn on_playlist_add(&mut self, playlist_id: String, item_id: String) -> (fx: Vec<Effect>)
        ensures
            handled(*old(self), Message::PlaylistAddDone { playlist_id, item_id }, *final(self), fx@),
    {
        self.status_line = String::from_str("Added item to playlist");
        self.selected_playlist_id = Some(playlist_id.clone());
        let mut fx: Vec<Effect> = Vec::new();
        fx.push(Effect::LoadPlaylistItems(playlist_id));
        if self.current_screen == Screen::Details {
            fx.push(Effect::LoadItemDetail(item_id));
        }
        assert(fx@ =~= seq![Effect::LoadPlaylistItems(playlist_id)] + when(
            old(self).current_screen == Screen::Details,
            Effect::LoadItemDetail(item_id),
        ));
        fx
    }

    fn on_marked(&mut self, item_id: String, played: bool) -> (fx: Vec<Effect>)
        ensures
            played ==> handled(*old(self), Message::MarkPlayedDone { item_id }, *final(self), fx@),
            !played ==> handled(*old(self), Message::MarkUnplayedDone { item_id }, *final(self), fx@),
    {
        self.status_line = if played {
            String::from_str("Marked played")
        } else {
            String::from_str("Marked unplayed")
        };
        let fx = self.refresh_after_item_change(Some(item_id), false, false, false);
        assert(refresh_effects(*self, Some(item_id), false, false, false) == refresh_effects(
            *old(self),
            Some(item_id),
            false,
            false,
            false,
        ));
        fx
    }

    fn single(e: Effect) -> (fx: Vec<Effect>)
        ensures
            fx@ == seq![e],
    {
        let mut fx: Vec<Effect> = Vec::new();
        fx.push(e);
        assert(fx@ =~= seq![e]);
        fx
    }

    /// Moves the state by what background work reported, and returns the
    /// work that follows.
    pub fn handle_message(&mut self, msg: Message) -> (fx: Vec<Effect>)
        ensures
            handled(*old(self), msg, *final(self), fx@),
    {
        match msg {
            Message::Failed(kind, m) => self.on_failed(kind, m),
            Message::SessionValidated { user_name, is_admin } => self.on_session_validated(
                user_name,
                is_admin,
            ),
            Message::HealthResult => {
                self.status_line = String::from_str("Server health updated");
                Vec::new()
            },
            Message::ViewsLoaded(v) => {
                self.views = v;
                self.status_line = loaded_status(Listing::Libraries, self.views.len());
                Vec::new()
            },
            Message::SearchHintsLoaded(h) => {
                self.search_hints = h;
                Vec::new()
            },
            Message::SearchLoaded(v) => {
                self.items = v;
                self.status_line = loaded_status(Listing::SearchItems, self.items.len());
                Vec::new()
            },
            Message::HomeContinueWatchingLoaded(v) => {
                self.home_continue_watching = v;
                Vec::new()
            },
            Message::HomeRecentMoviesLoaded(v) => {
                self.home_recent_movies = v;
                Vec::new()
            },
            Message::HomeRecentSeriesLoaded(v) => {
                self.home_recent_series = v;
                Vec::new()
            },
            Message::LibraryItemsLoaded { section, items } => {
                if section == self.current_library_section {
                    self.library_items = items;
                    self.status_line = loaded_status(Listing::LibraryItems, self.library_items.len());
                }
                Vec::new()
            },
            Message::CollectionItemsLoaded(v) => {
                self.collection_items = v;
                self.status_line = loaded_status(Listing::Collections, self.collection_items.len());
                Vec::new()
            },
            Message::VirtualFoldersLoaded(f) => self.on_virtual_folders(f),
            Message::DetailSeasonsLoaded(seasons) => self.on_seasons(seasons),
            Message::DetailEpisodesLoaded { season_id, items } => self.on_episodes(season_id, items),
            Message::DetailRelatedLoaded(v) => {
                self.detail_related = v;
                Vec::new()
            },
            Message::DetailTechLoaded(m) => {
                self.detail_media_source = m;
                Vec::new()
            },
            Message::PlaylistsLoaded(lists) => self.on_playlists(lists),
            Message::PlaylistItemsLoaded { playlist_id, items } => self.on_playlist_items(
                playlist_id,
                items,
            ),
            Message::LastPlayedLoaded(i) => {
                self.last_played_item = i;
                Vec::new()
            },
            Message::ItemLoaded(item) => self.on_item_loaded(item),
            Message::PlaybackPrepared(p) => Self::single(Effect::LaunchPlayer(p)),
            Message::PlayerExited { generation, elapsed_seconds } => self.on_exit(
                generation,
                elapsed_seconds,
            ),
            Message::ProgressTick { position_ticks, is_paused } => self.on_progress(
                position_ticks,
                is_paused,
            ),
            Message::PlaybackStopped { item_id } => self.on_playback_stopped(item_id),
            Message::TasksLoaded(t) => {
                self.tasks = t;
                self.status_line = loaded_status(Listing::Tasks, self.tasks.len());
                Vec::new()
            },
            Message::ActionDone(m) => {
                self.status_line = m;
                self.tasks_refresh()
            },
            Message::ShuffleItemReady(item) => {
                self.selected_item = Some(item);
                Self::single(Effect::StartPlayback)
            },
            Message::PlaylistAddDone { playlist_id, item_id } => self.on_playlist_add(
                playlist_id,
                item_id,
            ),
            Message::MarkPlayedDone { item_id } => self.on_marked(item_id, true),
            Message::MarkUnplayedDone { item_id } => self.on_marked(item_id, false),
            Message::DeleteItemDone { item_id } => self.on_delete_item(item_id),
            Message::DeleteLibraryDone { name } => self.on_delete_library(name),
            Message::SubtitleSearchResults(r) => {
                self.subtitle_search_results = r;
                self.subtitle_search_loading = false;
                self.status_line = loaded_status(
                    Listing::SubtitleResults,
                    self.subtitle_search_results.len(),
                );
                Vec::new()
            },
            Message::SubtitleDownloaded { file_name, path } => {
                self.subtitle_temp_path = Some(path);
                self.status_line = concat2("Subtitle downloaded: ", file_name.as_str());
                Vec::new()
            },
            Message::SeerrSearchLoaded(r) => {
                self.seerr_results = r;
                Vec::new()
            },
            Message::SeerrRequestsLoaded(r) => {
                self.seerr_requests = r;
                Vec::new()
            },
            Message::SeerrNotice(m) => {
                self.status_line = m;
                Vec::new()
            },
        }
    }
}

/// The item deletion of the admin screen is enabled: an item id is given
/// and "DELETE" is typed to confirm. The id sent is the trimmed one.
pub open spec fn item_deletion_target(item_id: Seq<char>, confirm: Seq<char>) -> Option<Seq<char>> {
    if trim(item_id).len() > 0 && trim(confirm) == "DELETE"@ {
        Some(trim(item_id))
    } else {
        None
    }
}

/// The library deletion of the admin screen is enabled: a library is
/// selected and its name is typed to confirm.
pub open spec fn library_deletion_target(selected: Option<Seq<char>>, confirm: Seq<char>) -> Option<
    Seq<char>,
> {
    match selected {
        Some(name) => if name.len() > 0 && trim(confirm) == name {
            Some(name)
        } else {
            None
        },
        None => None,
    }
}

/// The item that the "Delete item" button deletes, if it is enabled.
pub fn item_to_delete(item_id: &str, confirm: &str) -> (r: Option<String>)
    ensures
        opt_text(r) == item_deletion_target(item_id@, confirm@),
{
    let id = trim_str(item_id);
    let typed = trim_str(confirm);
    let word = chars_of("DELETE");
    if id.len() > 0 && chars_eq(&typed, &word) {
        Some(string_of(&id))
    } else {
        None
    }
}

/// The library that the "Delete library" button deletes, if it is enabled.
pub fn library_to_delete(selected: &Option<String>, confirm: &str) -> (r: Option<String>)
    ensures
        opt_text(r) == library_deletion_target(opt_text(*selected), confirm@),
{
    match selected {
        Some(name) => {
            let typed = trim_str(confirm);
            let wanted = chars_of(name.as_str());
            if wanted.len() > 0 && chars_eq(&typed, &wanted) {
                Some(name.clone())
            } else {
                None
            }
        },
        None => None,
    }
}

/// What an admin request for `target` finds: no session (the request is
/// silently dropped), a user who is no administrator, or a blank target
/// (each refused with `blank` on the status line), or a request to send.
pub open spec fn admin_request_step(
    old: ClientState,
    target: Seq<char>,
    blank: Seq<char>,
    new: ClientState,
    go: bool,
) -> bool {
    match old.session {
        None => !go && new == old,
        Some(v) => if !v.is_admin {
            !go && status_only(old, new, "Admin privileges required"@)
        } else if trim(target).len() == 0 {
            !go && status_only(old, new, blank)
        } else {
            go && new == old
        },
    }
}

impl ClientState {
    fn admin_request(&mut self, target: &str, blank: &str) -> (go: bool)
        ensures
            admin_request_step(*old(self), target@, blank@, *final(self), go),
    {
        let is_admin = match &self.session {
            None => return false,
            Some(v) => v.is_admin,
        };
        if !is_admin {
            self.status_line = String::from_str("Admin privileges required");
            return false;
        }
        if trim_str(target).len() == 0 {
            self.status_line = String::from_str(blank);
            return false;
        }
        true
    }

    /// Whether the deletion of the item `item_id` may be sent; a refusal is
    /// said on the status line.
    pub fn may_delete_item(&mut self, item_id: &str) -> (go: bool)
        ensures
            admin_request_step(*old(self), item_id@, "Enter an item id"@, *final(self), go),
    {
        self.admin_request(item_id, "Enter an item id")
    }

    /// Whether the deletion of the library `name` may be sent; a refusal is
    /// said on the status line.
    pub fn may_delete_library(&mut self, name: &str) -> (go: bool)
        ensures
            admin_request_step(*old(self), name@, "Select a library"@, *final(self), go),
    {
        self.admin_request(name, "Select a library")
    }

    /// Whether a refresh of the item `item_id` may be sent: not for a blank
    /// id, which the status line asks for.
    pub fn may_refresh_item(&mut self, item_id: &str) -> (go: bool)
        ensures
            trim(item_id@).len() == 0 ==> !go && status_only(
                *old(self),
                *final(self),
                "Enter a library/item id"@,
            ),
            trim(item_id@).len() > 0 ==> go && *final(self) == *old(self),
    {
        if trim_str(item_id).len() == 0 {
            self.status_line = String::from_str("Enter a library/item id");
            return false;
        }
        true
    }

    /// The id of the selected item, which an action on it needs; without a
    /// selected item, or one without an id, the status line says so.
    pub fn selected_item_id(&mut self) -> (r: Option<String>)
        ensures
            match old(self).selected_item {
                None => r is None && status_only(*old(self), *final(self), "Select an item first"@),
                Some(it) => match it.id {
                    None => r is None && status_only(*old(self), *final(self), "Selected item has no id"@),
                    Some(id) => r == Some(id) && *final(self) == *old(self),
                },
            },
    {
        let id = match &self.selected_item {
            None => {
                self.status_line = String::from_str("Select an item first");
                return None;
            },
            Some(it) => match &it.id {
                None => None,
                Some(id) => Some(id.clone()),
            },
        };
        if id.is_none() {
            self.status_line = String::from_str("Selected item has no id");
        }
        id
    }
}

/// Background reports never sign the user in or out, nor change who is
/// signed in.
pub proof fn reports_keep_the_user(old: ClientState, msg: Message, new: ClientState, fx: Seq<Effect>)
    requires
        handled(old, msg, new, fx),
    ensures
        old.session is None <==> new.session is None,
        old.session matches Some(a) ==> new.session matches Some(b) && b.user_id == a.user_id,
{
}

/// When the player of the running session exits, the session is over and
/// its progress reports end, whether transcoding is retried or the stop is
/// reported.
pub proof fn player_exit_ends_the_session(
    old: ClientState,
    generation: u64,
    elapsed_seconds: u64,
    new: ClientState,
    fx: Seq<Effect>,
)
    requires
        handled(old, Message::PlayerExited { generation, elapsed_seconds }, new, fx),
        old.playback matches Some(pv) && pv.generation == generation,
    ensures
        new.playback is None,
        fx.len() > 0,
        fx[0] == Effect::EndProgressReports,
{
    let pv = old.playback->Some_0;
    if retry_transcode_spec(pv, elapsed_seconds) {
        assert(fx[0] == (seq![Effect::EndProgressReports] + removal(pv.mpv_socket_path))[0]);
    } else {
        let head = seq![Effect::EndProgressReports] + removal(pv.mpv_socket_path) + removal(
            old.subtitle_temp_path,
        );
        assert(fx[0] == fx.subrange(0, head.len() as int)[0]);
    }
}

impl ClientState {
    /// The user picked the library tab `section`: a tab other than the
    /// shown one is shown and its items are loaded.
    pub fn select_library_section(&mut self, section: LibrarySection) -> (fx: Vec<Effect>)
        ensures
            section == old(self).current_library_section ==> *final(self) == *old(self) && fx@.len()
                == 0,
            section != old(self).current_library_section ==> *final(self) == (ClientState {
                current_library_section: section,
                ..*old(self)
            }) && fx@ == seq![Effect::LoadLibraryItems(section)],
    {
        if section == self.current_library_section {
            return Vec::new();
        }
        self.current_library_section = section;
        Self::single(Effect::LoadLibraryItems(section))
    }

    /// The user picked the playlist `playlist_id`: it is selected, its
    /// shown items are dropped and its items are loaded.
    pub fn choose_playlist(&mut self, playlist_id: String) -> (fx: Vec<Effect>)
        ensures
            final(self).playlist_items@.len() == 0,
            *final(self) == (ClientState {
                selected_playlist_id: Some(playlist_id),
                playlist_items: final(self).playlist_items,
                ..*old(self)
            }),
            fx@ == seq![Effect::LoadPlaylistItems(playlist_id)],
    {
        self.selected_playlist_id = Some(playlist_id.clone());
        self.playlist_items = Vec::new();
        Self::single(Effect::LoadPlaylistItems(playlist_id))
    }

    /// A search for `term` starts: "Searching..." is shown, and the trimmed
    /// term is returned unless it is blank, in which case the search hints
    /// are dropped.
    pub fn begin_search(&mut self, term: &str) -> (r: Option<String>)
        ensures
            final(self).status_line@ == "Searching..."@,
            trim(term@).len() > 0 ==> opt_text(r) == Some(trim(term@)) && *final(self)
                == (ClientState { status_line: final(self).status_line, ..*old(self) }),
            trim(term@).len() == 0 ==> r is None && final(self).search_hints@.len() == 0
                && *final(self) == (ClientState {
                status_line: final(self).status_line,
                search_hints: final(self).search_hints,
                ..*old(self)
            }),
    {
        self.status_line = String::from_str("Searching...");
        let t = trim_str(term);
        if t.len() > 0 {
            Some(string_of(&t))
        } else {
            self.search_hints = Vec::new();
            None
        }
    }

    /// A subtitle search for `query` starts: the results are dropped, the
    /// search is marked as running and the status line names the query.
    pub fn begin_subtitle_search(&mut self, query: &str)
        ensures
            final(self).subtitle_search_loading,
            final(self).subtitle_search_results@.len() == 0,
            final(self).status_line@ == "Searching subtitles for \""@ + query@ + "\"..."@,
            *final(self) == (ClientState {
                subtitle_search_loading: true,
                subtitle_search_results: final(self).subtitle_search_results,
                status_line: final(self).status_line,
                ..*old(self)
            }),
    {
        self.subtitle_search_loading = true;
        self.subtitle_search_results = Vec::new();
        let mut status = concat2("Searching subtitles for \"", query);
        push_str(&mut status, "\"...");
        self.status_line = status;
    }
}

} // verus!
