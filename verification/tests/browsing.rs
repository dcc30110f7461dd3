use slimjelly::browse::{
    count_text, episode_subtitle, episode_title, format_runtime, image_tag_for_item,
    is_item_watched, item_subtitle, subtitle_search_query, thumbnail_key, truncate_text, Screen,
};
use slimjelly::episodes::{
    episode_buttons, episode_navigation, next_numbered_season_id_for_episode,
    sorted_episode_items, EpisodeButtons, EpisodeListAction, EpisodesArrival, NextButton,
    SeasonSelection,
};
use slimjelly::home::{
    hero_image_type, hero_items, hero_step, navigate_load, shuffle_include_types, shuffle_source,
    EmptyLists, HeroPick, HeroRow, ListSizes, ScreenLoad, ShuffleSource,
};
use slimjelly::jellyfin::models::{BaseItemDto, ItemImageTags, UserItemDataDto, VirtualFolderInfo};
use slimjelly::lists::{
    folder_selection_after_delete, folder_selection_after_load, playlist_selection_after_load,
    remove_folders_named, remove_items_with_id,
};

fn item(id: Option<&str>, name: Option<&str>, index: Option<i32>) -> BaseItemDto {
    BaseItemDto {
        id: id.map(str::to_string),
        name: name.map(str::to_string),
        item_type: None,
        media_type: None,
        index_number: index,
        parent_index_number: None,
        production_year: None,
        community_rating_bits: None,
        official_rating: None,
        run_time_ticks: None,
        overview: None,
        people: None,
        primary_image_tag: None,
        image_tags: None,
        playlist_item_id: None,
        last_played_date: None,
        user_data: None,
        season_id: None,
        parent_id: None,
        series_id: None,
        series_name: None,
    }
}

fn ids(items: &[BaseItemDto]) -> Vec<String> {
    items.iter().map(|i| i.id.clone().unwrap_or_default()).collect()
}

fn folder(name: Option<&str>) -> VirtualFolderInfo {
    VirtualFolderInfo {
        name: name.map(str::to_string),
        locations: None,
        collection_type: None,
        item_id: None,
        refresh_progress_bits: None,
        refresh_status: None,
    }
}

#[test]
fn episodes_sort_by_number_then_name_with_unnumbered_last() {
    let items = vec![
        item(Some("c"), Some("Zeta"), None),
        item(Some("b"), Some("Beta"), Some(2)),
        item(Some("a"), Some("Alpha"), Some(2)),
        item(Some("d"), Some("Pilot"), Some(1)),
        item(Some("e"), None, None),
    ];
    let sorted = sorted_episode_items(items);
    assert_eq!(ids(&sorted), vec!["d", "a", "b", "e", "c"]);
}

#[test]
fn episode_sort_is_stable_for_ties() {
    let items = vec![
        item(Some("first"), Some("Same"), Some(3)),
        item(Some("second"), Some("Same"), Some(3)),
        item(Some("third"), Some("Same"), Some(3)),
    ];
    assert_eq!(ids(&sorted_episode_items(items)), vec!["first", "second", "third"]);
}

#[test]
fn episode_names_compare_by_code_point() {
    let items = vec![
        item(Some("lower"), Some("b"), Some(1)),
        item(Some("upper"), Some("B"), Some(1)),
        item(Some("prefix"), Some(""), Some(1)),
    ];
    assert_eq!(ids(&sorted_episode_items(items)), vec!["prefix", "upper", "lower"]);
}

#[test]
fn sorting_empty_list_gives_empty_list() {
    assert!(sorted_episode_items(Vec::new()).is_empty());
}

fn season(id: Option<&str>, number: Option<i32>) -> BaseItemDto {
    item(id, None, number)
}

#[test]
fn next_season_follows_current_season_by_number() {
    let seasons = vec![
        season(Some("s2"), Some(2)),
        season(Some("specials"), Some(0)),
        season(Some("s1"), Some(1)),
        season(Some("s3"), Some(3)),
    ];
    let mut ep = item(Some("e"), None, Some(8));
    ep.season_id = Some("s1".to_string());
    assert_eq!(
        next_numbered_season_id_for_episode(&seasons, &None, &ep),
        Some("s2".to_string())
    );
    ep.season_id = Some("s3".to_string());
    assert_eq!(next_numbered_season_id_for_episode(&seasons, &None, &ep), None);
}

#[test]
fn next_season_falls_back_to_season_number() {
    let seasons = vec![season(Some("s1"), Some(1)), season(Some("s4"), Some(4))];
    let mut ep = item(Some("e"), None, Some(1));
    ep.season_id = Some("unknown".to_string());
    ep.parent_index_number = Some(2);
    assert_eq!(
        next_numbered_season_id_for_episode(&seasons, &None, &ep),
        Some("s4".to_string())
    );
}

#[test]
fn next_season_uses_selected_season_number() {
    let seasons = vec![
        season(Some("a"), Some(1)),
        season(Some("b"), Some(2)),
        season(None, Some(3)),
    ];
    let ep = item(Some("e"), None, Some(1));
    let selected = Some("a".to_string());
    assert_eq!(
        next_numbered_season_id_for_episode(&seasons, &selected, &ep),
        Some("b".to_string())
    );
    let none_selected = None;
    assert_eq!(next_numbered_season_id_for_episode(&seasons, &none_selected, &ep), None);
}

#[test]
fn navigation_finds_neighbours() {
    let ordered = vec![
        item(Some("e1"), None, Some(1)),
        item(Some("e2"), None, Some(2)),
        item(Some("e3"), None, Some(3)),
    ];
    let nav = episode_navigation(&ordered, "e2");
    assert_eq!(nav.current, Some(1));
    assert_eq!(nav.previous, Some(0));
    assert_eq!(nav.next, Some(2));
    assert!(!nav.on_last_in_season);

    let last = episode_navigation(&ordered, "e3");
    assert_eq!(last.next, None);
    assert!(last.on_last_in_season);

    let first = episode_navigation(&ordered, "e1");
    assert_eq!(first.previous, None);

    let missing = episode_navigation(&ordered, "zz");
    assert_eq!(missing.current, None);
    assert!(!missing.on_last_in_season);
}

#[test]
fn seasons_loaded_keeps_target_season() {
    let seasons = vec![season(Some("s1"), Some(1)), season(Some("s2"), Some(2))];
    let mut sel = SeasonSelection::new();
    sel.select_season("s2".to_string());
    let action = sel.on_seasons_loaded(&seasons, false);
    assert_eq!(action, EpisodeListAction::Keep);
    assert_eq!(sel.selected.as_deref(), Some("s2"));

    let action = sel.on_seasons_loaded(&seasons, true);
    assert_eq!(action, EpisodeListAction::Reload("s2".to_string()));
}

#[test]
fn seasons_loaded_moves_to_first_season_when_target_missing() {
    let seasons = vec![season(Some("s1"), Some(1)), season(Some("s2"), Some(2))];
    let mut sel = SeasonSelection::new();
    sel.step_to_next_season("gone".to_string());
    let action = sel.on_seasons_loaded(&seasons, false);
    assert_eq!(action, EpisodeListAction::Reload("s1".to_string()));
    assert_eq!(sel.selected.as_deref(), Some("s1"));
    assert_eq!(sel.preferred.as_deref(), Some("s1"));
    assert_eq!(sel.pending_next, None);
}

#[test]
fn seasons_loaded_empty_clears_everything() {
    let mut sel = SeasonSelection::new();
    sel.step_to_next_season("s1".to_string());
    assert_eq!(sel.on_seasons_loaded(&Vec::new(), false), EpisodeListAction::Clear);
    assert_eq!(sel, SeasonSelection::new());
}

#[test]
fn awaited_season_opens_first_episode() {
    let mut sel = SeasonSelection::new();
    sel.step_to_next_season("s2".to_string());
    assert_eq!(sel.on_episodes_loaded("s1"), EpisodesArrival::Ignore);
    assert_eq!(sel.on_episodes_loaded("s2"), EpisodesArrival::AcceptAndOpenFirst);
    assert_eq!(sel.pending_next, None);
    assert_eq!(sel.on_episodes_loaded("s2"), EpisodesArrival::Accept);
}

#[test]
fn detail_plan_for_episode_loads_its_season_and_series() {
    let mut ep = item(Some("e"), Some("Ep"), Some(1));
    ep.item_type = Some("episode".to_string());
    ep.parent_id = Some("season-9".to_string());
    ep.series_id = Some("series-1".to_string());
    let mut sel = SeasonSelection::new();
    let plan = sel.plan_detail_sections(&Some(ep));
    assert!(plan.clear_seasons && plan.clear_episodes);
    assert_eq!(plan.load_episodes_of.as_deref(), Some("season-9"));
    assert_eq!(plan.load_seasons_of.as_deref(), Some("series-1"));
    assert!(plan.load_related_and_tech);
    assert_eq!(sel.selected.as_deref(), Some("season-9"));
}

#[test]
fn detail_plan_for_series_and_nothing() {
    let mut series = item(Some("show"), Some("Show"), None);
    series.item_type = Some("Series".to_string());
    let mut sel = SeasonSelection::new();
    let plan = sel.plan_detail_sections(&Some(series));
    assert_eq!(plan.load_seasons_of.as_deref(), Some("show"));
    assert!(!plan.clear_seasons);

    let plan = sel.plan_detail_sections(&None);
    assert!(plan.clear_related_and_media);
    assert!(!plan.load_related_and_tech);
}

#[test]
fn hero_strip_deduplicates_ids_and_skips_missing_ids() {
    let cw = vec![item(Some("a"), None, None), item(None, None, None), item(Some("b"), None, None)];
    let movies = vec![item(Some("b"), None, None), item(Some("c"), None, None)];
    let picks = hero_items(&cw, &movies, 5);
    assert_eq!(
        picks,
        vec![
            HeroPick { row: HeroRow::ContinueWatching, index: 0 },
            HeroPick { row: HeroRow::ContinueWatching, index: 2 },
            HeroPick { row: HeroRow::RecentMovies, index: 1 },
        ]
    );
}

#[test]
fn hero_strip_falls_back_to_series() {
    let picks = hero_items(&Vec::new(), &vec![item(None, None, None)], 14);
    assert_eq!(picks.len(), 12);
    assert!(picks.iter().all(|p| p.row == HeroRow::RecentSeries));
    assert_eq!(picks[11].index, 11);
}

#[test]
fn hero_strip_considers_only_first_twelve_of_a_row() {
    let cw: Vec<BaseItemDto> = (0..15).map(|i| item(Some(&format!("id{i}")), None, None)).collect();
    let picks = hero_items(&cw, &Vec::new(), 0);
    assert_eq!(picks.len(), 12);
}

fn sizes() -> ListSizes {
    ListSizes {
        detail_episodes: 0,
        playlist_items: 0,
        detail_related: 0,
        recent_movies: 0,
        recent_series: 0,
        continue_watching: 0,
        library_items: 0,
        search_items: 0,
        collection_items: 0,
    }
}

#[test]
fn shuffle_prefers_series_episodes_then_playlist() {
    let mut n = sizes();
    n.detail_episodes = 3;
    n.playlist_items = 2;
    assert_eq!(
        shuffle_source(&Some("SERIES".to_string()), Screen::Home, n),
        Some(ShuffleSource::DetailEpisodes)
    );
    assert_eq!(
        shuffle_source(&Some("Movie".to_string()), Screen::Home, n),
        Some(ShuffleSource::PlaylistItems)
    );
}

#[test]
fn shuffle_uses_screen_lists_last() {
    let mut n = sizes();
    n.recent_series = 1;
    n.library_items = 4;
    assert_eq!(shuffle_source(&None, Screen::Home, n), Some(ShuffleSource::RecentSeries));
    assert_eq!(shuffle_source(&None, Screen::Libraries, n), Some(ShuffleSource::LibraryItems));
    assert_eq!(shuffle_source(&None, Screen::Settings, n), None);
}

#[test]
fn shuffle_fallback_types() {
    assert_eq!(shuffle_include_types(&None), vec!["Movie", "Series", "Episode"]);
    assert_eq!(shuffle_include_types(&Some("Audio".to_string())), vec!["Audio"]);
}

#[test]
fn navigation_loads_empty_screens_and_tasks() {
    let all_empty = EmptyLists {
        continue_watching: true,
        recent_movies: true,
        search_items: true,
        library_items: true,
        collection_items: true,
        playlists: true,
    };
    assert_eq!(navigate_load(Screen::Home, all_empty), Some(ScreenLoad::HomeSections));
    assert_eq!(navigate_load(Screen::Admin, all_empty), Some(ScreenLoad::Tasks));
    let mut filled = all_empty;
    filled.recent_movies = false;
    assert_eq!(navigate_load(Screen::Home, filled), None);
    assert_eq!(navigate_load(Screen::Settings, all_empty), None);
}

#[test]
fn removing_an_item_keeps_the_others_in_order() {
    let mut items = vec![
        item(Some("a"), None, None),
        item(Some("x"), None, None),
        item(None, None, None),
        item(Some("x"), None, None),
        item(Some("b"), None, None),
    ];
    remove_items_with_id(&mut items, "x");
    assert_eq!(ids(&items), vec!["a", "", "b"]);
}

#[test]
fn removing_a_library_and_reselecting() {
    let mut folders = vec![folder(Some("Movies")), folder(Some("Shows")), folder(None)];
    remove_folders_named(&mut folders, "Movies");
    assert_eq!(folders.len(), 2);
    assert_eq!(
        folder_selection_after_delete(&folders, Some("Movies".to_string()), "Movies"),
        Some("Shows".to_string())
    );
    assert_eq!(
        folder_selection_after_delete(&folders, Some("Shows".to_string()), "Movies"),
        Some("Shows".to_string())
    );
}

#[test]
fn folder_selection_survives_reload_only_if_listed() {
    let folders = vec![folder(Some("A")), folder(Some("B"))];
    assert_eq!(folder_selection_after_load(&folders, &Some("B".to_string())), Some("B".to_string()));
    assert_eq!(folder_selection_after_load(&folders, &Some("Z".to_string())), Some("A".to_string()));
    assert_eq!(folder_selection_after_load(&Vec::new(), &None), None);
}

#[test]
fn playlist_selection_picks_first_once() {
    let playlists = vec![item(Some("p1"), None, None), item(Some("p2"), None, None)];
    assert_eq!(playlist_selection_after_load(&playlists, None), (Some("p1".to_string()), true));
    assert_eq!(
        playlist_selection_after_load(&playlists, Some("p2".to_string())),
        (Some("p2".to_string()), false)
    );
    assert_eq!(playlist_selection_after_load(&Vec::new(), None), (None, false));
}

#[test]
fn labels_of_items() {
    let mut it = item(Some("i"), Some("Pilot"), Some(3));
    it.item_type = Some("Episode".to_string());
    it.production_year = Some(2021);
    it.parent_index_number = Some(2);
    it.run_time_ticks = Some(27_000_000_000);
    assert_eq!(item_subtitle(&it), "Episode | 2021");
    assert_eq!(episode_title(&it), "3. Pilot");
    assert_eq!(episode_subtitle(&it), "S2:E3 | 45m");
    let bare = item(None, None, None);
    assert_eq!(item_subtitle(&bare), "Unknown | --");
    assert_eq!(episode_title(&bare), "--. Untitled");
}

#[test]
fn runtime_formats() {
    assert_eq!(format_runtime(None), "--");
    assert_eq!(format_runtime(Some(0)), "--");
    assert_eq!(format_runtime(Some(36_000_000_000 + 5 * 600_000_000)), "1h 05m");
    assert_eq!(format_runtime(Some(59 * 10_000_000)), "0m");
}

#[test]
fn truncation_and_counts() {
    assert_eq!(truncate_text("héllo world", 5), "héllo...");
    assert_eq!(truncate_text("short", 5), "short");
    assert_eq!(count_text(1, "task", "tasks"), "1 task");
    assert_eq!(count_text(0, "task", "tasks"), "0 tasks");
}

#[test]
fn watched_flag_and_image_tags() {
    let mut it = item(Some("i"), None, None);
    assert!(!is_item_watched(&it));
    it.user_data = Some(UserItemDataDto { playback_position_ticks: None, played: Some(true) });
    assert!(is_item_watched(&it));
    it.image_tags = Some(ItemImageTags {
        primary: None,
        thumb: Some("t1".to_string()),
        backdrop: None,
        logo: None,
    });
    assert_eq!(image_tag_for_item(&it), Some("t1".to_string()));
    it.primary_image_tag = Some("p0".to_string());
    assert_eq!(image_tag_for_item(&it), Some("p0".to_string()));
    assert_eq!(thumbnail_key("id", 320, 180, "Primary", None), "id|320x180|Primary|untagged");
    assert_eq!(thumbnail_key("id", 1, 2, "Thumb", Some("x")), "id|1x2|Thumb|x");
}

#[test]
fn subtitle_queries() {
    let mut ep = item(Some("i"), Some("Pilot"), Some(4));
    ep.item_type = Some("Episode".to_string());
    ep.series_name = Some("Show".to_string());
    ep.parent_index_number = Some(1);
    assert_eq!(subtitle_search_query(&ep), "Show S01E04");
    ep.index_number = None;
    assert_eq!(subtitle_search_query(&ep), "Show Pilot");
    let movie = item(Some("m"), Some("Film"), None);
    assert_eq!(subtitle_search_query(&movie), "Film");
}

#[test]
fn episode_buttons_follow_the_episode_order() {
    let mut e1 = item(Some("e1"), None, Some(1));
    e1.item_type = Some("Episode".to_string());
    e1.season_id = Some("s1".to_string());
    let mut e2 = item(Some("e2"), None, Some(2));
    e2.item_type = Some("episode".to_string());
    e2.season_id = Some("s1".to_string());
    let ordered = vec![e1.clone(), e2.clone()];
    let seasons = vec![season(Some("s1"), Some(1)), season(Some("s2"), Some(2))];

    assert_eq!(
        episode_buttons(&ordered, &seasons, &None, &e1),
        Some(EpisodeButtons::Ready { previous: None, next: NextButton::Episode(1) })
    );
    assert_eq!(
        episode_buttons(&ordered, &seasons, &None, &e2),
        Some(EpisodeButtons::Ready { previous: Some(0), next: NextButton::Season("s2".to_string()) })
    );
    assert_eq!(
        episode_buttons(&ordered, &Vec::new(), &None, &e2),
        Some(EpisodeButtons::Ready { previous: Some(0), next: NextButton::Finale })
    );
    let mut stray = e1.clone();
    stray.id = Some("elsewhere".to_string());
    assert_eq!(
        episode_buttons(&ordered, &seasons, &None, &stray),
        Some(EpisodeButtons::Ready { previous: None, next: NextButton::Loading })
    );
    let mut no_id = e1.clone();
    no_id.id = None;
    assert_eq!(episode_buttons(&ordered, &seasons, &None, &no_id), Some(EpisodeButtons::MetadataUnavailable));
    assert_eq!(episode_buttons(&ordered, &seasons, &None, &item(Some("m"), None, None)), None);
}

#[test]
fn hero_arrows_wrap_around() {
    assert_eq!(hero_step(0, 3, false), 2);
    assert_eq!(hero_step(2, 3, true), 0);
    assert_eq!(hero_step(1, 3, true), 2);
    assert_eq!(hero_step(1, 3, false), 0);
    assert_eq!(hero_step(7, 3, true), 1);
    assert_eq!(hero_step(0, 1, true), 0);
}

#[test]
fn hero_shows_backdrops_except_for_episodes() {
    let mut movie = item(Some("m"), None, None);
    assert_eq!(hero_image_type(&movie), "Primary");
    movie.image_tags = Some(ItemImageTags {
        primary: None,
        thumb: None,
        backdrop: Some("b".to_string()),
        logo: None,
    });
    assert_eq!(hero_image_type(&movie), "Backdrop");
    movie.item_type = Some("EPISODE".to_string());
    assert_eq!(hero_image_type(&movie), "Primary");
}
