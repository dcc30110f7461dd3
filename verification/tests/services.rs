use slimjelly::accounts::{
    login_fields_missing, login_outcome, subtitle_credentials_complete, subtitle_download_blocked,
    subtitle_file_name, subtitle_search_blocked, subtitle_temp_name, validated_user,
};
use slimjelly::backend::{
    linux_error_hint, parse_linux_backend, requested_linux_backend, select_linux_backend,
    LinuxBackend,
};
use slimjelly::config::{effective_sync_interval, AppConfig, AppPaths, PreferredPlayer, ResumePolicy, SyncMode};
use slimjelly::error::{check_response, AppError};
use slimjelly::jellyfin::client::{inferred_scheme_for_host, JellyfinClient};
use slimjelly::jellyfin::models::{AuthenticationResult, UserDto, UserPolicy};
use slimjelly::seerr::models::{MediaStatus, RequestStatus, SeerrSearchResult};
use slimjelly::seerr::SeerrClient;
use slimjelly::status::{failure_status, loaded_status, Failure, Listing};
use slimjelly::subtitles::client::OpenSubtitlesClient;
use slimjelly::subtitles::models::LoginResponse;
use slimjelly::config::ServerConfig;

fn user(id: Option<&str>, name: Option<&str>, admin: Option<bool>) -> UserDto {
    UserDto {
        id: id.map(str::to_string),
        name: name.map(str::to_string),
        server_id: None,
        policy: Some(UserPolicy { is_administrator: admin }),
    }
}

#[test]
fn login_needs_every_field() {
    assert!(login_fields_missing(" ", "bob", "pw"));
    assert!(login_fields_missing("https://x", "  ", "pw"));
    assert!(login_fields_missing("https://x", "bob", ""));
    assert!(!login_fields_missing("https://x", "bob", " "));
}

#[test]
fn login_reply_grants_token_and_user() {
    let auth = AuthenticationResult {
        access_token: Some("tok".to_string()),
        user: Some(user(Some("u1"), None, Some(true))),
        session_info: None,
        server_id: Some("srv".to_string()),
    };
    let ok = login_outcome(auth, "typed".to_string()).unwrap();
    assert_eq!(ok.token, "tok");
    assert_eq!(ok.user_id, "u1");
    assert_eq!(ok.user_name, "typed");
    assert!(ok.is_admin);
    assert_eq!(ok.server_id.as_deref(), Some("srv"));
}

#[test]
fn incomplete_login_reply_is_refused() {
    let auth = AuthenticationResult {
        access_token: Some("tok".to_string()),
        user: None,
        session_info: None,
        server_id: None,
    };
    assert_eq!(
        login_outcome(auth, "typed".to_string()),
        Err("Jellyfin returned incomplete login payload".to_string())
    );
    let auth = AuthenticationResult {
        access_token: None,
        user: Some(user(Some("u1"), Some("Ann"), None)),
        session_info: None,
        server_id: None,
    };
    assert!(login_outcome(auth, "typed".to_string()).is_err());
}

#[test]
fn session_check_reports_name_and_role() {
    assert_eq!(validated_user(user(None, None, None)), ("unknown".to_string(), false));
    assert_eq!(validated_user(user(None, Some("Ann"), Some(true))), ("Ann".to_string(), true));
}

#[test]
fn subtitle_account_checks() {
    assert_eq!(
        subtitle_search_blocked(" "),
        Some("Set OpenSubtitles API key in Settings first".to_string())
    );
    assert_eq!(subtitle_search_blocked("key"), None);
    assert_eq!(
        subtitle_download_blocked("key", "", "pw", false),
        Some("Set OpenSubtitles username and password in Settings for downloads".to_string())
    );
    assert_eq!(subtitle_download_blocked("key", "", "", true), None);
    assert!(subtitle_credentials_complete(" u ", "p", "k"));
    assert!(!subtitle_credentials_complete("u", "", "k"));
    assert_eq!(subtitle_file_name(Some(String::new()), "asked.srt".to_string()), "asked.srt");
    assert_eq!(subtitle_file_name(Some("given.srt".to_string()), "asked.srt".to_string()), "given.srt");
    assert_eq!(subtitle_temp_name("a.srt"), "slimjelly-sub-a.srt");
}

#[test]
fn status_lines() {
    assert_eq!(failure_status(Failure::Login, "bad password"), "Login failed: bad password");
    assert_eq!(failure_status(Failure::ProgressSync, "x"), "Progress sync error: x");
    assert_eq!(loaded_status(Listing::Libraries, 3), "Loaded 3 libraries");
    assert_eq!(loaded_status(Listing::SubtitleResults, 1), "Found 1 subtitle result");
}

#[test]
fn backend_names_parse_loosely() {
    assert_eq!(parse_linux_backend("  X11 "), Some(LinuxBackend::X11));
    assert_eq!(parse_linux_backend("WAYLAND"), Some(LinuxBackend::Wayland));
    assert_eq!(parse_linux_backend("auto"), Some(LinuxBackend::Auto));
    assert_eq!(parse_linux_backend("mir"), None);
}

#[test]
fn backend_selection_prefers_wayland_then_x11() {
    let some = |s: &str| Some(s.to_string());
    assert_eq!(
        select_linux_backend(LinuxBackend::Auto, some("wayland-0"), None, some(":0")),
        LinuxBackend::Wayland
    );
    assert_eq!(
        select_linux_backend(LinuxBackend::Auto, some(""), None, some(":0")),
        LinuxBackend::X11
    );
    assert_eq!(select_linux_backend(LinuxBackend::Auto, None, None, None), LinuxBackend::Auto);
    assert_eq!(
        select_linux_backend(LinuxBackend::X11, some("wayland-0"), None, None),
        LinuxBackend::X11
    );
}

#[test]
fn backend_request_order() {
    assert_eq!(
        requested_linux_backend(Some("bogus".to_string()), Some("x11".to_string())),
        LinuxBackend::X11
    );
    assert_eq!(
        requested_linux_backend(Some("wayland".to_string()), Some("x11".to_string())),
        LinuxBackend::Wayland
    );
    assert_eq!(requested_linux_backend(None, None), LinuxBackend::Auto);
}

#[test]
fn startup_hints() {
    assert!(linux_error_hint("WinitEventLoop(NoWaylandLib)", LinuxBackend::Auto)
        .starts_with("Wayland runtime libraries are missing."));
    assert_eq!(
        linux_error_hint("Something", LinuxBackend::X11),
        "Startup failed on backend X11. Set SLIMJELLY_UNIX_BACKEND=x11 or wayland to override."
    );
}

#[test]
fn error_messages() {
    assert_eq!(AppError::Crypto("bad".to_string()).message(), "crypto error: bad");
    assert_eq!(
        AppError::ApiStatus { status: 404, message: "missing".to_string() }.message(),
        "api request failed (404): missing"
    );
    assert_eq!(
        AppError::ConfigDirUnavailable.message(),
        "config directory is unavailable on this system"
    );
    assert!(check_response(204, String::new()).is_ok());
    assert_eq!(
        check_response(500, "boom".to_string()),
        Err(AppError::ApiStatus { status: 500, message: "boom".to_string() })
    );
}

#[test]
fn default_config_values() {
    let c = AppConfig::default();
    assert_eq!(c.client.app_name, "slimjelly");
    assert_eq!(c.client.device_id.len(), 36);
    assert_eq!(c.client.device_id.chars().nth(14), Some('4'));
    assert_eq!(c.player.preferred, PreferredPlayer::Mpv);
    assert_eq!(c.playback.resume_policy, ResumePolicy::AlwaysResume);
    assert_eq!(c.playback.sync_mode, SyncMode::Adaptive);
    assert_eq!(c.playback.base_sync_interval_seconds, 15);
    assert_eq!(c.subtitles.default_language, "en");
    assert_ne!(AppConfig::default().client.device_id, c.client.device_id);
}

#[test]
fn sync_interval_has_a_floor() {
    let mut c = AppConfig::default();
    c.playback.base_sync_interval_seconds = 2;
    assert_eq!(effective_sync_interval(&c.playback), 5);
    c.playback.base_sync_interval_seconds = 30;
    assert_eq!(effective_sync_interval(&c.playback), 30);
}

#[test]
fn paths_from_dirs() {
    let p = AppPaths::from_dirs("/cfg".to_string(), "/data/".to_string());
    assert_eq!(p.config_file, "/cfg/config.toml");
    assert_eq!(p.session_file, "/data/session.enc");
}

#[test]
fn scheme_inference() {
    assert_eq!(inferred_scheme_for_host("10.0.0.2:8096"), "http");
    assert_eq!(inferred_scheme_for_host("172.20.1.1"), "http");
    assert_eq!(inferred_scheme_for_host("172.32.1.1"), "https");
    assert_eq!(inferred_scheme_for_host("127.0.0.1"), "http");
    assert_eq!(inferred_scheme_for_host("[fe80::1]:8096"), "http");
    assert_eq!(inferred_scheme_for_host("[fd00::5]"), "http");
    assert_eq!(inferred_scheme_for_host("media.example.org"), "https");
}

#[test]
fn image_url_carries_size_tag_and_token() -> Result<(), AppError> {
    let server = ServerConfig {
        base_url: "https://example.com/jf".to_string(),
        username: String::new(),
        allow_self_signed: false,
    };
    let mut client = JellyfinClient::new(&server, "dev".to_string())?;
    client.set_token(Some("tok".to_string()));
    let url = client.build_item_image_url("abc", "Primary", 320, 180, Some("t9"))?;
    assert_eq!(
        url,
        "https://example.com/jf/Items/abc/Images/Primary?maxWidth=320&maxHeight=180&quality=90&fillHeight=180&tag=t9&api_key=tok"
    );
    assert_eq!(client.make_url("Users/Me")?, "https://example.com/jf/Users/Me");
    Ok(())
}

#[test]
fn seerr_helpers() {
    let client = SeerrClient::new("seerr.local/", "key").unwrap();
    assert_eq!(client.base_url, "http://seerr.local");
    assert_eq!(client.create_request_url(), "http://seerr.local/api/v1/request");
    let call = client.requests_call(3, 20);
    assert_eq!(call.query[1], ("skip".to_string(), "40".to_string()));
    assert!(SeerrClient::check_status(200, "200 OK").is_ok());
    assert_eq!(
        SeerrClient::check_status(404, "404 Not Found"),
        Err(AppError::ApiStatus {
            status: 404,
            message: "Jellyseerr API returned 404 Not Found".to_string()
        })
    );
    assert_eq!(MediaStatus::from_code(5), MediaStatus::Available);
    assert_eq!(MediaStatus::from_code(42), MediaStatus::Unknown);
    assert_eq!(MediaStatus::Available.label(), "Available");
    assert_eq!(RequestStatus::from_code(3), RequestStatus::Declined);
}

#[test]
fn seerr_result_title_and_year() {
    let r = SeerrSearchResult {
        id: Some(1),
        media_type: Some("tv".to_string()),
        title: None,
        name: Some("Show".to_string()),
        overview: None,
        poster_path: None,
        backdrop_path: None,
        release_date: None,
        first_air_date: Some("2019-05-01".to_string()),
        media_info: None,
    };
    assert_eq!(r.display_title(), "Show");
    assert_eq!(r.year(), Some("2019".to_string()));
    let bare = SeerrSearchResult { name: None, first_air_date: Some("20".to_string()), ..r };
    assert_eq!(bare.display_title(), "Unknown");
    assert_eq!(bare.year(), None);
}

#[test]
fn opensubtitles_helpers() {
    assert_eq!(OpenSubtitlesClient::bearer("abc"), "Bearer abc");
    assert_eq!(
        OpenSubtitlesClient::login_token(LoginResponse { token: Some("t".to_string()), status: None }),
        Ok("t".to_string())
    );
    assert!(OpenSubtitlesClient::login_token(LoginResponse { token: None, status: Some(200) }).is_err());
}
