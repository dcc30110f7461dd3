//! The client's configuration, its defaults and where it is stored.

use vstd::prelude::*;

verus! {

/// File name of the configuration inside the configuration directory.
pub const CONFIG_FILE_NAME: &'static str = "config.toml";

/// File name of the encrypted session inside the data directory.
pub const SESSION_FILE_NAME: &'static str = "session.enc";

/// Where the configuration and the session live.
#[derive(Debug, Clone)]
pub struct AppPaths {
    pub config_dir: String,
    pub data_dir: String,
    pub config_file: String,
    pub session_file: String,
}

#[derive(Debug, Clone)]
pub struct AppConfig {
    pub client: ClientConfig,
    pub server: ServerConfig,
    pub player: PlayerConfig,
    pub playback: PlaybackConfig,
    pub subtitles: SubtitleConfig,
    pub seerr: SeerrConfig,
}

#[derive(Debug, Clone)]
pub struct ClientConfig {
    pub app_name: String,
    pub device_id: String,
}

#[derive(Debug, Clone)]
pub struct ServerConfig {
    pub base_url: String,
    pub username: String,
    pub allow_self_signed: bool,
}

#[derive(Debug, Clone)]
pub struct PlayerConfig {
    pub preferred: PreferredPlayer,
    pub mpv_path: Option<String>,
    pub vlc_path: Option<String>,
}

#[derive(Debug, Clone, Copy, PartialEq, Eq, Structural)]
pub enum PreferredPlayer {
    Mpv,
    Vlc,
}

#[derive(Debug, Clone)]
pub struct PlaybackConfig {
    pub direct_first: bool,
    pub fallback_once: bool,
    pub resume_policy: ResumePolicy,
    pub sync_mode: SyncMode,
    pub base_sync_interval_seconds: u64,
    pub remember_track_choice: bool,
}

#[derive(Debug, Clone, Copy, PartialEq, Eq, Structural)]
pub enum ResumePolicy {
    AlwaysResume,
    Ask,
    StartOver,
}

#[derive(Debug, Clone)]
pub struct SubtitleConfig {
    pub api_key: String,
    pub username: String,
    pub password: String,
    pub default_language: String,
}

#[derive(Debug, Clone, Copy, PartialEq, Eq, Structural)]
pub enum SyncMode {
    Adaptive,
    Fixed,
}

/// Connection settings of a Jellyseerr / Overseerr instance.
#[derive(Debug, Clone)]
pub struct SeerrConfig {
    pub base_url: String,
    pub api_key: String,
}

// ---------------------------------------------------------------------------
// Paths
// ---------------------------------------------------------------------------

/// `Path::join` of a relative file name onto a directory.
pub open spec fn path_join(dir: Seq<char>, name: Seq<char>) -> Seq<char> {
    if dir.len() == 0 {
        name
    } else if dir.last() == '/' {
        dir + name
    } else {
        dir + seq!['/'] + name
    }
}

/// `dir` joined with the relative file name `name`.
pub fn join_path(dir: &str, name: &str) -> (p: String)
    ensures
        p@ == path_join(dir@, name@),
{
    let d = crate::text::chars_of(dir);
    let mut p = String::from_str(dir);
    if d.len() > 0 && d[d.len() - 1] != '/' {
        crate::text::push_char(&mut p, '/');
    }
    p.append(name);
    p
}

impl AppPaths {
    /// The configuration file in `config_dir` and the session file in
    /// `data_dir`.
    pub fn from_dirs(config_dir: String, data_dir: String) -> (paths: AppPaths)
        ensures
            paths.config_dir@ == config_dir@,
            paths.data_dir@ == data_dir@,
            paths.config_file@ == path_join(config_dir@, CONFIG_FILE_NAME@),
            paths.session_file@ == path_join(data_dir@, SESSION_FILE_NAME@),
    {
        let config_file = join_path(config_dir.as_str(), CONFIG_FILE_NAME);
        let session_file = join_path(data_dir.as_str(), SESSION_FILE_NAME);
        AppPaths { config_dir, data_dir, config_file, session_file }
    }
}

// ---------------------------------------------------------------------------
// Defaults
// ---------------------------------------------------------------------------

pub open spec fn is_lower_hex(c: char) -> bool {
    ('0' <= c && c <= '9') || ('a' <= c && c <= 'f')
}

/// A random (version 4) UUID in lower-case hyphenated form.
pub open spec fn is_uuid_v4_text(s: Seq<char>) -> bool {
    &&& s.len() == 36
    &&& forall|i: int|
        0 <= i < 36 ==> (if i == 8 || i == 13 || i == 18 || i == 23 {
            s[i] == '-'
        } else {
            is_lower_hex(#[trigger] s[i])
        })
    &&& s[14] == '4'
    &&& (s[19] == '8' || s[19] == '9' || s[19] == 'a' || s[19] == 'b')
}

/// A fresh device identifier: `uuid::Uuid::new_v4()` in its `to_string`
/// form. The identifier is random; the contract states only its shape
/// (lower-case hyphenated hexadecimal, version 4, RFC 4122 variant).
#[verifier::external_body]
fn new_device_id() -> (s: String)
    ensures
        is_uuid_v4_text(s@),
{
    uuid::Uuid::new_v4().to_string()
}

impl Default for ClientConfig {
    fn default() -> (c: Self)
        ensures
            c.app_name@ == "slimjelly"@,
            is_uuid_v4_text(c.device_id@),
    {
        ClientConfig { app_name: String::from_str("slimjelly"), device_id: new_device_id() }
    }
}

impl Default for ServerConfig {
    fn default() -> (c: Self)
        ensures
            c.base_url@ == Seq::<char>::empty(),
            c.username@ == Seq::<char>::empty(),
            !c.allow_self_signed,
    {
        ServerConfig { base_url: String::new(), username: String::new(), allow_self_signed: false }
    }
}

impl Default for PlayerConfig {
    fn default() -> (c: Self)
        ensures
            c.preferred == PreferredPlayer::Mpv,
            c.mpv_path is None,
            c.vlc_path is None,
    {
        PlayerConfig { preferred: PreferredPlayer::Mpv, mpv_path: None, vlc_path: None }
    }
}

impl Default for PlaybackConfig {
    fn default() -> (c: Self)
        ensures
            c.direct_first,
            c.fallback_once,
            c.resume_policy == ResumePolicy::AlwaysResume,
            c.sync_mode == SyncMode::Adaptive,
            c.base_sync_interval_seconds == 15,
            c.remember_track_choice,
    {
        PlaybackConfig {
            direct_first: true,
            fallback_once: true,
            resume_policy: ResumePolicy::AlwaysResume,
            sync_mode: SyncMode::Adaptive,
            base_sync_interval_seconds: 15,
            remember_track_choice: true,
        }
    }
}

impl Default for SubtitleConfig {
    fn default() -> (c: Self)
        ensures
            c.api_key@ == Seq::<char>::empty(),
            c.username@ == Seq::<char>::empty(),
            c.password@ == Seq::<char>::empty(),
            c.default_language@ == "en"@,
    {
        SubtitleConfig {
            api_key: String::new(),
            username: String::new(),
            password: String::new(),
            default_language: String::from_str("en"),
        }
    }
}

impl Default for SeerrConfig {
    fn default() -> (c: Self)
        ensures
            c.base_url@ == Seq::<char>::empty(),
            c.api_key@ == Seq::<char>::empty(),
    {
        SeerrConfig { base_url: String::new(), api_key: String::new() }
    }
}

impl Default for AppConfig {
    fn default() -> (c: Self)
        ensures
            c.client.app_name@ == "slimjelly"@,
            is_uuid_v4_text(c.client.device_id@),
            c.server.base_url@ == Seq::<char>::empty(),
            c.server.username@ == Seq::<char>::empty(),
            !c.server.allow_self_signed,
            c.player.preferred == PreferredPlayer::Mpv,
            c.player.mpv_path is None,
            c.player.vlc_path is None,
            c.playback.direct_first,
            c.playback.fallback_once,
            c.playback.resume_policy == ResumePolicy::AlwaysResume,
            c.playback.sync_mode == SyncMode::Adaptive,
            c.playback.base_sync_interval_seconds == 15,
            c.playback.remember_track_choice,
            c.subtitles.api_key@ == Seq::<char>::empty(),
            c.subtitles.username@ == Seq::<char>::empty(),
            c.subtitles.password@ == Seq::<char>::empty(),
            c.subtitles.default_language@ == "en"@,
            c.seerr.base_url@ == Seq::<char>::empty(),
            c.seerr.api_key@ == Seq::<char>::empty(),
    {
        AppConfig {
            client: ClientConfig::default(),
            server: ServerConfig::default(),
            player: PlayerConfig::default(),
            playback: PlaybackConfig::default(),
            subtitles: SubtitleConfig::default(),
            seerr: SeerrConfig::default(),
        }
    }
}

/// The interval that playback progress is reported at: the configured base
/// interval, but never less than five seconds.
pub fn effective_sync_interval(config: &PlaybackConfig) -> (s: u64)
    ensures
        s == if config.base_sync_interval_seconds < 5 {
            5
        } else {
            config.base_sync_interval_seconds
        },
{
    if config.base_sync_interval_seconds < 5 {
        5
    } else {
        config.base_sync_interval_seconds
    }
}

} // verus!
