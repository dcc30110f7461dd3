//! Core logic of a slim Jellyfin client: configuration, URL and query
//! construction, media-request helpers, playback decisions and the state
//! machine of the client window.

pub mod accounts;
pub mod backend;
pub mod browse;
pub mod config;
pub mod episodes;
pub mod home;
pub mod error;
pub mod jellyfin;
pub mod lists;
pub mod mpv;
pub mod playback;
pub mod seerr;
pub mod status;
pub mod subtitles;
pub mod text;
pub mod thumbnails;
pub mod urls;
pub mod window;
pub mod net;
pub mod secure_store;
