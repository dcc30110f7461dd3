pub mod client;
pub mod models;

pub use client::OpenSubtitlesClient;
