//! The status line: how each failed request and each loaded list is
//! reported.

use vstd::prelude::*;

use crate::browse::{count_text, count_text_spec};
use crate::text::concat2;

verus! {

/// A request that can fail, each reported under its own heading.
#[derive(Debug, Clone, Copy, PartialEq, Eq, Structural)]
pub enum Failure {
    Login,
    Health,
    SessionValidation,
    Search,
    HomeRow,
    Library,
    Collection,
    VirtualFolders,
    Seasons,
    Episodes,
    RelatedItems,
    TechInfo,
    Playlists,
    PlaylistItems,
    LastPlayed,
    Item,
    PlaybackPrepare,
    ProgressSync,
    Tasks,
    Action,
    Shuffle,
    PlaylistAdd,
    MarkPlayed,
    MarkUnplayed,
    DeleteItem,
    DeleteLibrary,
    SubtitleSearch,
    SubtitleDownload,
    BuildClient,
    RestoreSession,
}

/// The heading a failure is reported under.
pub open spec fn failure_heading(f: Failure) -> Seq<char> {
    match f {
        Failure::Login => "Login failed: "@,
        Failure::Health => "Health check failed: "@,
        Failure::SessionValidation => "Session validation failed: "@,
        Failure::Search => "Search failed: "@,
        Failure::HomeRow => "Home row load failed: "@,
        Failure::Library => "Library load failed: "@,
        Failure::Collection => "Collection load failed: "@,
        Failure::VirtualFolders => "Virtual folder load failed: "@,
        Failure::Seasons => "Seasons load failed: "@,
        Failure::Episodes => "Episodes load failed: "@,
        Failure::RelatedItems => "Related items load failed: "@,
        Failure::TechInfo => "Tech info load failed: "@,
        Failure::Playlists => "Playlist load failed: "@,
        Failure::PlaylistItems => "Playlist items failed: "@,
        Failure::LastPlayed => "Last played load failed: "@,
        Failure::Item => "Failed to load item: "@,
        Failure::PlaybackPrepare => "Playback prepare failed: "@,
        Failure::ProgressSync => "Progress sync error: "@,
        Failure::Tasks => "Task load failed: "@,
        Failure::Action => "Action failed: "@,
        Failure::Shuffle => "Shuffle failed: "@,
        Failure::PlaylistAdd => "Add to playlist failed: "@,
        Failure::MarkPlayed => "Mark played failed: "@,
        Failure::MarkUnplayed => "Mark unplayed failed: "@,
        Failure::DeleteItem => "Delete item failed: "@,
        Failure::DeleteLibrary => "Delete library failed: "@,
        Failure::SubtitleSearch => "Subtitle search failed: "@,
        Failure::SubtitleDownload => "Subtitle download failed: "@,
        Failure::BuildClient => "Failed to build API client: "@,
        Failure::RestoreSession => "Failed to restore session: "@,
    }
}

fn heading(f: Failure) -> (s: &'static str)
    ensures
        s@ == failure_heading(f),
{
    match f {
        Failure::Login => "Login failed: ",
        Failure::Health => "Health check failed: ",
        Failure::SessionValidation => "Session validation failed: ",
        Failure::Search => "Search failed: ",
        Failure::HomeRow => "Home row load failed: ",
        Failure::Library => "Library load failed: ",
        Failure::Collection => "Collection load failed: ",
        Failure::VirtualFolders => "Virtual folder load failed: ",
        Failure::Seasons => "Seasons load failed: ",
        Failure::Episodes => "Episodes load failed: ",
        Failure::RelatedItems => "Related items load failed: ",
        Failure::TechInfo => "Tech info load failed: ",
        Failure::Playlists => "Playlist load failed: ",
        Failure::PlaylistItems => "Playlist items failed: ",
        Failure::LastPlayed => "Last played load failed: ",
        Failure::Item => "Failed to load item: ",
        Failure::PlaybackPrepare => "Playback prepare failed: ",
        Failure::ProgressSync => "Progress sync error: ",
        Failure::Tasks => "Task load failed: ",
        Failure::Action => "Action failed: ",
        Failure::Shuffle => "Shuffle failed: ",
        Failure::PlaylistAdd => "Add to playlist failed: ",
        Failure::MarkPlayed => "Mark played failed: ",
        Failure::MarkUnplayed => "Mark unplayed failed: ",
        Failure::DeleteItem => "Delete item failed: ",
        Failure::DeleteLibrary => "Delete library failed: ",
        Failure::SubtitleSearch => "Subtitle search failed: ",
        Failure::SubtitleDownload => "Subtitle download failed: ",
        Failure::BuildClient => "Failed to build API client: ",
        Failure::RestoreSession => "Failed to restore session: ",
    }
}

/// The status line for a failure with the error text `message`.
pub fn failure_status(f: Failure, message: &str) -> (s: String)
    ensures
        s@ == failure_heading(f) + message@,
{
    concat2(heading(f), message)
}

/// A list whose loading is reported with its size.
#[derive(Debug, Clone, Copy, PartialEq, Eq, Structural)]
pub enum Listing {
    Libraries,
    SearchItems,
    LibraryItems,
    Collections,
    Tasks,
    SubtitleResults,
}

/// The nouns a list's size is told with, and the verb before it.
pub open spec fn listing_words(l: Listing) -> (Seq<char>, Seq<char>, Seq<char>) {
    match l {
        Listing::Libraries => ("Loaded "@, "library"@, "libraries"@),
        Listing::SearchItems => ("Loaded "@, "search item"@, "search items"@),
        Listing::LibraryItems => ("Loaded "@, "library item"@, "library items"@),
        Listing::Collections => ("Loaded "@, "collection"@, "collections"@),
        Listing::Tasks => ("Loaded "@, "task"@, "tasks"@),
        Listing::SubtitleResults => ("Found "@, "subtitle result"@, "subtitle results"@),
    }
}

fn words(l: Listing) -> (w: (&'static str, &'static str, &'static str))
    ensures
        (w.0@, w.1@, w.2@) == listing_words(l),
{
    match l {
        Listing::Libraries => ("Loaded ", "library", "libraries"),
        Listing::SearchItems => ("Loaded ", "search item", "search items"),
        Listing::LibraryItems => ("Loaded ", "library item", "library items"),
        Listing::Collections => ("Loaded ", "collection", "collections"),
        Listing::Tasks => ("Loaded ", "task", "tasks"),
        Listing::SubtitleResults => ("Found ", "subtitle result", "subtitle results"),
    }
}

/// The status line after a list of `count` entries arrived, such as
/// "Loaded 3 libraries".
pub fn loaded_status(l: Listing, count: usize) -> (s: String)
    ensures
        s@ == listing_words(l).0 + count_text_spec(count as nat, listing_words(l).1, listing_words(l).2),
{
    let (verb, one, many) = words(l);
    let counted = count_text(count, one, many);
    concat2(verb, counted.as_str())
}

} // verus!
