//! What the browsing screens show: labels and summaries of items, the
//! order of episodes and seasons, the home page's hero items, and the
//! queries that fill each screen.

use vstd::prelude::*;
use crate::jellyfin::models::{BaseItemDto, MediaSourceInfo};
use crate::text::{int_text, nat_text, pad2_text, i32_text, i64_text, u64_text, pad2, str_eq, opt_text, opt_str_text};

verus! {

#[derive(Debug, Clone, Copy, PartialEq, Eq, Structural)]
pub enum Screen {
    Login,
    Home,
    Search,
    Libraries,
    Collections,
    Playlists,
    Requests,
    Admin,
    Settings,
    Details,
}

#[derive(Debug, Clone, Copy, PartialEq, Eq, Structural)]
pub enum LibrarySection {
    Movies,
    TvShows,
    Music,
    Audiobooks,
}

/// `o`'s text, or `default` when there is none.
pub open spec fn text_or(o: Option<String>, default: Seq<char>) -> Seq<char> {
    match o {
        Some(s) => s@,
        None => default,
    }
}

/// The text of an optional number, or "--".
pub open spec fn number_or_dashes(o: Option<i32>) -> Seq<char> {
    match o {
        Some(n) => int_text(n as int),
        None => "--"@,
    }
}

fn string_or(o: &Option<String>, default: &str) -> (s: String)
    ensures
        s@ == text_or(*o, default@),
{
    match o {
        Some(s) => s.clone(),
        None => String::from_str(default),
    }
}

fn number_or_dashes_text(o: Option<i32>) -> (s: String)
    ensures
        s@ == number_or_dashes(o),
{
    match o {
        Some(n) => i32_text(n),
        None => String::from_str("--"),
    }
}

// ---------------------------------------------------------------------------
// Labels
// ---------------------------------------------------------------------------

/// "N thing" or "N things".
pub open spec fn count_text_spec(count: nat, singular: Seq<char>, plural: Seq<char>) -> Seq<char> {
    nat_text(count) + " "@ + if count == 1 {
        singular
    } else {
        plural
    }
}

/// A count with its noun in the right number.
pub fn count_text(count: usize, singular: &str, plural: &str) -> (s: String)
    ensures
        s@ == count_text_spec(count as nat, singular@, plural@),
{
    let mut s = u64_text(count as u64);
    s.append(" ");
    if count == 1 {
        s.append(singular);
    } else {
        s.append(plural);
    }
    s
}

/// A running time in server ticks as "Hh MMm" (or "Mm" under an hour);
/// "--" when unknown or not positive.
pub open spec fn runtime_text(run_time_ticks: Option<i64>) -> Seq<char> {
    match run_time_ticks {
        Some(t) => if t <= 0 {
            "--"@
        } else {
            let total_seconds = t / 10_000_000;
            let hours = total_seconds / 3600;
            let minutes = (total_seconds % 3600) / 60;
            if hours > 0 {
                nat_text(hours as nat) + "h "@ + pad2_text(minutes as nat) + "m"@
            } else {
                nat_text(minutes as nat) + "m"@
            }
        },
        None => "--"@,
    }
}

/// A running time for display.
pub fn format_runtime(run_time_ticks: Option<i64>) -> (s: String)
    ensures
        s@ == runtime_text(run_time_ticks),
{
    match run_time_ticks {
        None => String::from_str("--"),
        Some(ticks) => {
            if ticks <= 0 {
                return String::from_str("--");
            }
            let total_seconds = ticks / 10_000_000;
            let hours = total_seconds / 3600;
            let minutes = (total_seconds % 3600) / 60;
            if hours > 0 {
                let mut s = i64_text(hours);
                s.append("h ");
                let m = pad2(minutes as u64);
                s.append(m.as_str());
                s.append("m");
                proof {
                    assert(int_text(hours as int) == nat_text(hours as nat));
                }
                s
            } else {
                let mut s = i64_text(minutes);
                s.append("m");
                proof {
                    assert(int_text(minutes as int) == nat_text(minutes as nat));
                }
                s
            }
        },
    }
}

/// The first `max_chars` characters of `value` followed by "..." when it
/// is longer, else `value`.
pub open spec fn truncated_text(value: Seq<char>, max_chars: nat) -> Seq<char> {
    if value.len() <= max_chars {
        value
    } else {
        value.subrange(0, max_chars as int) + "..."@
    }
}

/// `value` cut to at most `max_chars` characters plus an ellipsis.
pub fn truncate_text(value: &str, max_chars: usize) -> (s: String)
    ensures
        s@ == truncated_text(value@, max_chars as nat),
{
    let v = crate::text::chars_of(value);
    if v.len() <= max_chars {
        return String::from_str(value);
    }
    let head = crate::text::slice_chars(&v, 0, max_chars);
    let mut s = crate::text::string_of(&head);
    s.append("...");
    s
}

/// "Kind | Year" of an item.
pub open spec fn item_subtitle_text(item: BaseItemDto) -> Seq<char> {
    text_or(item.item_type, "Unknown"@) + " | "@ + number_or_dashes(item.production_year)
}

/// The line under an item's title: its kind and year.
pub fn item_subtitle(item: &BaseItemDto) -> (s: String)
    ensures
        s@ == item_subtitle_text(*item),
{
    let mut s = string_or(&item.item_type, "Unknown");
    s.append(" | ");
    let y = number_or_dashes_text(item.production_year);
    s.append(y.as_str());
    s
}

/// "N. Name" of an episode.
pub open spec fn episode_title_text(item: BaseItemDto) -> Seq<char> {
    number_or_dashes(item.index_number) + ". "@ + text_or(item.name, "Untitled"@)
}

/// The title of an episode with its number.
pub fn episode_title(item: &BaseItemDto) -> (s: String)
    ensures
        s@ == episode_title_text(*item),
{
    let mut s = number_or_dashes_text(item.index_number);
    s.append(". ");
    let n = string_or(&item.name, "Untitled");
    s.append(n.as_str());
    s
}

/// "SS:EE | runtime" of an episode.
pub open spec fn episode_subtitle_text(item: BaseItemDto) -> Seq<char> {
    "S"@ + number_or_dashes(item.parent_index_number) + ":E"@ + number_or_dashes(item.index_number)
        + " | "@ + runtime_text(item.run_time_ticks)
}

/// The line under an episode's title: season, episode and running time.
pub fn episode_subtitle(item: &BaseItemDto) -> (s: String)
    ensures
        s@ == episode_subtitle_text(*item),
{
    let mut s = String::from_str("S");
    let season = number_or_dashes_text(item.parent_index_number);
    s.append(season.as_str());
    s.append(":E");
    let episode = number_or_dashes_text(item.index_number);
    s.append(episode.as_str());
    s.append(" | ");
    let runtime = format_runtime(item.run_time_ticks);
    s.append(runtime.as_str());
    s
}

/// The technical summary of an item's media source.
pub open spec fn tech_summary_text(media: Option<MediaSourceInfo>) -> Seq<char> {
    match media {
        None => "Tech: --"@,
        Some(m) => "Tech: "@ + text_or(m.container, "--"@) + " | "@ + (if m.supports_direct_play
            == Some(true) {
            "Direct"@
        } else {
            "No Direct"@
        }) + " | "@ + if m.supports_transcoding == Some(true) {
            "Transcode"@
        } else {
            "No Transcode"@
        },
    }
}

/// The technical summary of the media source shown on the details screen.
pub fn detail_tech_summary(media: &Option<MediaSourceInfo>) -> (s: String)
    ensures
        s@ == tech_summary_text(*media),
{
    match media {
        None => String::from_str("Tech: --"),
        Some(m) => {
            let mut s = String::from_str("Tech: ");
            let c = string_or(&m.container, "--");
            s.append(c.as_str());
            s.append(" | ");
            if m.supports_direct_play == Some(true) {
                s.append("Direct");
            } else {
                s.append("No Direct");
            }
            s.append(" | ");
            if m.supports_transcoding == Some(true) {
                s.append("Transcode");
            } else {
                s.append("No Transcode");
            }
            s
        },
    }
}

/// The item was played to the end.
pub open spec fn watched(item: BaseItemDto) -> bool {
    match item.user_data {
        Some(d) => d.played == Some(true),
        None => false,
    }
}

/// Whether the user finished the item.
pub fn is_item_watched(item: &BaseItemDto) -> (b: bool)
    ensures
        b == watched(*item),
{
    match &item.user_data {
        Some(d) => d.played == Some(true),
        None => false,
    }
}

/// The image tag shown for an item: its primary tag, else the primary
/// image tag, else the thumbnail tag.
pub open spec fn image_tag_spec(item: BaseItemDto) -> Option<Seq<char>> {
    match opt_text(item.primary_image_tag) {
        Some(t) => Some(t),
        None => match item.image_tags {
            Some(tags) => match opt_text(tags.primary) {
                Some(t) => Some(t),
                None => opt_text(tags.thumb),
            },
            None => None,
        },
    }
}

/// The image tag shown for an item.
pub fn image_tag_for_item(item: &BaseItemDto) -> (t: Option<String>)
    ensures
        opt_text(t) == image_tag_spec(*item),
{
    match &item.primary_image_tag {
        Some(t) => Some(t.clone()),
        None => match &item.image_tags {
            Some(tags) => match &tags.primary {
                Some(t) => Some(t.clone()),
                None => match &tags.thumb {
                    Some(t) => Some(t.clone()),
                    None => None,
                },
            },
            None => None,
        },
    }
}

/// "id|WxH|type|tag" (tag "untagged" when there is none).
pub open spec fn thumbnail_key_text(
    item_id: Seq<char>,
    width: u32,
    height: u32,
    image_type: Seq<char>,
    tag: Option<Seq<char>>,
) -> Seq<char> {
    item_id + "|"@ + nat_text(width as nat) + "x"@ + nat_text(height as nat) + "|"@ + image_type
        + "|"@ + match tag {
        Some(t) => t,
        None => "untagged"@,
    }
}

/// The cache key of a thumbnail.
pub fn thumbnail_key(item_id: &str, width: u32, height: u32, image_type: &str, tag: Option<&str>) -> (k:
    String)
    ensures
        k@ == thumbnail_key_text(item_id@, width, height, image_type@, opt_str_text(tag)),
{
    let mut k = String::from_str(item_id);
    k.append("|");
    let w = u64_text(width as u64);
    k.append(w.as_str());
    k.append("x");
    let h = u64_text(height as u64);
    k.append(h.as_str());
    k.append("|");
    k.append(image_type);
    k.append("|");
    match tag {
        Some(t) => k.append(t),
        None => k.append("untagged"),
    }
    k
}

/// The text a subtitle search uses for an item: for an episode of a
/// known series with season and episode numbers, "Series SxxEyy"; for an
/// episode of a known series otherwise, "Series Name"; else the name.
pub open spec fn subtitle_query_text(item: BaseItemDto) -> Seq<char> {
    let name = text_or(item.name, Seq::empty());
    if opt_text(item.item_type) == Some("Episode"@) {
        let series = text_or(item.series_name, Seq::empty());
        let s = match item.parent_index_number {
            Some(n) => n as int,
            None => 0,
        };
        let e = match item.index_number {
            Some(n) => n as int,
            None => 0,
        };
        if series.len() > 0 && s > 0 && e > 0 {
            series + " S"@ + pad2_text(s as nat) + "E"@ + pad2_text(e as nat)
        } else if series.len() > 0 {
            series + " "@ + name
        } else {
            name
        }
    } else {
        name
    }
}

/// The text to search subtitles with for an item.
pub fn subtitle_search_query(item: &BaseItemDto) -> (q: String)
    ensures
        q@ == subtitle_query_text(*item),
{
    let is_episode = match &item.item_type {
        Some(t) => str_eq(t.as_str(), "Episode"),
        None => false,
    };
    if is_episode {
        let series = string_or(&item.series_name, "");
        proof {
            reveal_strlit("");
        }
        let s: i32 = match item.parent_index_number {
            Some(n) => n,
            None => 0,
        };
        let e: i32 = match item.index_number {
            Some(n) => n,
            None => 0,
        };
        if !series.as_str().is_empty() && s > 0 && e > 0 {
            let mut q = series;
            q.append(" S");
            let ps = pad2(s as u64);
            q.append(ps.as_str());
            q.append("E");
            let pe = pad2(e as u64);
            q.append(pe.as_str());
            q
        } else if !series.as_str().is_empty() {
            let mut q = series;
            q.append(" ");
            let n = string_or(&item.name, "");
            q.append(n.as_str());
            q
        } else {
            string_or(&item.name, "")
        }
    } else {
        proof {
            reveal_strlit("");
        }
        string_or(&item.name, "")
    }
}

/// The item types listed under a library section.
pub open spec fn section_types_spec(section: LibrarySection) -> Seq<Seq<char>> {
    match section {
        LibrarySection::Movies => seq!["Movie"@],
        LibrarySection::TvShows => seq!["Series"@],
        LibrarySection::Music => seq!["MusicAlbum"@, "Audio"@],
        LibrarySection::Audiobooks => seq!["AudioBook"@],
    }
}

/// The item types listed under a library section.
pub fn library_section_types(section: LibrarySection) -> (v: Vec<&'static str>)
    ensures
        crate::urls::texts_of(v@) == section_types_spec(section),
{
    let mut v: Vec<&'static str> = Vec::new();
    match section {
        LibrarySection::Movies => v.push("Movie"),
        LibrarySection::TvShows => v.push("Series"),
        LibrarySection::Music => {
            v.push("MusicAlbum");
            v.push("Audio");
        },
        LibrarySection::Audiobooks => v.push("AudioBook"),
    }
    assert(crate::urls::texts_of(v@) =~= section_types_spec(section));
    v
}

/// The item types a search covers.
pub fn search_item_types() -> (v: Vec<&'static str>)
    ensures
        crate::urls::texts_of(v@) == seq![
            "Movie"@,
            "Series"@,
            "Episode"@,
            "Audio"@,
            "AudioBook"@,
            "MusicAlbum"@,
            "Program"@,
            "BoxSet"@,
        ],
{
    let mut v: Vec<&'static str> = Vec::new();
    v.push("Movie");
    v.push("Series");
    v.push("Episode");
    v.push("Audio");
    v.push("AudioBook");
    v.push("MusicAlbum");
    v.push("Program");
    v.push("BoxSet");
    assert(crate::urls::texts_of(v@) =~= seq![
        "Movie"@,
        "Series"@,
        "Episode"@,
        "Audio"@,
        "AudioBook"@,
        "MusicAlbum"@,
        "Program"@,
        "BoxSet"@,
    ]);
    v
}

} // verus!
