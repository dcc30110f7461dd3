//! Data exchanged with a Jellyfin server, as plain values.
//!
//! Floating-point fields of the wire format are held as their IEEE-754 bit
//! patterns (`f32::to_bits` / `f64::to_bits`), which no logic here reads.

use vstd::prelude::*;

verus! {

#[derive(Debug, Clone)]
pub struct AuthenticateUserByName {
    pub username: String,
    pub pw: String,
}

#[derive(Debug, Clone)]
pub struct AuthenticationResult {
    pub access_token: Option<String>,
    pub user: Option<UserDto>,
    pub session_info: Option<SessionInfoDto>,
    pub server_id: Option<String>,
}

#[derive(Debug, Clone)]
pub struct UserDto {
    pub id: Option<String>,
    pub name: Option<String>,
    pub server_id: Option<String>,
    pub policy: Option<UserPolicy>,
}

#[derive(Debug, Clone)]
pub struct UserPolicy {
    pub is_administrator: Option<bool>,
}

#[derive(Debug, Clone)]
pub struct SessionInfoDto {
    pub id: Option<String>,
    pub user_id: Option<String>,
}

#[derive(Debug, Clone)]
pub struct PublicSystemInfo {
    pub version: Option<String>,
    pub server_name: Option<String>,
    pub product_name: Option<String>,
    pub operating_system: Option<String>,
}

#[derive(Debug, Clone)]
pub struct BaseItemDtoQueryResult {
    pub items: Option<Vec<BaseItemDto>>,
    pub total_record_count: Option<i32>,
}

#[derive(Debug, Clone)]
pub struct BaseItemDto {
    pub id: Option<String>,
    pub name: Option<String>,
    pub item_type: Option<String>,
    pub media_type: Option<String>,
    pub index_number: Option<i32>,
    pub parent_index_number: Option<i32>,
    pub production_year: Option<i32>,
    /// `CommunityRating` as the bits of an `f32`.
    pub community_rating_bits: Option<u32>,
    pub official_rating: Option<String>,
    pub run_time_ticks: Option<i64>,
    pub overview: Option<String>,
    pub people: Option<Vec<BaseItemPerson>>,
    pub primary_image_tag: Option<String>,
    pub image_tags: Option<ItemImageTags>,
    pub playlist_item_id: Option<String>,
    pub last_played_date: Option<String>,
    pub user_data: Option<UserItemDataDto>,
    pub season_id: Option<String>,
    pub parent_id: Option<String>,
    pub series_id: Option<String>,
    pub series_name: Option<String>,
}

#[derive(Debug, Clone)]
pub struct BaseItemPerson {
    pub id: Option<String>,
    pub name: Option<String>,
    pub role: Option<String>,
    pub person_type: Option<String>,
    pub primary_image_tag: Option<String>,
}

#[derive(Debug, Clone)]
pub struct ItemImageTags {
    pub primary: Option<String>,
    pub thumb: Option<String>,
    pub backdrop: Option<String>,
    pub logo: Option<String>,
}

#[derive(Debug, Clone)]
pub struct UserItemDataDto {
    pub playback_position_ticks: Option<i64>,
    pub played: Option<bool>,
}

#[derive(Debug, Clone)]
pub struct SearchHintResult {
    pub search_hints: Option<Vec<SearchHint>>,
    pub total_record_count: Option<i32>,
}

#[derive(Debug, Clone)]
pub struct SearchHint {
    pub item_id: Option<String>,
    pub name: Option<String>,
    pub item_type: Option<String>,
}

#[derive(Debug, Clone)]
pub struct PlaybackInfoRequest {
    pub user_id: Option<String>,
    pub start_time_ticks: Option<i64>,
    pub audio_stream_index: Option<i32>,
    pub subtitle_stream_index: Option<i32>,
    pub media_source_id: Option<String>,
    pub enable_direct_play: Option<bool>,
    pub enable_direct_stream: Option<bool>,
    pub enable_transcoding: Option<bool>,
    pub max_streaming_bitrate: Option<i32>,
}

#[derive(Debug, Clone)]
pub struct PlaybackInfoResponse {
    pub media_sources: Option<Vec<MediaSourceInfo>>,
    pub play_session_id: Option<String>,
    pub error_code: Option<String>,
}

#[derive(Debug, Clone)]
pub struct MediaSourceInfo {
    pub id: Option<String>,
    pub path: Option<String>,
    pub container: Option<String>,
    pub supports_direct_play: Option<bool>,
    pub supports_direct_stream: Option<bool>,
    pub supports_transcoding: Option<bool>,
    pub default_audio_stream_index: Option<i32>,
    pub default_subtitle_stream_index: Option<i32>,
}

#[derive(Debug, Clone)]
pub struct PlaybackStartInfo {
    pub item_id: String,
    pub play_session_id: Option<String>,
    pub can_seek: Option<bool>,
    pub is_paused: Option<bool>,
    pub position_ticks: Option<i64>,
    pub media_source_id: Option<String>,
}

#[derive(Debug, Clone)]
pub struct PlaybackProgressInfo {
    pub item_id: String,
    pub play_session_id: Option<String>,
    pub position_ticks: Option<i64>,
    pub is_paused: Option<bool>,
    pub media_source_id: Option<String>,
}

#[derive(Debug, Clone)]
pub struct PlaybackStopInfo {
    pub item_id: String,
    pub play_session_id: Option<String>,
    pub position_ticks: Option<i64>,
    pub media_source_id: Option<String>,
}

#[derive(Debug, Clone)]
pub struct TaskInfo {
    pub id: Option<String>,
    pub name: Option<String>,
    pub state: Option<String>,
    /// `CurrentProgressPercentage` as the bits of an `f64`.
    pub current_progress_percentage_bits: Option<u64>,
    pub category: Option<String>,
}

#[derive(Debug, Clone)]
pub struct VirtualFolderInfo {
    pub name: Option<String>,
    pub locations: Option<Vec<String>>,
    pub collection_type: Option<String>,
    pub item_id: Option<String>,
    /// `RefreshProgress` as the bits of an `f64`.
    pub refresh_progress_bits: Option<u64>,
    pub refresh_status: Option<String>,
}

/// The first item of a query result, if it has any.
pub fn first_item(result: BaseItemDtoQueryResult) -> (item: Option<BaseItemDto>)
    ensures
        item == match result.items {
            Some(v) => if v@.len() > 0 {
                Some(v@[0])
            } else {
                None
            },
            None => None,
        },
{
    match result.items {
        Some(mut v) => {
            if v.len() > 0 {
                Some(v.remove(0))
            } else {
                None
            }
        },
        None => None,
    }
}

/// The items of a query result (none when the server sent no list).
pub fn items_or_empty(result: BaseItemDtoQueryResult) -> (items: Vec<BaseItemDto>)
    ensures
        items@ == match result.items {
            Some(v) => v@,
            None => Seq::empty(),
        },
{
    match result.items {
        Some(v) => v,
        None => Vec::new(),
    }
}

} // verus!
