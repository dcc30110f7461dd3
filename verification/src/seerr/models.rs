//! Data exchanged with Jellyseerr / Overseerr, and the status codes it uses.

use vstd::prelude::*;

use crate::text::opt_text;

verus! {

// ---------------------------------------------------------------------------
// Search
// ---------------------------------------------------------------------------

/// Paginated search response from `GET /api/v1/search`.
#[derive(Debug, Clone)]
pub struct SeerrSearchResponse {
    pub page: Option<i32>,
    pub total_pages: Option<i32>,
    pub total_results: Option<i32>,
    pub results: Vec<SeerrSearchResult>,
}

/// A single search result — may be a movie or tv show.
#[derive(Debug, Clone)]
pub struct SeerrSearchResult {
    pub id: Option<i64>,
    pub media_type: Option<String>,
    /// Movie title (present when `media_type == "movie"`).
    pub title: Option<String>,
    /// TV show name (present when `media_type == "tv"`).
    pub name: Option<String>,
    pub overview: Option<String>,
    pub poster_path: Option<String>,
    pub backdrop_path: Option<String>,
    pub release_date: Option<String>,
    pub first_air_date: Option<String>,
    pub media_info: Option<SeerrMediaInfo>,
}

/// Bytes that UTF-8 spends on `c`.
pub open spec fn utf8_width(c: char) -> nat {
    let u = c as u32;
    if u < 0x80 {
        1
    } else if u < 0x800 {
        2
    } else if u < 0x10000 {
        3
    } else {
        4
    }
}

/// The leading characters of `s` that take exactly `n` bytes in UTF-8,
/// if a character boundary lies there (`str::get(..n)`).
pub open spec fn utf8_prefix(s: Seq<char>, n: nat) -> Option<Seq<char>>
    decreases s.len(),
{
    if n == 0 {
        Some(Seq::empty())
    } else if s.len() == 0 || utf8_width(s[0]) > n {
        None
    } else {
        match utf8_prefix(s.drop_first(), (n - utf8_width(s[0])) as nat) {
            Some(t) => Some(seq![s[0]] + t),
            None => None,
        }
    }
}

/// The title shown for a result: the movie title, else the show name,
/// else "Unknown".
pub open spec fn display_title_of(title: Option<Seq<char>>, name: Option<Seq<char>>) -> Seq<char> {
    match title {
        Some(t) => t,
        None => match name {
            Some(n) => n,
            None => "Unknown"@,
        },
    }
}

/// The year shown for a result: the first four bytes of the release date,
/// else of the first air date, when they end on a character boundary.
pub open spec fn year_of(release: Option<Seq<char>>, first_air: Option<Seq<char>>) -> Option<Seq<char>> {
    let date = match release {
        Some(d) => Some(d),
        None => first_air,
    };
    match date {
        Some(d) => utf8_prefix(d, 4),
        None => None,
    }
}

fn utf8_width_of(c: char) -> (w: usize)
    ensures
        w == utf8_width(c),
{
    let u = c as u32;
    if u < 0x80 {
        1
    } else if u < 0x800 {
        2
    } else if u < 0x10000 {
        3
    } else {
        4
    }
}

/// The characters of `s` that make up its first `n` bytes, if `n` is a
/// character boundary.
pub fn str_byte_prefix(s: &str, n: usize) -> (r: Option<String>)
    ensures
        opt_text(r) == utf8_prefix(s@, n as nat),
{
    let v = crate::text::chars_of(s);
    let mut i: usize = 0;
    let mut used: usize = 0;
    proof {
        assert(v@.subrange(0, v@.len() as int) =~= v@);
        match utf8_prefix(v@, n as nat) {
            Some(t) => {
                assert(v@.subrange(0, 0) + t =~= t);
            },
            None => {},
        }
    }
    while used < n && i < v.len()
        invariant
            v@ == s@,
            i <= v.len(),
            used <= n,
            utf8_prefix(v@, n as nat) == match utf8_prefix(
                v@.subrange(i as int, v@.len() as int),
                (n - used) as nat,
            ) {
                Some(t) => Some(v@.subrange(0, i as int) + t),
                None => None,
            },
        decreases v.len() - i,
    {
        let w = utf8_width_of(v[i]);
        let ghost rest = v@.subrange(i as int, v@.len() as int);
        if w > n - used {
            proof {
                assert(rest.len() > 0);
                assert(rest[0] == v@[i as int]);
                assert(utf8_prefix(rest, (n - used) as nat) is None);
                assert(utf8_prefix(v@, n as nat) is None);
            }
            return None;
        }
        proof {
            assert(rest[0] == v@[i as int]);
            assert(rest.drop_first() =~= v@.subrange(i + 1, v@.len() as int));
            assert(v@.subrange(0, i + 1) =~= v@.subrange(0, i as int) + seq![v@[i as int]]);
            match utf8_prefix(rest.drop_first(), (n - used - w) as nat) {
                Some(t) => {
                    assert(v@.subrange(0, i as int) + (seq![rest[0]] + t) =~= v@.subrange(
                        0,
                        i + 1,
                    ) + t);
                },
                None => {},
            }
        }
        used = used + w;
        i = i + 1;
    }
    if used < n {
        assert(v@.subrange(i as int, v@.len() as int).len() == 0);
        return None;
    }
    proof {
        assert(utf8_prefix(v@.subrange(i as int, v@.len() as int), 0) == Some(Seq::<char>::empty()));
        assert(v@.subrange(0, i as int) + Seq::<char>::empty() =~= v@.subrange(0, i as int));
    }
    let p = crate::text::slice_chars(&v, 0, i);
    Some(crate::text::string_of(&p))
}

impl SeerrSearchResult {
    /// Returns the display title regardless of media type.
    pub fn display_title(&self) -> (t: String)
        ensures
            t@ == display_title_of(opt_text(self.title), opt_text(self.name)),
    {
        match &self.title {
            Some(t) => t.clone(),
            None => match &self.name {
                Some(n) => n.clone(),
                None => String::from_str("Unknown"),
            },
        }
    }

    /// Returns the release year as a string.
    pub fn year(&self) -> (y: Option<String>)
        ensures
            opt_text(y) == year_of(opt_text(self.release_date), opt_text(self.first_air_date)),
    {
        let date = match &self.release_date {
            Some(d) => Some(d),
            None => match &self.first_air_date {
                Some(d) => Some(d),
                None => None,
            },
        };
        match date {
            Some(d) => str_byte_prefix(d.as_str(), 4),
            None => None,
        }
    }
}

// ---------------------------------------------------------------------------
// Media info / status
// ---------------------------------------------------------------------------

/// Media info embedded in search results and detail responses.
#[derive(Debug, Clone)]
pub struct SeerrMediaInfo {
    pub id: Option<i64>,
    /// 1 = unknown, 2 = pending, 3 = processing, 4 = partially available, 5 = available.
    pub status: Option<i32>,
    pub requests: Option<Vec<SeerrRequestSummary>>,
}

/// Minimal request info nested in media info.
#[derive(Debug, Clone)]
pub struct SeerrRequestSummary {
    pub id: Option<i64>,
    /// 1 = pending, 2 = approved, 3 = declined.
    pub status: Option<i32>,
}

// ---------------------------------------------------------------------------
// Request list
// ---------------------------------------------------------------------------

/// Paginated response from `GET /api/v1/request`.
#[derive(Debug, Clone)]
pub struct SeerrRequestResponse {
    pub page_info: Option<SeerrPageInfo>,
    pub results: Vec<SeerrRequest>,
}

/// Pagination metadata.
#[derive(Debug, Clone)]
pub struct SeerrPageInfo {
    pub pages: Option<i32>,
    pub page_size: Option<i32>,
    pub results: Option<i32>,
    pub page: Option<i32>,
}

/// A media request.
#[derive(Debug, Clone)]
pub struct SeerrRequest {
    pub id: Option<i64>,
    pub media_type: Option<String>,
    pub status: Option<i32>,
    pub media: Option<SeerrRequestMedia>,
    pub created_at: Option<String>,
    pub requested_by: Option<SeerrUser>,
}

/// Media information within a request item.
#[derive(Debug, Clone)]
pub struct SeerrRequestMedia {
    pub id: Option<i64>,
    pub tmdb_id: Option<i64>,
    pub tvdb_id: Option<i64>,
    pub status: Option<i32>,
    pub media_type: Option<String>,
}

/// User summary.
#[derive(Debug, Clone)]
pub struct SeerrUser {
    pub id: Option<i64>,
    pub display_name: Option<String>,
    pub avatar: Option<String>,
}

// ---------------------------------------------------------------------------
// Create request
// ---------------------------------------------------------------------------

/// Request body for `POST /api/v1/request`.
#[derive(Debug, Clone)]
pub struct SeerrCreateRequest {
    pub media_type: String,
    pub media_id: i64,
    pub seasons: Option<SeerrSeasons>,
}

/// Season selection — either "all" or a list of season numbers.
#[derive(Debug, Clone)]
pub enum SeerrSeasons {
    All(String),
    Selected(Vec<i32>),
}

// ---------------------------------------------------------------------------
// Movie / TV detail (for checking status of a specific item)
// ---------------------------------------------------------------------------

/// Response from `GET /api/v1/movie/{tmdbId}`.
#[derive(Debug, Clone)]
pub struct SeerrMovieDetails {
    pub id: Option<i64>,
    pub title: Option<String>,
    pub overview: Option<String>,
    pub poster_path: Option<String>,
    pub release_date: Option<String>,
    pub media_info: Option<SeerrMediaInfo>,
}

/// Response from `GET /api/v1/tv/{tmdbId}`.
#[derive(Debug, Clone)]
pub struct SeerrTvDetails {
    pub id: Option<i64>,
    pub name: Option<String>,
    pub overview: Option<String>,
    pub poster_path: Option<String>,
    pub first_air_date: Option<String>,
    pub media_info: Option<SeerrMediaInfo>,
}

// ---------------------------------------------------------------------------
// Status helpers
// ---------------------------------------------------------------------------

/// Human-readable media availability status.
#[derive(Debug, Clone, Copy, PartialEq, Eq, Structural)]
pub enum MediaStatus {
    Unknown,
    Pending,
    Processing,
    PartiallyAvailable,
    Available,
}

/// The media status a Jellyseerr / Overseerr code stands for.
pub open spec fn media_status_of_code(code: int) -> MediaStatus {
    if code == 2 {
        MediaStatus::Pending
    } else if code == 3 {
        MediaStatus::Processing
    } else if code == 4 {
        MediaStatus::PartiallyAvailable
    } else if code == 5 {
        MediaStatus::Available
    } else {
        MediaStatus::Unknown
    }
}

/// The badge text of a media status.
pub open spec fn media_status_label(s: MediaStatus) -> Seq<char> {
    match s {
        MediaStatus::Unknown => "Not Requested"@,
        MediaStatus::Pending => "Pending"@,
        MediaStatus::Processing => "Processing"@,
        MediaStatus::PartiallyAvailable => "Partial"@,
        MediaStatus::Available => "Available"@,
    }
}

impl MediaStatus {
    /// Parse from integer status code used by Jellyseerr / Overseerr.
    pub fn from_code(code: i32) -> (status: Self)
        ensures
            status == media_status_of_code(code as int),
    {
        match code {
            2 => MediaStatus::Pending,
            3 => MediaStatus::Processing,
            4 => MediaStatus::PartiallyAvailable,
            5 => MediaStatus::Available,
            _ => MediaStatus::Unknown,
        }
    }

    /// Display label for UI badges.
    pub fn label(self) -> (l: &'static str)
        ensures
            l@ == media_status_label(self),
    {
        match self {
            MediaStatus::Unknown => "Not Requested",
            MediaStatus::Pending => "Pending",
            MediaStatus::Processing => "Processing",
            MediaStatus::PartiallyAvailable => "Partial",
            MediaStatus::Available => "Available",
        }
    }
}

/// Human-readable request approval status.
#[derive(Debug, Clone, Copy, PartialEq, Eq, Structural)]
pub enum RequestStatus {
    Pending,
    Approved,
    Declined,
    Unknown,
}

/// The request status a Jellyseerr / Overseerr code stands for.
pub open spec fn request_status_of_code(code: int) -> RequestStatus {
    if code == 1 {
        RequestStatus::Pending
    } else if code == 2 {
        RequestStatus::Approved
    } else if code == 3 {
        RequestStatus::Declined
    } else {
        RequestStatus::Unknown
    }
}

/// The badge text of a request status.
pub open spec fn request_status_label(s: RequestStatus) -> Seq<char> {
    match s {
        RequestStatus::Pending => "Pending"@,
        RequestStatus::Approved => "Approved"@,
        RequestStatus::Declined => "Declined"@,
        RequestStatus::Unknown => "Unknown"@,
    }
}

impl RequestStatus {
    /// Parse from integer status code used by Jellyseerr / Overseerr.
    pub fn from_code(code: i32) -> (status: Self)
        ensures
            status == request_status_of_code(code as int),
    {
        match code {
            1 => RequestStatus::Pending,
            2 => RequestStatus::Approved,
            3 => RequestStatus::Declined,
            _ => RequestStatus::Unknown,
        }
    }

    /// Display label for UI badges.
    pub fn label(self) -> (l: &'static str)
        ensures
            l@ == request_status_label(self),
    {
        match self {
            RequestStatus::Pending => "Pending",
            RequestStatus::Approved => "Approved",
            RequestStatus::Declined => "Declined",
            RequestStatus::Unknown => "Unknown",
        }
    }
}

/// Distinct media statuses have distinct labels, so a badge names its
/// status unambiguously.
pub proof fn media_status_labels_distinct(a: MediaStatus, b: MediaStatus)
    requires
        a != b,
    ensures
        media_status_label(a) != media_status_label(b),
{
    reveal_strlit("Not Requested");
    reveal_strlit("Pending");
    reveal_strlit("Processing");
    reveal_strlit("Partial");
    reveal_strlit("Available");
    let la = media_status_label(a);
    let lb = media_status_label(b);
    if la == lb {
        assert(la.len() == lb.len());
        assert(la[0] == lb[0]);
        assert(la[1] == lb[1]);
        assert(la[2] == lb[2]);
    }
}

/// Distinct request statuses have distinct labels.
pub proof fn request_status_labels_distinct(a: RequestStatus, b: RequestStatus)
    requires
        a != b,
    ensures
        request_status_label(a) != request_status_label(b),
{
    reveal_strlit("Pending");
    reveal_strlit("Approved");
    reveal_strlit("Declined");
    reveal_strlit("Unknown");
    let la = request_status_label(a);
    let lb = request_status_label(b);
    if la == lb {
        assert(la[0] == lb[0]);
    }
}

/// Every code outside 2..=5 reads as "not requested"; each code inside
/// names its own status.
pub proof fn media_status_codes(code: int)
    ensures
        (code < 2 || code > 5) <==> media_status_of_code(code) == MediaStatus::Unknown,
        2 <= code <= 5 ==> forall|other: int|
            #![trigger media_status_of_code(other)]
            media_status_of_code(other) == media_status_of_code(code) ==> other == code,
{
}

/// Every code outside 1..=3 reads as unknown; each code inside names its
/// own status.
pub proof fn request_status_codes(code: int)
    ensures
        (code < 1 || code > 3) <==> request_status_of_code(code) == RequestStatus::Unknown,
        1 <= code <= 3 ==> forall|other: int|
            #![trigger request_status_of_code(other)]
            request_status_of_code(other) == request_status_of_code(code) ==> other == code,
{
}

/// Jellyseerr's request codes: 1 is a request awaiting approval, 2 an
/// approved one, 3 a declined one; any other code is unknown.
pub proof fn request_codes_name_their_status(code: int)
    ensures
        request_status_of_code(code) == RequestStatus::Pending <==> code == 1,
        request_status_of_code(code) == RequestStatus::Approved <==> code == 2,
        request_status_of_code(code) == RequestStatus::Declined <==> code == 3,
        request_status_of_code(code) == RequestStatus::Unknown <==> (code != 1 && code != 2 && code != 3),
{
}

} // verus!
