//! The Jellyseerr / Overseerr REST API as requests.

use vstd::prelude::*;
use crate::error::{AppError, is_config_error};
use crate::text::{
    chars_of, ends_with, ends_with_chars, int_text, slice_chars, starts_with, starts_with_chars,
    string_of, trim, trim_end_char, trim_end_char_chars, trim_str, i32_text,
};
use crate::urls::{pairs_of, push_pair, url_parse, url_parse_result};
use super::models::{SeerrCreateRequest, SeerrSeasons};

verus! {

/// User agent sent with every call.
pub const USER_AGENT: &'static str = "slimjelly v0.2.0";

/// HTTP client settings for the Jellyseerr / Overseerr REST API.
#[derive(Debug, Clone)]
pub struct SeerrClient {
    pub base_url: String,
    pub api_key: String,
}

/// A call: absolute URL and query pairs (the API key and user agent go
/// into the headers).
#[derive(Debug, Clone)]
pub struct SeerrCall {
    pub url: String,
    pub query: Vec<(String, String)>,
}

/// The address with surrounding whitespace and trailing slashes removed.
pub open spec fn seerr_trimmed(raw: Seq<char>) -> Seq<char> {
    trim_end_char(trim(raw), '/')
}

/// The trimmed address without an "/api/v1" (or else "/api") suffix.
pub open spec fn seerr_root(raw: Seq<char>) -> Seq<char> {
    let t = seerr_trimmed(raw);
    if ends_with(t, "/api/v1"@) {
        t.subrange(0, t.len() - 7)
    } else if ends_with(t, "/api"@) {
        t.subrange(0, t.len() - 4)
    } else {
        t
    }
}

/// The root with "http://" in front when it has no scheme.
pub open spec fn seerr_url_text(raw: Seq<char>) -> Seq<char> {
    let t = seerr_root(raw);
    if starts_with(t, "http://"@) || starts_with(t, "https://"@) {
        t
    } else {
        "http://"@ + t
    }
}

/// `r` is the outcome of normalizing the Jellyseerr address `raw`.
pub open spec fn is_normalized_seerr_url(raw: Seq<char>, r: Result<Seq<char>, AppError>) -> bool {
    if seerr_trimmed(raw).len() == 0 {
        r matches Err(e) && is_config_error(e, "Jellyseerr URL cannot be empty"@)
    } else {
        match url_parse_result(seerr_url_text(raw)) {
            Ok(_) => r == Ok::<Seq<char>, AppError>(seerr_url_text(raw)),
            Err(t) => r matches Err(AppError::UrlParse(m)) && m@ == t,
        }
    }
}

pub open spec fn text_of_result(r: Result<String, AppError>) -> Result<Seq<char>, AppError> {
    match r {
        Ok(s) => Ok(s@),
        Err(e) => Err(e),
    }
}

/// The number of requests skipped before page `page` (pages count from 1).
pub open spec fn skip_for_page(page: i32, page_size: i32) -> int {
    let before = if page as int - 1 < i32::MIN {
        i32::MIN as int
    } else {
        page as int - 1
    };
    before * page_size
}

impl SeerrClient {
    /// Create a new client.
    ///
    /// `base_url` should be the root URL of the Jellyseerr instance
    /// (e.g. `http://localhost:5055`). Trailing slashes and `/api/v1`
    /// suffixes are normalized automatically.
    pub fn new(base_url: &str, api_key: &str) -> (r: Result<Self, AppError>)
        ensures
            is_normalized_seerr_url(
                base_url@,
                match r {
                    Ok(c) => Ok(c.base_url@),
                    Err(e) => Err(e),
                },
            ),
            r matches Ok(c) ==> c.api_key@ == api_key@,
    {
        let normalized = Self::normalize_url(base_url);
        match normalized {
            Ok(u) => Ok(SeerrClient { base_url: u, api_key: String::from_str(api_key) }),
            Err(e) => Err(e),
        }
    }

    /// Normalizes a Jellyseerr address: trims it and its trailing slashes,
    /// drops an "/api/v1" or "/api" suffix, adds "http://" when it has no
    /// scheme, and checks that it parses as a URL.
    pub fn normalize_url(raw: &str) -> (r: Result<String, AppError>)
        ensures
            is_normalized_seerr_url(raw@, text_of_result(r)),
    {
        let t0 = trim_str(raw);
        let t = trim_end_char_chars(&t0, '/');
        if t.len() == 0 {
            return Err(AppError::Config(String::from_str("Jellyseerr URL cannot be empty")));
        }
        let api_v1 = chars_of("/api/v1");
        let api = chars_of("/api");
        proof {
            reveal_strlit("/api/v1");
            reveal_strlit("/api");
        }
        let root = if ends_with_chars(&t, &api_v1) {
            slice_chars(&t, 0, t.len() - 7)
        } else if ends_with_chars(&t, &api) {
            slice_chars(&t, 0, t.len() - 4)
        } else {
            t
        };
        let http = chars_of("http://");
        let https = chars_of("https://");
        let with_scheme = if starts_with_chars(&root, &http) || starts_with_chars(&root, &https) {
            string_of(&root)
        } else {
            let mut s = String::from_str("http://");
            let r = string_of(&root);
            s.append(r.as_str());
            s
        };
        assert(with_scheme@ == seerr_url_text(raw@));
        match url_parse(with_scheme.as_str()) {
            Ok(_) => Ok(with_scheme),
            Err(t) => Err(AppError::UrlParse(t)),
        }
    }

    /// Search for movies and TV shows.
    pub fn search_call(&self, query: &str, page: i32) -> (c: SeerrCall)
        ensures
            c.url@ == self.base_url@ + "/api/v1/search"@,
            pairs_of(c.query@) == seq![
                ("query"@, query@),
                ("page"@, int_text(page as int)),
                ("language"@, "en"@),
            ],
    {
        let mut url = self.base_url.clone();
        url.append("/api/v1/search");
        let mut q: Vec<(String, String)> = Vec::new();
        assert(pairs_of(q@) =~= Seq::<(Seq<char>, Seq<char>)>::empty());
        push_pair(&mut q, "query", query);
        let p = i32_text(page);
        push_pair(&mut q, "page", p.as_str());
        push_pair(&mut q, "language", "en");
        assert(pairs_of(q@) =~= seq![
            ("query"@, query@),
            ("page"@, int_text(page as int)),
            ("language"@, "en"@),
        ]);
        SeerrCall { url, query: q }
    }

    /// Fetch the user's media requests: `page_size` of them, newest added
    /// first, after skipping the earlier pages.
    pub fn requests_call(&self, page: i32, page_size: i32) -> (c: SeerrCall)
        requires
            i32::MIN <= skip_for_page(page, page_size) <= i32::MAX,
        ensures
            c.url@ == self.base_url@ + "/api/v1/request"@,
            pairs_of(c.query@) == seq![
                ("take"@, int_text(page_size as int)),
                ("skip"@, int_text(skip_for_page(page, page_size))),
                ("sort"@, "added"@),
                ("filter"@, "all"@),
            ],
    {
        let mut url = self.base_url.clone();
        url.append("/api/v1/request");
        let before: i32 = if page == i32::MIN {
            i32::MIN
        } else {
            page - 1
        };
        let skip = before * page_size;
        let mut q: Vec<(String, String)> = Vec::new();
        assert(pairs_of(q@) =~= Seq::<(Seq<char>, Seq<char>)>::empty());
        let take = i32_text(page_size);
        push_pair(&mut q, "take", take.as_str());
        let s = i32_text(skip);
        push_pair(&mut q, "skip", s.as_str());
        push_pair(&mut q, "sort", "added");
        push_pair(&mut q, "filter", "all");
        assert(pairs_of(q@) =~= seq![
            ("take"@, int_text(page_size as int)),
            ("skip"@, int_text(skip_for_page(page, page_size))),
            ("sort"@, "added"@),
            ("filter"@, "all"@),
        ]);
        SeerrCall { url, query: q }
    }

    /// The URL requests are created at.
    pub fn create_request_url(&self) -> (u: String)
        ensures
            u@ == self.base_url@ + "/api/v1/request"@,
    {
        let mut url = self.base_url.clone();
        url.append("/api/v1/request");
        url
    }

    /// The body that requests a movie.
    pub fn movie_request(tmdb_id: i64) -> (b: SeerrCreateRequest)
        ensures
            b.media_type@ == "movie"@,
            b.media_id == tmdb_id,
            b.seasons is None,
    {
        SeerrCreateRequest { media_type: String::from_str("movie"), media_id: tmdb_id, seasons: None }
    }

    /// The body that requests a TV show: the given seasons, or all of them.
    pub fn tv_request(tmdb_id: i64, seasons: Option<Vec<i32>>) -> (b: SeerrCreateRequest)
        ensures
            b.media_type@ == "tv"@,
            b.media_id == tmdb_id,
            match seasons {
                Some(list) => b.seasons matches Some(SeerrSeasons::Selected(l)) && l@ == list@,
                None => b.seasons matches Some(SeerrSeasons::All(a)) && a@ == "all"@,
            },
    {
        let season_value = match seasons {
            Some(list) => SeerrSeasons::Selected(list),
            None => SeerrSeasons::All(String::from_str("all")),
        };
        SeerrCreateRequest {
            media_type: String::from_str("tv"),
            media_id: tmdb_id,
            seasons: Some(season_value),
        }
    }

    /// The outcome of a response, given its status code and the status's
    /// display text (e.g. "404 Not Found"): failures name the status.
    pub fn check_status(status: u16, status_text: &str) -> (r: Result<(), AppError>)
        ensures
            crate::error::is_success_status(status) ==> r is Ok,
            !crate::error::is_success_status(status) ==> (r matches Err(e)
                && crate::error::is_status_error(
                e,
                status,
                "Jellyseerr API returned "@ + status_text@,
            )),
    {
        if 200 <= status && status <= 299 {
            Ok(())
        } else {
            let mut m = String::from_str("Jellyseerr API returned ");
            m.append(status_text);
            Err(AppError::ApiStatus { status, message: m })
        }
    }
}

} // verus!
