//! The OpenSubtitles REST API as requests, and what its login answer means.

use vstd::prelude::*;
use crate::error::{AppError, is_status_error};
use crate::text::{string_of, trim, trim_str};
use crate::urls::{pairs_of, push_pair};
use super::models::{DownloadRequest, LoginRequest, LoginResponse};

verus! {

/// Root of the OpenSubtitles REST API.
pub const BASE_URL: &'static str = "https://api.opensubtitles.com/api/v1";

/// User agent sent with every call.
pub const USER_AGENT: &'static str = "slimjelly v0.2.0";

/// HTTP client settings for the OpenSubtitles REST API.
#[derive(Debug, Clone)]
pub struct OpenSubtitlesClient {
    pub api_key: String,
}

/// The languages filter of a search, when the trimmed list is not empty.
pub open spec fn languages_pairs(languages: Seq<char>) -> Seq<(Seq<char>, Seq<char>)> {
    if trim(languages).len() == 0 {
        seq![]
    } else {
        seq![("languages"@, trim(languages))]
    }
}

impl OpenSubtitlesClient {
    /// Create a new client with the given API key.
    pub fn new(api_key: &str) -> (c: Self)
        ensures
            c.api_key@ == api_key@,
    {
        OpenSubtitlesClient { api_key: String::from_str(api_key) }
    }

    /// The search URL.
    pub fn search_url() -> (u: String)
        ensures
            u@ == BASE_URL@ + "/subtitles"@,
    {
        let mut u = String::from_str(BASE_URL);
        u.append("/subtitles");
        u
    }

    /// The login URL.
    pub fn login_url() -> (u: String)
        ensures
            u@ == BASE_URL@ + "/login"@,
    {
        let mut u = String::from_str(BASE_URL);
        u.append("/login");
        u
    }

    /// The download URL.
    pub fn download_url() -> (u: String)
        ensures
            u@ == BASE_URL@ + "/download"@,
    {
        let mut u = String::from_str(BASE_URL);
        u.append("/download");
        u
    }

    /// The query of a search by text and languages.
    ///
    /// `languages` is a comma-separated string of ISO 639-1 codes (e.g.
    /// `"en"`, `"ar,en"`); it is trimmed and left out when empty.
    pub fn search_query(query: &str, languages: &str) -> (q: Vec<(String, String)>)
        ensures
            pairs_of(q@) == seq![("query"@, query@)] + languages_pairs(languages@),
    {
        let mut q: Vec<(String, String)> = Vec::new();
        assert(pairs_of(q@) =~= Seq::<(Seq<char>, Seq<char>)>::empty());
        push_pair(&mut q, "query", query);
        let t = trim_str(languages);
        if t.len() > 0 {
            let ts = string_of(&t);
            push_pair(&mut q, "languages", ts.as_str());
        }
        assert(pairs_of(q@) =~= seq![("query"@, query@)] + languages_pairs(languages@));
        q
    }

    /// The login body.
    pub fn login_body(username: &str, password: &str) -> (b: LoginRequest)
        ensures
            b.username@ == username@,
            b.password@ == password@,
    {
        LoginRequest { username: String::from_str(username), password: String::from_str(password) }
    }

    /// The token of a successful login answer; an answer without one is an
    /// error.
    pub fn login_token(resp: LoginResponse) -> (r: Result<String, AppError>)
        ensures
            match resp.token {
                Some(t) => r matches Ok(s) && s@ == t@,
                None => r matches Err(e) && is_status_error(
                    e,
                    200,
                    "login response contained no token"@,
                ),
            },
    {
        match resp.token {
            Some(t) => Ok(t),
            None => Err(
                AppError::ApiStatus {
                    status: 200,
                    message: String::from_str("login response contained no token"),
                },
            ),
        }
    }

    /// The body that asks for a download link of a file, in SubRip format.
    pub fn download_body(file_id: i64) -> (b: DownloadRequest)
        ensures
            b.file_id == file_id,
            b.sub_format matches Some(f) && f@ == "srt"@,
    {
        DownloadRequest { file_id, sub_format: Some(String::from_str("srt")) }
    }

    /// The `Authorization` header for a login token.
    pub fn bearer(token: &str) -> (h: String)
        ensures
            h@ == "Bearer "@ + token@,
    {
        let mut h = String::from_str("Bearer ");
        h.append(token);
        h
    }
}

} // verus!
