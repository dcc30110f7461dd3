//! The Jellyfin API as requests: the normalized server address, the
//! authorization header, every endpoint's path and query, and the stream,
//! subtitle and image URLs. Sending the requests is left to the caller.

use vstd::prelude::*;
use crate::config::ServerConfig;
use crate::error::{AppError, is_config_error};
use crate::net::{is_local_host, is_local_host_spec};
use crate::text::{
    opt_text, opt_str_text,
    chars_of, ends_with, int_text, nat_text, push_char, starts_with, starts_with_chars, trim,
    trim_str, string_of, i32_text, u32_text,
};
use crate::urls::{
    join_strs, join_with, opt_pair, pairs_of, push_pair, texts_of, url_append_query, url_join,
    url_join_result, url_parse, url_parse_result, url_query_result,
};
use super::models::{AuthenticateUserByName};

verus! {

/// Name the client reports itself under.
pub const CLIENT_DEVICE: &'static str = "slimjelly";

/// A client of one Jellyfin server: its normalized base URL, the access
/// token once signed in, and this device's identifier.
#[derive(Debug, Clone)]
pub struct JellyfinClient {
    base_url: String,
    token: Option<String>,
    device_id: String,
}

pub struct JellyfinClientView {
    pub base_url: Seq<char>,
    pub token: Option<Seq<char>>,
    pub device_id: Seq<char>,
}

impl View for JellyfinClient {
    type V = JellyfinClientView;

    closed spec fn view(&self) -> JellyfinClientView {
        JellyfinClientView {
            base_url: self.base_url@,
            token: opt_text(self.token),
            device_id: self.device_id@,
        }
    }
}

// ---------------------------------------------------------------------------
// Base URL
// ---------------------------------------------------------------------------

pub open spec fn has_http_scheme(s: Seq<char>) -> bool {
    starts_with(s, "http://"@) || starts_with(s, "https://"@)
}

/// The scheme assumed for an address typed without one: plain HTTP on the
/// local machine or network, HTTPS elsewhere.
pub open spec fn scheme_for_host(raw: Seq<char>) -> Seq<char> {
    if is_local_host_spec(raw) {
        "http"@
    } else {
        "https"@
    }
}

/// The text handed to the URL parser for a configured server address: the
/// trimmed address, with the inferred scheme when it has none, ending in '/'.
pub open spec fn prepared_base_url(input: Seq<char>) -> Seq<char> {
    let raw = trim(input);
    let with_scheme = if has_http_scheme(raw) {
        raw
    } else {
        scheme_for_host(raw) + "://"@ + raw
    };
    if ends_with(with_scheme, "/"@) {
        with_scheme
    } else {
        with_scheme.push('/')
    }
}

/// Message of the error for an empty server address.
pub open spec fn empty_base_url_message() -> Seq<char> {
    "server.base_url must not be empty"@
}

/// Message of the error for a server address the URL parser refused.
pub open spec fn invalid_base_url_message(input: Seq<char>, err: Seq<char>) -> Seq<char> {
    "invalid server.base_url '"@ + input + "': "@ + err
}

/// The text of a string result.
pub open spec fn string_result(r: Result<String, AppError>) -> Result<Seq<char>, AppError> {
    match r {
        Ok(s) => Ok(s@),
        Err(e) => Err(e),
    }
}

/// `r` is the outcome of normalizing the server address `input`.
pub open spec fn is_normalized_base_url(input: Seq<char>, r: Result<Seq<char>, AppError>) -> bool {
    if trim(input).len() == 0 {
        r matches Err(e) && is_config_error(e, empty_base_url_message())
    } else {
        match url_parse_result(prepared_base_url(input)) {
            Ok(u) => r matches Ok(s) && s == u,
            Err(t) => r matches Err(e) && is_config_error(e, invalid_base_url_message(input, t)),
        }
    }
}

/// The scheme to assume for a server address given without one.
pub fn inferred_scheme_for_host(raw: &str) -> (scheme: &'static str)
    ensures
        scheme@ == scheme_for_host(raw@),
{
    if is_local_host(raw) {
        "http"
    } else {
        "https"
    }
}

/// The outcome of normalizing the address `input`, given what the URL
/// parser made of the prepared text.
pub fn finish_base_url(input: &str, parsed: Result<String, String>) -> (r: Result<String, AppError>)
    ensures
        match parsed {
            Ok(u) => r matches Ok(s) && s@ == u@,
            Err(t) => r matches Err(e) && is_config_error(e, invalid_base_url_message(input@, t@)),
        },
{
    match parsed {
        Ok(u) => Ok(u),
        Err(t) => {
            let mut m = String::from_str("invalid server.base_url '");
            m.append(input);
            m.append("': ");
            m.append(t.as_str());
            Err(AppError::Config(m))
        },
    }
}

/// Normalizes a configured server address into the client's base URL:
/// trims it, adds "http://" for local hosts or "https://" otherwise when it
/// has no scheme, makes it end in '/', and parses it.
pub fn normalize_base_url(input: &str) -> (r: Result<String, AppError>)
    ensures
        is_normalized_base_url(input@, string_result(r)),
{
    let raw = trim_str(input);
    if raw.len() == 0 {
        return Err(AppError::Config(String::from_str("server.base_url must not be empty")));
    }
    let http = chars_of("http://");
    let https = chars_of("https://");
    let mut text: String;
    if starts_with_chars(&raw, &http) || starts_with_chars(&raw, &https) {
        text = string_of(&raw);
    } else {
        let raw_str = string_of(&raw);
        let scheme = inferred_scheme_for_host(raw_str.as_str());
        text = String::from_str(scheme);
        text.append("://");
        text.append(raw_str.as_str());
    }
    let ghost with_scheme = text@;
    let chars = chars_of(text.as_str());
    proof {
        reveal_strlit("/");
        assert("/"@ =~= seq!['/']);
        assert(ends_with(with_scheme, "/"@) == (with_scheme.len() > 0 && with_scheme.last()
            == '/')) by {
            if with_scheme.len() > 0 {
                let t = with_scheme.subrange(with_scheme.len() - 1, with_scheme.len() as int);
                assert(t =~= seq![with_scheme.last()]);
                if t == "/"@ {
                    assert(t[0] == '/');
                }
                if with_scheme.last() == '/' {
                    assert(t =~= "/"@);
                }
            }
        }
    }
    if !(chars.len() > 0 && chars[chars.len() - 1] == '/') {
        push_char(&mut text, '/');
    }
    assert(text@ == prepared_base_url(input@));
    let parsed = url_parse(text.as_str());
    finish_base_url(input, parsed)
}

// ---------------------------------------------------------------------------
// Requests
// ---------------------------------------------------------------------------

#[derive(Debug, Clone, Copy, PartialEq, Eq, Structural)]
pub enum HttpMethod {
    Get,
    Post,
    Delete,
}

/// An API call: method, path relative to the base URL, and query pairs.
#[derive(Debug, Clone)]
pub struct ApiRequest {
    pub method: HttpMethod,
    pub path: String,
    pub query: Vec<(String, String)>,
}

/// `r` is the call `method path?query`.
pub open spec fn is_request(
    r: ApiRequest,
    method: HttpMethod,
    path: Seq<char>,
    query: Seq<(Seq<char>, Seq<char>)>,
) -> bool {
    &&& r.method == method
    &&& r.path@ == path
    &&& pairs_of(r.query@) == query
}

fn request(method: HttpMethod, path: String, query: Vec<(String, String)>) -> (r: ApiRequest)
    ensures
        r.method == method,
        r.path@ == path@,
        r.query@ == query@,
{
    ApiRequest { method, path, query }
}

fn no_query() -> (q: Vec<(String, String)>)
    ensures
        pairs_of(q@) == Seq::<(Seq<char>, Seq<char>)>::empty(),
{
    let q: Vec<(String, String)> = Vec::new();
    assert(pairs_of(q@) =~= Seq::<(Seq<char>, Seq<char>)>::empty());
    q
}

/// `prefix` followed by `id`.
fn path2(prefix: &str, id: &str) -> (p: String)
    ensures
        p@ == prefix@ + id@,
{
    let mut p = String::from_str(prefix);
    p.append(id);
    p
}

/// `prefix` followed by `id` and then `suffix`.
fn path3(prefix: &str, id: &str, suffix: &str) -> (p: String)
    ensures
        p@ == prefix@ + id@ + suffix@,
{
    let mut p = String::from_str(prefix);
    p.append(id);
    p.append(suffix);
    p
}

/// The base query of the item listings: user, recursion, user data, images.
pub open spec fn listing_query(user_id: Seq<char>, sort_by: Seq<char>, sort_order: Seq<char>, limit: i32) -> Seq<(Seq<char>, Seq<char>)> {
    seq![
        ("userId"@, user_id),
        ("recursive"@, "true"@),
        ("enableUserData"@, "true"@),
        ("enableImages"@, "true"@),
        ("imageTypeLimit"@, "1"@),
        ("sortBy"@, sort_by),
        ("sortOrder"@, sort_order),
        ("limit"@, int_text(limit as int)),
    ]
}

/// The item types filter, when there are any types.
pub open spec fn types_pair(types: Seq<&str>) -> Seq<(Seq<char>, Seq<char>)> {
    if types.len() == 0 {
        seq![]
    } else {
        seq![("includeItemTypes"@, join_with(texts_of(types), ","@))]
    }
}

fn listing(user_id: &str, sort_by: &str, sort_order: &str, limit: i32, types: &[&str]) -> (r: ApiRequest)
    ensures
        is_request(
            r,
            HttpMethod::Get,
            "Items"@,
            listing_query(user_id@, sort_by@, sort_order@, limit) + types_pair(types@),
        ),
{
    let mut q = no_query();
    push_pair(&mut q, "userId", user_id);
    push_pair(&mut q, "recursive", "true");
    push_pair(&mut q, "enableUserData", "true");
    push_pair(&mut q, "enableImages", "true");
    push_pair(&mut q, "imageTypeLimit", "1");
    push_pair(&mut q, "sortBy", sort_by);
    push_pair(&mut q, "sortOrder", sort_order);
    let l = i32_text(limit);
    push_pair(&mut q, "limit", l.as_str());
    let ghost base = pairs_of(q@);
    assert(base =~= listing_query(user_id@, sort_by@, sort_order@, limit));
    if types.len() > 0 {
        let joined = join_strs(types, ",");
        push_pair(&mut q, "includeItemTypes", joined.as_str());
    }
    assert(pairs_of(q@) =~= listing_query(user_id@, sort_by@, sort_order@, limit) + types_pair(
        types@,
    ));
    request(HttpMethod::Get, String::from_str("Items"), q)
}

/// The query of `items`.
pub open spec fn items_query(
    user_id: Seq<char>,
    parent_id: Option<Seq<char>>,
    search: Option<Seq<char>>,
    types: Seq<&str>,
    start_index: i32,
    limit: i32,
) -> Seq<(Seq<char>, Seq<char>)> {
    seq![
        ("userId"@, user_id),
        ("startIndex"@, int_text(start_index as int)),
        ("limit"@, int_text(limit as int)),
        ("recursive"@, "true"@),
        ("enableUserData"@, "true"@),
    ] + opt_pair("parentId"@, parent_id) + opt_pair(
        "searchTerm"@,
        match search {
            Some(s) => if s.len() > 0 {
                Some(s)
            } else {
                None
            },
            None => None,
        },
    ) + types_pair(types)
}

impl JellyfinClient {
    /// A client of the server in `server`, not yet signed in.
    pub fn new(server: &ServerConfig, device_id: String) -> (r: Result<Self, AppError>)
        ensures
            is_normalized_base_url(
                server.base_url@,
                match r {
                    Ok(c) => Ok(c@.base_url),
                    Err(e) => Err(e),
                },
            ),
            r matches Ok(c) ==> (c@.token is None && c@.device_id == device_id@),
    {
        match normalize_base_url(server.base_url.as_str()) {
            Ok(base_url) => Ok(JellyfinClient { base_url, token: None, device_id }),
            Err(e) => Err(e),
        }
    }

    /// Replaces the access token.
    pub fn set_token(&mut self, token: Option<String>)
        ensures
            final(self)@.token == opt_text(token),
            final(self)@.base_url == old(self)@.base_url,
            final(self)@.device_id == old(self)@.device_id,
    {
        self.token = token;
    }

    /// The access token, if signed in.
    pub fn token(&self) -> (t: Option<&str>)
        ensures
            opt_str_text(t) == self@.token,
    {
        match &self.token {
            Some(t) => Some(t.as_str()),
            None => None,
        }
    }

    /// The normalized base URL.
    pub fn base_url(&self) -> (u: &str)
        ensures
            u@ == self@.base_url,
    {
        self.base_url.as_str()
    }

    /// This device's identifier.
    pub fn device_id(&self) -> (d: &str)
        ensures
            d@ == self@.device_id,
    {
        self.device_id.as_str()
    }

    /// The `X-Emby-Authorization` header, with a token field when `token`
    /// is given.
    pub fn authorization_header(&self, token: Option<&str>) -> (h: String)
        ensures
            h@ == auth_header_text(self@.device_id, opt_str_text(token)),
    {
        let mut h = String::from_str("MediaBrowser Client=\"slimjelly\", Device=\"");
        h.append(CLIENT_DEVICE);
        h.append("\", DeviceId=\"");
        h.append(self.device_id.as_str());
        h.append("\", Version=\"0.1.0\"");
        match token {
            Some(value) => {
                h.append(", Token=\"");
                h.append(value);
                h.append("\"");
            },
            None => {},
        }
        h
    }

    /// The header sent with authenticated calls (with the current token).
    pub fn auth_header(&self) -> (h: String)
        ensures
            h@ == auth_header_text(self@.device_id, self@.token),
    {
        let t = self.token();
        self.authorization_header(t)
    }

    /// The absolute URL of the endpoint `path`.
    pub fn make_url(&self, path: &str) -> (r: Result<String, AppError>)
        ensures
            match url_join_result(self@.base_url, path@) {
                Ok(u) => r matches Ok(s) && s@ == u,
                Err(t) => r matches Err(e) && is_config_error(
                    e,
                    "invalid endpoint path '"@ + path@ + "': "@ + t,
                ),
            },
    {
        match url_join(self.base_url.as_str(), path) {
            Ok(u) => Ok(u),
            Err(t) => {
                let mut m = String::from_str("invalid endpoint path '");
                m.append(path);
                m.append("': ");
                m.append(t.as_str());
                Err(AppError::Config(m))
            },
        }
    }

    /// The URL of `path` under the base URL with `query` appended; URL
    /// errors become `AppError::UrlParse`.
    fn url_with_query(&self, path: &str, query: &Vec<(String, String)>) -> (r: Result<String, AppError>)
        ensures
            is_url_outcome(r, joined_query_url(self@.base_url, path@, pairs_of(query@))),
    {
        match url_join(self.base_url.as_str(), path) {
            Ok(u) => match url_append_query(u.as_str(), query) {
                Ok(s) => Ok(s),
                Err(t) => Err(AppError::UrlParse(t)),
            },
            Err(t) => Err(AppError::UrlParse(t)),
        }
    }

    /// The URL that streams a video to an external player. `transcode`
    /// asks the server to convert the stream instead of sending it as is.
    pub fn build_video_stream_url(
        &self,
        item_id: &str,
        media_source_id: Option<&str>,
        play_session_id: Option<&str>,
        audio_stream_index: Option<i32>,
        subtitle_stream_index: Option<i32>,
        transcode: bool,
    ) -> (r: Result<String, AppError>)
        ensures
            is_url_outcome(
                r,
                joined_query_url(
                    self@.base_url,
                    "Videos/"@ + item_id@ + "/stream"@,
                    stream_query(
                        opt_str_text(media_source_id),
                        opt_str_text(play_session_id),
                        audio_stream_index,
                        subtitle_stream_index,
                        transcode,
                        self@.token,
                    ),
                ),
            ),
    {
        let path = path3("Videos/", item_id, "/stream");
        let mut q = no_query();
        push_pair(
            &mut q,
            "static",
            if transcode {
                "false"
            } else {
                "true"
            },
        );
        let ghost q0 = pairs_of(q@);
        if let Some(source_id) = media_source_id {
            push_pair(&mut q, "mediaSourceId", source_id);
        }
        let ghost q1 = pairs_of(q@);
        assert(q1 =~= q0 + opt_pair("mediaSourceId"@, opt_str_text(media_source_id)));
        if let Some(session_id) = play_session_id {
            push_pair(&mut q, "playSessionId", session_id);
        }
        let ghost q2 = pairs_of(q@);
        assert(q2 =~= q1 + opt_pair("playSessionId"@, opt_str_text(play_session_id)));
        if let Some(audio_idx) = audio_stream_index {
            let t = i32_text(audio_idx);
            push_pair(&mut q, "audioStreamIndex", t.as_str());
        }
        let ghost q3 = pairs_of(q@);
        assert(q3 =~= q2 + opt_pair("audioStreamIndex"@, opt_int_text(audio_stream_index)));
        if let Some(sub_idx) = subtitle_stream_index {
            let t = i32_text(sub_idx);
            push_pair(&mut q, "subtitleStreamIndex", t.as_str());
        }
        let ghost q4 = pairs_of(q@);
        assert(q4 =~= q3 + opt_pair("subtitleStreamIndex"@, opt_int_text(subtitle_stream_index)));
        if let Some(token) = self.token() {
            push_pair(&mut q, "api_key", token);
        }
        assert(pairs_of(q@) =~= q4 + opt_pair("api_key"@, self@.token));
        self.url_with_query(path.as_str(), &q)
    }

    /// The URL of a subtitle stream of an item, converted to `format`
    /// (e.g. "srt", "vtt" or "ass").
    pub fn build_subtitle_url(
        &self,
        item_id: &str,
        media_source_id: &str,
        stream_index: i32,
        format: &str,
    ) -> (r: Result<String, AppError>)
        ensures
            ({
                let path = "Videos/"@ + item_id@ + "/"@ + media_source_id@ + "/Subtitles/"@
                    + int_text(stream_index as int) + "/Stream."@ + format@;
                match self@.token {
                    Some(t) => is_url_outcome(
                        r,
                        joined_query_url(self@.base_url, path, seq![("api_key"@, t)]),
                    ),
                    None => is_url_outcome(r, url_join_result(self@.base_url, path)),
                }
            }),
    {
        let mut path = String::from_str("Videos/");
        path.append(item_id);
        path.append("/");
        path.append(media_source_id);
        path.append("/Subtitles/");
        let idx = i32_text(stream_index);
        path.append(idx.as_str());
        path.append("/Stream.");
        path.append(format);
        match self.token() {
            Some(token) => {
                let mut q = no_query();
                push_pair(&mut q, "api_key", token);
                assert(pairs_of(q@) =~= seq![("api_key"@, token@)]);
                self.url_with_query(path.as_str(), &q)
            },
            None => match url_join(self.base_url.as_str(), path.as_str()) {
                Ok(u) => Ok(u),
                Err(t) => Err(AppError::UrlParse(t)),
            },
        }
    }

    /// The URL of an item's image scaled to fit `max_width` x `max_height`.
    pub fn build_item_image_url(
        &self,
        item_id: &str,
        image_type: &str,
        max_width: u32,
        max_height: u32,
        tag: Option<&str>,
    ) -> (r: Result<String, AppError>)
        ensures
            is_url_outcome(
                r,
                joined_query_url(
                    self@.base_url,
                    "Items/"@ + item_id@ + "/Images/"@ + image_type@,
                    seq![
                        ("maxWidth"@, nat_text(max_width as nat)),
                        ("maxHeight"@, nat_text(max_height as nat)),
                        ("quality"@, "90"@),
                        ("fillHeight"@, nat_text(max_height as nat)),
                    ] + opt_pair("tag"@, opt_str_text(tag)) + opt_pair("api_key"@, self@.token),
                ),
            ),
    {
        let path = path3("Items/", item_id, "/Images/");
        let mut path = path;
        path.append(image_type);
        let mut q = no_query();
        let w = u32_text(max_width);
        let h = u32_text(max_height);
        push_pair(&mut q, "maxWidth", w.as_str());
        push_pair(&mut q, "maxHeight", h.as_str());
        push_pair(&mut q, "quality", "90");
        push_pair(&mut q, "fillHeight", h.as_str());
        let ghost q0 = pairs_of(q@);
        assert(q0 =~= seq![
            ("maxWidth"@, nat_text(max_width as nat)),
            ("maxHeight"@, nat_text(max_height as nat)),
            ("quality"@, "90"@),
            ("fillHeight"@, nat_text(max_height as nat)),
        ]);
        if let Some(tag) = tag {
            push_pair(&mut q, "tag", tag);
        }
        let ghost q1 = pairs_of(q@);
        assert(q1 =~= q0 + opt_pair("tag"@, opt_str_text(tag)));
        if let Some(token) = self.token() {
            push_pair(&mut q, "api_key", token);
        }
        assert(pairs_of(q@) =~= q1 + opt_pair("api_key"@, self@.token));
        self.url_with_query(path.as_str(), &q)
    }

    // -----------------------------------------------------------------------
    // Endpoints
    // -----------------------------------------------------------------------

    /// Sign in with a user name and password (sent without a token).
    pub fn authenticate_by_name_request(username: &str, password: &str) -> (r: (
        ApiRequest,
        AuthenticateUserByName,
    ))
        ensures
            is_request(r.0, HttpMethod::Post, "Users/AuthenticateByName"@, seq![]),
            r.1.username@ == username@,
            r.1.pw@ == password@,
    {
        let body = AuthenticateUserByName {
            username: String::from_str(username),
            pw: String::from_str(password),
        };
        (request(HttpMethod::Post, String::from_str("Users/AuthenticateByName"), no_query()), body)
    }

    /// The signed-in user.
    pub fn get_me_request() -> (r: ApiRequest)
        ensures
            is_request(r, HttpMethod::Get, "Users/Me"@, seq![]),
    {
        request(HttpMethod::Get, String::from_str("Users/Me"), no_query())
    }

    /// The server's ping text.
    pub fn ping_request() -> (r: ApiRequest)
        ensures
            is_request(r, HttpMethod::Get, "System/Ping"@, seq![]),
    {
        request(HttpMethod::Get, String::from_str("System/Ping"), no_query())
    }

    /// The server's public information.
    pub fn public_info_request() -> (r: ApiRequest)
        ensures
            is_request(r, HttpMethod::Get, "System/Info/Public"@, seq![]),
    {
        request(HttpMethod::Get, String::from_str("System/Info/Public"), no_query())
    }

    /// The user's library views.
    pub fn user_views_request(user_id: &str) -> (r: ApiRequest)
        ensures
            is_request(r, HttpMethod::Get, "UserViews"@, seq![("userId"@, user_id@)]),
    {
        let mut q = no_query();
        push_pair(&mut q, "userId", user_id);
        assert(pairs_of(q@) =~= seq![("userId"@, user_id@)]);
        request(HttpMethod::Get, String::from_str("UserViews"), q)
    }

    /// The user's playlists, by name, at most 200.
    pub fn playlists_request(user_id: &str) -> (r: ApiRequest)
        ensures
            is_request(
                r,
                HttpMethod::Get,
                "Items"@,
                seq![
                    ("userId"@, user_id@),
                    ("includeItemTypes"@, "Playlist"@),
                    ("recursive"@, "true"@),
                    ("sortBy"@, "SortName"@),
                    ("sortOrder"@, "Ascending"@),
                    ("enableUserData"@, "true"@),
                    ("enableImages"@, "true"@),
                    ("imageTypeLimit"@, "1"@),
                    ("limit"@, "200"@),
                ],
            ),
    {
        let mut q = no_query();
        push_pair(&mut q, "userId", user_id);
        push_pair(&mut q, "includeItemTypes", "Playlist");
        push_pair(&mut q, "recursive", "true");
        push_pair(&mut q, "sortBy", "SortName");
        push_pair(&mut q, "sortOrder", "Ascending");
        push_pair(&mut q, "enableUserData", "true");
        push_pair(&mut q, "enableImages", "true");
        push_pair(&mut q, "imageTypeLimit", "1");
        push_pair(&mut q, "limit", "200");
        assert(pairs_of(q@) =~= seq![
                    ("userId"@, user_id@),
                    ("includeItemTypes"@, "Playlist"@),
                    ("recursive"@, "true"@),
                    ("sortBy"@, "SortName"@),
                    ("sortOrder"@, "Ascending"@),
                    ("enableUserData"@, "true"@),
                    ("enableImages"@, "true"@),
                    ("imageTypeLimit"@, "1"@),
                    ("limit"@, "200"@),
                ]);
        request(HttpMethod::Get, String::from_str("Items"), q)
    }

    /// The most recently played item (the first of the result).
    pub fn last_played_item_request(user_id: &str) -> (r: ApiRequest)
        ensures
            is_request(
                r,
                HttpMethod::Get,
                "Items"@,
                seq![
                    ("userId"@, user_id@),
                    ("recursive"@, "true"@),
                    ("sortBy"@, "DatePlayed"@),
                    ("sortOrder"@, "Descending"@),
                    ("enableUserData"@, "true"@),
                    ("enableImages"@, "true"@),
                    ("imageTypeLimit"@, "1"@),
                    ("limit"@, "1"@),
                    ("includeItemTypes"@, "Movie,Episode,Audio,AudioBook,Program"@),
                ],
            ),
    {
        let mut q = no_query();
        push_pair(&mut q, "userId", user_id);
        push_pair(&mut q, "recursive", "true");
        push_pair(&mut q, "sortBy", "DatePlayed");
        push_pair(&mut q, "sortOrder", "Descending");
        push_pair(&mut q, "enableUserData", "true");
        push_pair(&mut q, "enableImages", "true");
        push_pair(&mut q, "imageTypeLimit", "1");
        push_pair(&mut q, "limit", "1");
        push_pair(&mut q, "includeItemTypes", "Movie,Episode,Audio,AudioBook,Program");
        assert(pairs_of(q@) =~= seq![
                    ("userId"@, user_id@),
                    ("recursive"@, "true"@),
                    ("sortBy"@, "DatePlayed"@),
                    ("sortOrder"@, "Descending"@),
                    ("enableUserData"@, "true"@),
                    ("enableImages"@, "true"@),
                    ("imageTypeLimit"@, "1"@),
                    ("limit"@, "1"@),
                    ("includeItemTypes"@, "Movie,Episode,Audio,AudioBook,Program"@),
                ]);
        request(HttpMethod::Get, String::from_str("Items"), q)
    }

    /// A page of items, optionally under a parent, matching a search term
    /// (when not empty) and of the given types (when any).
    pub fn items_request(
        user_id: &str,
        parent_id: Option<&str>,
        search: Option<&str>,
        include_item_types: &[&str],
        start_index: i32,
        limit: i32,
    ) -> (r: ApiRequest)
        ensures
            is_request(
                r,
                HttpMethod::Get,
                "Items"@,
                items_query(
                    user_id@,
                    opt_str_text(parent_id),
                    opt_str_text(search),
                    include_item_types@,
                    start_index,
                    limit,
                ),
            ),
    {
        let mut q = no_query();
        push_pair(&mut q, "userId", user_id);
        let s = i32_text(start_index);
        push_pair(&mut q, "startIndex", s.as_str());
        let l = i32_text(limit);
        push_pair(&mut q, "limit", l.as_str());
        push_pair(&mut q, "recursive", "true");
        push_pair(&mut q, "enableUserData", "true");
        let ghost q0 = pairs_of(q@);
        assert(q0 =~= seq![
            ("userId"@, user_id@),
            ("startIndex"@, int_text(start_index as int)),
            ("limit"@, int_text(limit as int)),
            ("recursive"@, "true"@),
            ("enableUserData"@, "true"@),
        ]);
        if let Some(parent) = parent_id {
            push_pair(&mut q, "parentId", parent);
        }
        let ghost q1 = pairs_of(q@);
        assert(q1 =~= q0 + opt_pair("parentId"@, opt_str_text(parent_id)));
        if let Some(search_term) = search {
            if !search_term.is_empty() {
                push_pair(&mut q, "searchTerm", search_term);
            }
        }
        let ghost q2 = pairs_of(q@);
        assert(q2 =~= q1 + opt_pair(
            "searchTerm"@,
            match opt_str_text(search) {
                Some(t) => if t.len() > 0 {
                    Some(t)
                } else {
                    None
                },
                None => None,
            },
        ));
        if include_item_types.len() > 0 {
            let joined = join_strs(include_item_types, ",");
            push_pair(&mut q, "includeItemTypes", joined.as_str());
        }
        assert(pairs_of(q@) =~= q2 + types_pair(include_item_types@));
        request(HttpMethod::Get, String::from_str("Items"), q)
    }

    /// One item as the user sees it.
    pub fn item_request(user_id: &str, item_id: &str) -> (r: ApiRequest)
        ensures
            is_request(r, HttpMethod::Get, "Items/"@ + item_id@, seq![("userId"@, user_id@)]),
    {
        let mut q = no_query();
        push_pair(&mut q, "userId", user_id);
        assert(pairs_of(q@) =~= seq![("userId"@, user_id@)]);
        request(HttpMethod::Get, path2("Items/", item_id), q)
    }

    /// Items the user can resume, most recently played first.
    pub fn continue_watching_request(user_id: &str, limit: i32) -> (r: ApiRequest)
        ensures
            is_request(
                r,
                HttpMethod::Get,
                "Items"@,
                seq![
                    ("userId"@, user_id@),
                    ("recursive"@, "true"@),
                    ("isResumable"@, "true"@),
                    ("enableUserData"@, "true"@),
                    ("enableImages"@, "true"@),
                    ("imageTypeLimit"@, "1"@),
                    ("includeItemTypes"@, "Movie,Episode,AudioBook,Audio"@),
                    ("sortBy"@, "DatePlayed"@),
                    ("sortOrder"@, "Descending"@),
                    ("limit"@, int_text(limit as int)),
                ],
            ),
    {
        let mut q = no_query();
        push_pair(&mut q, "userId", user_id);
        push_pair(&mut q, "recursive", "true");
        push_pair(&mut q, "isResumable", "true");
        push_pair(&mut q, "enableUserData", "true");
        push_pair(&mut q, "enableImages", "true");
        push_pair(&mut q, "imageTypeLimit", "1");
        push_pair(&mut q, "includeItemTypes", "Movie,Episode,AudioBook,Audio");
        push_pair(&mut q, "sortBy", "DatePlayed");
        push_pair(&mut q, "sortOrder", "Descending");
        let l = i32_text(limit);
        push_pair(&mut q, "limit", l.as_str());
        assert(pairs_of(q@) =~= seq![
                    ("userId"@, user_id@),
                    ("recursive"@, "true"@),
                    ("isResumable"@, "true"@),
                    ("enableUserData"@, "true"@),
                    ("enableImages"@, "true"@),
                    ("imageTypeLimit"@, "1"@),
                    ("includeItemTypes"@, "Movie,Episode,AudioBook,Audio"@),
                    ("sortBy"@, "DatePlayed"@),
                    ("sortOrder"@, "Descending"@),
                    ("limit"@, int_text(limit as int)),
                ]);
        request(HttpMethod::Get, String::from_str("Items"), q)
    }

    /// The newest items of the given types.
    pub fn recent_items_by_types_request(user_id: &str, include_types: &[&str], limit: i32) -> (r:
        ApiRequest)
        ensures
            is_request(
                r,
                HttpMethod::Get,
                "Items"@,
                listing_query(user_id@, "DateCreated"@, "Descending"@, limit) + types_pair(
                    include_types@,
                ),
            ),
    {
        listing(user_id, "DateCreated", "Descending", limit, include_types)
    }

    /// Items of the given types in random order.
    pub fn random_item_by_types_request(user_id: &str, include_types: &[&str], limit: i32) -> (r:
        ApiRequest)
        ensures
            is_request(
                r,
                HttpMethod::Get,
                "Items"@,
                listing_query(user_id@, "Random"@, "Ascending"@, limit) + types_pair(
                    include_types@,
                ),
            ),
    {
        listing(user_id, "Random", "Ascending", limit, include_types)
    }

    /// Items of the given types by name.
    pub fn library_items_by_types_request(user_id: &str, include_types: &[&str], limit: i32) -> (r:
        ApiRequest)
        ensures
            is_request(
                r,
                HttpMethod::Get,
                "Items"@,
                listing_query(user_id@, "SortName"@, "Ascending"@, limit) + types_pair(
                    include_types@,
                ),
            ),
    {
        listing(user_id, "SortName", "Ascending", limit, include_types)
    }

    /// The user's collections (box sets) by name.
    pub fn collections_request(user_id: &str, limit: i32) -> (r: ApiRequest)
        ensures
            is_request(
                r,
                HttpMethod::Get,
                "Items"@,
                seq![
                    ("userId"@, user_id@),
                    ("recursive"@, "true"@),
                    ("includeItemTypes"@, "BoxSet"@),
                    ("enableUserData"@, "true"@),
                    ("enableImages"@, "true"@),
                    ("imageTypeLimit"@, "1"@),
                    ("sortBy"@, "SortName"@),
                    ("sortOrder"@, "Ascending"@),
                    ("limit"@, int_text(limit as int)),
                ],
            ),
    {
        let mut q = no_query();
        push_pair(&mut q, "userId", user_id);
        push_pair(&mut q, "recursive", "true");
        push_pair(&mut q, "includeItemTypes", "BoxSet");
        push_pair(&mut q, "enableUserData", "true");
        push_pair(&mut q, "enableImages", "true");
        push_pair(&mut q, "imageTypeLimit", "1");
        push_pair(&mut q, "sortBy", "SortName");
        push_pair(&mut q, "sortOrder", "Ascending");
        let l = i32_text(limit);
        push_pair(&mut q, "limit", l.as_str());
        assert(pairs_of(q@) =~= seq![
                    ("userId"@, user_id@),
                    ("recursive"@, "true"@),
                    ("includeItemTypes"@, "BoxSet"@),
                    ("enableUserData"@, "true"@),
                    ("enableImages"@, "true"@),
                    ("imageTypeLimit"@, "1"@),
                    ("sortBy"@, "SortName"@),
                    ("sortOrder"@, "Ascending"@),
                    ("limit"@, int_text(limit as int)),
                ]);
        request(HttpMethod::Get, String::from_str("Items"), q)
    }

    /// Marks an item played for a user.
    pub fn mark_played_request(user_id: &str, item_id: &str) -> (r: ApiRequest)
        ensures
            is_request(
                r,
                HttpMethod::Post,
                "Users/"@ + user_id@ + "/PlayedItems/"@ + item_id@,
                seq![],
            ),
    {
        let mut p = path3("Users/", user_id, "/PlayedItems/");
        p.append(item_id);
        request(HttpMethod::Post, p, no_query())
    }

    /// Marks an item unplayed for a user.
    pub fn mark_unplayed_request(user_id: &str, item_id: &str) -> (r: ApiRequest)
        ensures
            is_request(
                r,
                HttpMethod::Delete,
                "UserPlayedItems/"@ + item_id@,
                seq![("userId"@, user_id@)],
            ),
    {
        let mut q = no_query();
        push_pair(&mut q, "userId", user_id);
        assert(pairs_of(q@) =~= seq![("userId"@, user_id@)]);
        request(HttpMethod::Delete, path2("UserPlayedItems/", item_id), q)
    }

    /// Adds items to a playlist.
    pub fn add_items_to_playlist_request(playlist_id: &str, user_id: &str, item_ids: &[&str]) -> (r:
        ApiRequest)
        ensures
            is_request(
                r,
                HttpMethod::Post,
                "Playlists/"@ + playlist_id@ + "/Items"@,
                seq![("userId"@, user_id@), ("ids"@, join_with(texts_of(item_ids@), ","@))],
            ),
    {
        let ids = join_strs(item_ids, ",");
        let mut q = no_query();
        push_pair(&mut q, "userId", user_id);
        push_pair(&mut q, "ids", ids.as_str());
        assert(pairs_of(q@) =~= seq![
            ("userId"@, user_id@),
            ("ids"@, join_with(texts_of(item_ids@), ","@)),
        ]);
        request(HttpMethod::Post, path3("Playlists/", playlist_id, "/Items"), q)
    }

    /// Deletes an item from the server.
    pub fn delete_item_request(item_id: &str) -> (r: ApiRequest)
        ensures
            is_request(r, HttpMethod::Delete, "Items/"@ + item_id@, seq![]),
    {
        request(HttpMethod::Delete, path2("Items/", item_id), no_query())
    }

    /// The libraries (virtual folders) of the server.
    pub fn virtual_folders_request() -> (r: ApiRequest)
        ensures
            is_request(r, HttpMethod::Get, "Library/VirtualFolders"@, seq![]),
    {
        request(HttpMethod::Get, String::from_str("Library/VirtualFolders"), no_query())
    }

    /// Removes a library, optionally refreshing the others.
    pub fn remove_virtual_folder_request(name: &str, refresh_library: bool) -> (r: ApiRequest)
        ensures
            is_request(
                r,
                HttpMethod::Delete,
                "Library/VirtualFolders"@,
                seq![
                    ("name"@, name@),
                    ("refreshLibrary"@, if refresh_library {
                        "true"@
                    } else {
                        "false"@
                    }),
                ],
            ),
    {
        let mut q = no_query();
        push_pair(&mut q, "name", name);
        push_pair(
            &mut q,
            "refreshLibrary",
            if refresh_library {
                "true"
            } else {
                "false"
            },
        );
        assert(pairs_of(q@) =~= seq![
            ("name"@, name@),
            ("refreshLibrary"@, if refresh_library {
                "true"@
            } else {
                "false"@
            }),
        ]);
        request(HttpMethod::Delete, String::from_str("Library/VirtualFolders"), q)
    }

    /// The seasons of a series.
    pub fn seasons_request(user_id: &str, series_id: &str) -> (r: ApiRequest)
        ensures
            is_request(
                r,
                HttpMethod::Get,
                "Shows/"@ + series_id@ + "/Seasons"@,
                seq![("userId"@, user_id@)],
            ),
    {
        let mut q = no_query();
        push_pair(&mut q, "userId", user_id);
        assert(pairs_of(q@) =~= seq![("userId"@, user_id@)]);
        request(HttpMethod::Get, path3("Shows/", series_id, "/Seasons"), q)
    }

    /// The episodes of one season by name.
    pub fn episodes_for_season_request(user_id: &str, season_id: &str, limit: i32) -> (r:
        ApiRequest)
        ensures
            is_request(
                r,
                HttpMethod::Get,
                "Items"@,
                seq![
                    ("userId"@, user_id@),
                    ("parentId"@, season_id@),
                    ("recursive"@, "false"@),
                    ("includeItemTypes"@, "Episode"@),
                    ("enableUserData"@, "true"@),
                    ("enableImages"@, "true"@),
                    ("imageTypeLimit"@, "1"@),
                    ("sortBy"@, "SortName"@),
                    ("sortOrder"@, "Ascending"@),
                    ("limit"@, int_text(limit as int)),
                ],
            ),
    {
        let mut q = no_query();
        push_pair(&mut q, "userId", user_id);
        push_pair(&mut q, "parentId", season_id);
        push_pair(&mut q, "recursive", "false");
        push_pair(&mut q, "includeItemTypes", "Episode");
        push_pair(&mut q, "enableUserData", "true");
        push_pair(&mut q, "enableImages", "true");
        push_pair(&mut q, "imageTypeLimit", "1");
        push_pair(&mut q, "sortBy", "SortName");
        push_pair(&mut q, "sortOrder", "Ascending");
        let l = i32_text(limit);
        push_pair(&mut q, "limit", l.as_str());
        assert(pairs_of(q@) =~= seq![
                    ("userId"@, user_id@),
                    ("parentId"@, season_id@),
                    ("recursive"@, "false"@),
                    ("includeItemTypes"@, "Episode"@),
                    ("enableUserData"@, "true"@),
                    ("enableImages"@, "true"@),
                    ("imageTypeLimit"@, "1"@),
                    ("sortBy"@, "SortName"@),
                    ("sortOrder"@, "Ascending"@),
                    ("limit"@, int_text(limit as int)),
                ]);
        request(HttpMethod::Get, String::from_str("Items"), q)
    }

    /// Items similar to an item.
    pub fn similar_items_request(user_id: &str, item_id: &str, limit: i32) -> (r: ApiRequest)
        ensures
            is_request(
                r,
                HttpMethod::Get,
                "Items/"@ + item_id@ + "/Similar"@,
                seq![
                    ("userId"@, user_id@),
                    ("limit"@, int_text(limit as int)),
                    ("enableUserData"@, "true"@),
                    ("enableImages"@, "true"@),
                    ("imageTypeLimit"@, "1"@),
                ],
            ),
    {
        let mut q = no_query();
        push_pair(&mut q, "userId", user_id);
        let l = i32_text(limit);
        push_pair(&mut q, "limit", l.as_str());
        push_pair(&mut q, "enableUserData", "true");
        push_pair(&mut q, "enableImages", "true");
        push_pair(&mut q, "imageTypeLimit", "1");
        assert(pairs_of(q@) =~= seq![
                    ("userId"@, user_id@),
                    ("limit"@, int_text(limit as int)),
                    ("enableUserData"@, "true"@),
                    ("enableImages"@, "true"@),
                    ("imageTypeLimit"@, "1"@),
                ]);
        request(HttpMethod::Get, path3("Items/", item_id, "/Similar"), q)
    }

    /// Search suggestions for a term.
    pub fn search_hints_request(user_id: &str, term: &str, limit: i32) -> (r: ApiRequest)
        ensures
            is_request(
                r,
                HttpMethod::Get,
                "Search/Hints"@,
                seq![
                    ("userId"@, user_id@),
                    ("searchTerm"@, term@),
                    ("limit"@, int_text(limit as int)),
                ],
            ),
    {
        let mut q = no_query();
        push_pair(&mut q, "userId", user_id);
        push_pair(&mut q, "searchTerm", term);
        let l = i32_text(limit);
        push_pair(&mut q, "limit", l.as_str());
        assert(pairs_of(q@) =~= seq![
                    ("userId"@, user_id@),
                    ("searchTerm"@, term@),
                    ("limit"@, int_text(limit as int)),
                ]);
        request(HttpMethod::Get, String::from_str("Search/Hints"), q)
    }

    /// Playback information of an item (the body is the request).
    pub fn playback_info_request(item_id: &str) -> (r: ApiRequest)
        ensures
            is_request(r, HttpMethod::Post, "Items/"@ + item_id@ + "/PlaybackInfo"@, seq![]),
    {
        request(HttpMethod::Post, path3("Items/", item_id, "/PlaybackInfo"), no_query())
    }

    /// Reports that playback started (the body is the start information).
    pub fn report_playing_start_request() -> (r: ApiRequest)
        ensures
            is_request(r, HttpMethod::Post, "Sessions/Playing"@, seq![]),
    {
        request(HttpMethod::Post, String::from_str("Sessions/Playing"), no_query())
    }

    /// Reports playback progress (the body is the progress information).
    pub fn report_playing_progress_request() -> (r: ApiRequest)
        ensures
            is_request(r, HttpMethod::Post, "Sessions/Playing/Progress"@, seq![]),
    {
        request(HttpMethod::Post, String::from_str("Sessions/Playing/Progress"), no_query())
    }

    /// Reports that playback stopped (the body is the stop information).
    pub fn report_playing_stopped_request() -> (r: ApiRequest)
        ensures
            is_request(r, HttpMethod::Post, "Sessions/Playing/Stopped"@, seq![]),
    {
        request(HttpMethod::Post, String::from_str("Sessions/Playing/Stopped"), no_query())
    }

    /// Keeps a play session alive.
    pub fn report_playing_ping_request(play_session_id: &str) -> (r: ApiRequest)
        ensures
            is_request(
                r,
                HttpMethod::Post,
                "Sessions/Playing/Ping"@,
                seq![("playSessionId"@, play_session_id@)],
            ),
    {
        let mut q = no_query();
        push_pair(&mut q, "playSessionId", play_session_id);
        assert(pairs_of(q@) =~= seq![("playSessionId"@, play_session_id@)]);
        request(HttpMethod::Post, String::from_str("Sessions/Playing/Ping"), q)
    }

    /// Starts a scan of all libraries.
    pub fn library_refresh_all_request() -> (r: ApiRequest)
        ensures
            is_request(r, HttpMethod::Post, "Library/Refresh"@, seq![]),
    {
        request(HttpMethod::Post, String::from_str("Library/Refresh"), no_query())
    }

    /// Refreshes the metadata of one item.
    pub fn item_refresh_request(item_id: &str) -> (r: ApiRequest)
        ensures
            is_request(r, HttpMethod::Post, "Items/"@ + item_id@ + "/Refresh"@, seq![]),
    {
        request(HttpMethod::Post, path3("Items/", item_id, "/Refresh"), no_query())
    }

    /// A page of a playlist's items.
    pub fn playlist_items_request(playlist_id: &str, user_id: &str, start_index: i32, limit: i32) -> (r:
        ApiRequest)
        ensures
            is_request(
                r,
                HttpMethod::Get,
                "Playlists/"@ + playlist_id@ + "/Items"@,
                seq![
                    ("userId"@, user_id@),
                    ("startIndex"@, int_text(start_index as int)),
                    ("limit"@, int_text(limit as int)),
                    ("enableUserData"@, "true"@),
                    ("enableImages"@, "true"@),
                    ("imageTypeLimit"@, "1"@),
                ],
            ),
    {
        let mut q = no_query();
        push_pair(&mut q, "userId", user_id);
        let s = i32_text(start_index);
        push_pair(&mut q, "startIndex", s.as_str());
        let l = i32_text(limit);
        push_pair(&mut q, "limit", l.as_str());
        push_pair(&mut q, "enableUserData", "true");
        push_pair(&mut q, "enableImages", "true");
        push_pair(&mut q, "imageTypeLimit", "1");
        assert(pairs_of(q@) =~= seq![
                    ("userId"@, user_id@),
                    ("startIndex"@, int_text(start_index as int)),
                    ("limit"@, int_text(limit as int)),
                    ("enableUserData"@, "true"@),
                    ("enableImages"@, "true"@),
                    ("imageTypeLimit"@, "1"@),
                ]);
        request(HttpMethod::Get, path3("Playlists/", playlist_id, "/Items"), q)
    }

    /// The server's scheduled tasks.
    pub fn scheduled_tasks_request() -> (r: ApiRequest)
        ensures
            is_request(r, HttpMethod::Get, "ScheduledTasks"@, seq![]),
    {
        request(HttpMethod::Get, String::from_str("ScheduledTasks"), no_query())
    }
}

/// The text of an optional integer.
pub open spec fn opt_int_text(o: Option<i32>) -> Option<Seq<char>> {
    match o {
        Some(i) => Some(int_text(i as int)),
        None => None,
    }
}

/// The query of a video stream URL.
pub open spec fn stream_query(
    media_source_id: Option<Seq<char>>,
    play_session_id: Option<Seq<char>>,
    audio_stream_index: Option<i32>,
    subtitle_stream_index: Option<i32>,
    transcode: bool,
    token: Option<Seq<char>>,
) -> Seq<(Seq<char>, Seq<char>)> {
    seq![("static"@, if transcode {
        "false"@
    } else {
        "true"@
    })] + opt_pair("mediaSourceId"@, media_source_id) + opt_pair(
        "playSessionId"@,
        play_session_id,
    ) + opt_pair("audioStreamIndex"@, opt_int_text(audio_stream_index)) + opt_pair(
        "subtitleStreamIndex"@,
        opt_int_text(subtitle_stream_index),
    ) + opt_pair("api_key"@, token)
}

/// The `X-Emby-Authorization` header text.
pub open spec fn auth_header_text(device_id: Seq<char>, token: Option<Seq<char>>) -> Seq<char> {
    let base = "MediaBrowser Client=\"slimjelly\", Device=\""@ + CLIENT_DEVICE@
        + "\", DeviceId=\""@ + device_id + "\", Version=\"0.1.0\""@;
    match token {
        Some(t) => base + ", Token=\""@ + t + "\""@,
        None => base,
    }
}

/// The URL `path` under `base` with `query` appended.
pub open spec fn joined_query_url(base: Seq<char>, path: Seq<char>, query: Seq<(Seq<char>, Seq<char>)>) -> Result<Seq<char>, Seq<char>> {
    match url_join_result(base, path) {
        Ok(u) => url_query_result(u, query),
        Err(t) => Err(t),
    }
}

/// `r` carries the URL of `o`, or its error text as a URL parse error.
pub open spec fn is_url_outcome(r: Result<String, AppError>, o: Result<Seq<char>, Seq<char>>) -> bool {
    match o {
        Ok(u) => r matches Ok(s) && s@ == u,
        Err(t) => r matches Err(AppError::UrlParse(m)) && m@ == t,
    }
}

/// A stream URL carries the client's token, for direct play and
/// transcoding alike: with a token set, the query ends with the pair
/// ("api_key", token); without one, no pair of the query is named "api_key".
pub proof fn stream_query_carries_token(
    media_source_id: Option<Seq<char>>,
    play_session_id: Option<Seq<char>>,
    audio_stream_index: Option<i32>,
    subtitle_stream_index: Option<i32>,
    transcode: bool,
    token: Option<Seq<char>>,
)
    ensures
        token matches Some(t) ==> stream_query(
            media_source_id,
            play_session_id,
            audio_stream_index,
            subtitle_stream_index,
            transcode,
            token,
        ).len() > 0 && stream_query(
            media_source_id,
            play_session_id,
            audio_stream_index,
            subtitle_stream_index,
            transcode,
            token,
        ).last() == ("api_key"@, t),
        token is None ==> forall|i: int|
            0 <= i < stream_query(
                media_source_id,
                play_session_id,
                audio_stream_index,
                subtitle_stream_index,
                transcode,
                token,
            ).len() ==> (#[trigger] stream_query(
                media_source_id,
                play_session_id,
                audio_stream_index,
                subtitle_stream_index,
                transcode,
                token,
            )[i]).0 != "api_key"@,
{
    reveal_strlit("api_key");
    reveal_strlit("static");
    reveal_strlit("mediaSourceId");
    reveal_strlit("playSessionId");
    reveal_strlit("audioStreamIndex");
    reveal_strlit("subtitleStreamIndex");
    let q = stream_query(
        media_source_id,
        play_session_id,
        audio_stream_index,
        subtitle_stream_index,
        transcode,
        token,
    );
    if token is None {
        assert forall|i: int| 0 <= i < q.len() implies (#[trigger] q[i]).0 != "api_key"@ by {
            assert(q[i].0.len() != 7);
        }
    }
}

} // verus!
