//! Signing in: which fields a login needs, what a login reply grants, what
//! a session check reports, and when the subtitle account can be used.

use vstd::prelude::*;

use crate::text::opt_text;
use crate::jellyfin::models::{AuthenticationResult, UserDto};
use crate::text::{concat2, trim, trim_str};

verus! {

/// The message shown while a login field is missing.
pub const LOGIN_FIELDS_MESSAGE: &'static str = "Set server URL, username, and password";

/// The error of a login reply without a token or a user id.
pub const INCOMPLETE_LOGIN_MESSAGE: &'static str = "Jellyfin returned incomplete login payload";

/// What a successful login grants.
#[derive(Debug, Clone, PartialEq, Eq)]
pub struct LoginSuccess {
    pub token: String,
    pub user_id: String,
    pub user_name: String,
    pub is_admin: bool,
    pub server_id: Option<String>,
}

/// A login is missing a field: the server URL or user name is blank, or the
/// password is empty.
pub open spec fn login_fields_missing_spec(base_url: Seq<char>, username: Seq<char>, password: Seq<char>) -> bool {
    trim(base_url).len() == 0 || trim(username).len() == 0 || password.len() == 0
}

/// Whether a login cannot be tried yet.
pub fn login_fields_missing(base_url: &str, username: &str, password: &str) -> (b: bool)
    ensures
        b == login_fields_missing_spec(base_url@, username@, password@),
{
    trim_str(base_url).len() == 0 || trim_str(username).len() == 0 || password.unicode_len() == 0
}

/// `o`'s text, or empty.
pub open spec fn text_or_empty(o: Option<String>) -> Seq<char> {
    match o {
        Some(s) => s@,
        None => Seq::empty(),
    }
}

/// The user id a login reply carries, or empty.
pub open spec fn reply_user_id(auth: AuthenticationResult) -> Seq<char> {
    match auth.user {
        Some(u) => text_or_empty(u.id),
        None => Seq::empty(),
    }
}

/// The user name a login reply carries, or the name typed in.
pub open spec fn reply_user_name(auth: AuthenticationResult, typed: Seq<char>) -> Seq<char> {
    match auth.user {
        Some(u) => match u.name {
            Some(n) => n@,
            None => typed,
        },
        None => typed,
    }
}

/// The user is an administrator by the policy it carries.
pub open spec fn user_is_admin(user: Option<UserDto>) -> bool {
    match user {
        Some(u) => match u.policy {
            Some(p) => p.is_administrator == Some(true),
            None => false,
        },
        None => false,
    }
}

/// What a login reply grants the user who typed `username`: the token, the
/// user's id and name (the typed name where the reply has none), whether the
/// user is an administrator, and the server's id. A reply without a token or
/// a user id is refused.
pub fn login_outcome(auth: AuthenticationResult, username: String) -> (r: Result<LoginSuccess, String>)
    ensures
        (text_or_empty(auth.access_token).len() == 0 || reply_user_id(auth).len() == 0) ==> (r
            matches Err(m) && m@ == INCOMPLETE_LOGIN_MESSAGE@),
        (text_or_empty(auth.access_token).len() > 0 && reply_user_id(auth).len() > 0) ==> (r
            matches Ok(s) && s.token@ == text_or_empty(auth.access_token) && s.user_id@
            == reply_user_id(auth) && s.user_name@ == reply_user_name(auth, username@)
            && s.is_admin == user_is_admin(auth.user) && opt_text(s.server_id) == opt_text(
            auth.server_id,
        )),
{
    let token = match auth.access_token {
        Some(t) => t,
        None => String::new(),
    };
    let is_admin = match &auth.user {
        Some(u) => match &u.policy {
            Some(p) => match p.is_administrator {
                Some(b) => b,
                None => false,
            },
            None => false,
        },
        None => false,
    };
    let (user_id, user_name) = match auth.user {
        Some(u) => (
            match u.id {
                Some(i) => i,
                None => String::new(),
            },
            match u.name {
                Some(n) => n,
                None => username,
            },
        ),
        None => (String::new(), username),
    };
    if token.unicode_len() == 0 || user_id.unicode_len() == 0 {
        return Err(String::from_str(INCOMPLETE_LOGIN_MESSAGE));
    }
    Ok(LoginSuccess { token, user_id, user_name, is_admin, server_id: auth.server_id })
}

/// The name and administrator flag a session check reports: the user's name
/// ("unknown" where it has none) and its policy's flag.
pub fn validated_user(user: UserDto) -> (r: (String, bool))
    ensures
        r.0@ == (match user.name {
            Some(n) => n@,
            None => "unknown"@,
        }),
        r.1 == user_is_admin(Some(user)),
{
    let is_admin = match &user.policy {
        Some(p) => match p.is_administrator {
            Some(b) => b,
            None => false,
        },
        None => false,
    };
    let name = match user.name {
        Some(n) => n,
        None => String::from_str("unknown"),
    };
    (name, is_admin)
}

/// Why subtitles cannot be searched: no API key.
pub open spec fn subtitle_search_blocked_spec(api_key: Seq<char>) -> Option<Seq<char>> {
    if trim(api_key).len() == 0 {
        Some("Set OpenSubtitles API key in Settings first"@)
    } else {
        None
    }
}

/// Why a subtitle cannot be downloaded: no API key, or neither a token from
/// an earlier login nor a user name and password to log in with.
pub open spec fn subtitle_download_blocked_spec(
    api_key: Seq<char>,
    username: Seq<char>,
    password: Seq<char>,
    has_token: bool,
) -> Option<Seq<char>> {
    if trim(api_key).len() == 0 {
        Some("Set OpenSubtitles API key in Settings first"@)
    } else if !has_token && (trim(username).len() == 0 || password.len() == 0) {
        Some("Set OpenSubtitles username and password in Settings for downloads"@)
    } else {
        None
    }
}

/// The message that stops a subtitle search, if any.
pub fn subtitle_search_blocked(api_key: &str) -> (r: Option<String>)
    ensures
        opt_text(r) == subtitle_search_blocked_spec(api_key@),
{
    if trim_str(api_key).len() == 0 {
        Some(String::from_str("Set OpenSubtitles API key in Settings first"))
    } else {
        None
    }
}

/// The message that stops a subtitle download, if any.
pub fn subtitle_download_blocked(api_key: &str, username: &str, password: &str, has_token: bool) -> (r:
    Option<String>)
    ensures
        opt_text(r) == subtitle_download_blocked_spec(api_key@, username@, password@, has_token),
{
    if trim_str(api_key).len() == 0 {
        Some(String::from_str("Set OpenSubtitles API key in Settings first"))
    } else if !has_token && (trim_str(username).len() == 0 || password.unicode_len() == 0) {
        Some(String::from_str("Set OpenSubtitles username and password in Settings for downloads"))
    } else {
        None
    }
}

/// Whether saved settings hold a complete subtitle account to check: user
/// name and API key not blank, password not empty.
pub fn subtitle_credentials_complete(username: &str, password: &str, api_key: &str) -> (b: bool)
    ensures
        b == (trim(username@).len() > 0 && password@.len() > 0 && trim(api_key@).len() > 0),
{
    trim_str(username).len() > 0 && password.unicode_len() > 0 && trim_str(api_key).len() > 0
}

/// The name a downloaded subtitle is saved under: the server's file name
/// where it gives a non-empty one, else the name that was asked for.
pub fn subtitle_file_name(server_name: Option<String>, requested: String) -> (n: String)
    ensures
        n@ == (match server_name {
            Some(s) => if s@.len() > 0 {
                s@
            } else {
                requested@
            },
            None => requested@,
        }),
{
    match server_name {
        Some(s) => if s.unicode_len() > 0 {
            s
        } else {
            requested
        },
        None => requested,
    }
}

/// The temporary file name of a downloaded subtitle.
pub fn subtitle_temp_name(file_name: &str) -> (n: String)
    ensures
        n@ == "slimjelly-sub-"@ + file_name@,
{
    concat2("slimjelly-sub-", file_name)
}

} // verus!
