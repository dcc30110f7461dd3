//! The library's error type and the text each error reads as.

use vstd::prelude::*;

verus! {

/// Everything that can go wrong in the client. Errors raised by outside
/// services and parsers carry their message as text.
#[derive(Debug, Clone, PartialEq, Eq)]
pub enum AppError {
    ConfigDirUnavailable,
    Config(String),
    Io(String),
    TomlDeserialize(String),
    TomlSerialize(String),
    Http(String),
    Json(String),
    UrlParse(String),
    Crypto(String),
    ApiStatus { status: u16, message: String },
}

/// The text an error reads as.
pub open spec fn error_text(e: AppError) -> Seq<char> {
    match e {
        AppError::ConfigDirUnavailable => "config directory is unavailable on this system"@,
        AppError::Config(m) => "configuration error: "@ + m@,
        AppError::Io(m) => "io error: "@ + m@,
        AppError::TomlDeserialize(m) => "toml deserialize error: "@ + m@,
        AppError::TomlSerialize(m) => "toml serialize error: "@ + m@,
        AppError::Http(m) => "http error: "@ + m@,
        AppError::Json(m) => "json error: "@ + m@,
        AppError::UrlParse(m) => "url parse error: "@ + m@,
        AppError::Crypto(m) => "crypto error: "@ + m@,
        AppError::ApiStatus { status, message } => "api request failed ("@ + crate::text::nat_text(
            status as nat,
        ) + "): "@ + message@,
    }
}

/// The error is a configuration error with message `m`.
pub open spec fn is_config_error(r: AppError, m: Seq<char>) -> bool {
    r matches AppError::Config(t) && t@ == m
}

/// The error is a crypto error with message `m`.
pub open spec fn is_crypto_error(r: AppError, m: Seq<char>) -> bool {
    r matches AppError::Crypto(t) && t@ == m
}

/// The error is an API status error with this status and message.
pub open spec fn is_status_error(r: AppError, status: u16, m: Seq<char>) -> bool {
    r matches AppError::ApiStatus { status: s, message: t } && s == status && t@ == m
}

fn prefixed(prefix: &str, m: &String) -> (s: String)
    ensures
        s@ == prefix@ + m@,
{
    crate::text::concat2(prefix, m.as_str())
}

impl AppError {
    /// The text this error reads as (its display form).
    pub fn message(&self) -> (s: String)
        ensures
            s@ == error_text(*self),
    {
        match self {
            AppError::ConfigDirUnavailable => String::from_str(
                "config directory is unavailable on this system",
            ),
            AppError::Config(m) => prefixed("configuration error: ", m),
            AppError::Io(m) => prefixed("io error: ", m),
            AppError::TomlDeserialize(m) => prefixed("toml deserialize error: ", m),
            AppError::TomlSerialize(m) => prefixed("toml serialize error: ", m),
            AppError::Http(m) => prefixed("http error: ", m),
            AppError::Json(m) => prefixed("json error: ", m),
            AppError::UrlParse(m) => prefixed("url parse error: ", m),
            AppError::Crypto(m) => prefixed("crypto error: ", m),
            AppError::ApiStatus { status, message } => {
                let mut s = String::from_str("api request failed (");
                let code = crate::text::u64_text(*status as u64);
                s.append(code.as_str());
                s.append("): ");
                s.append(message.as_str());
                s
            },
        }
    }
}

/// A response status in 200..=299 is a success.
pub open spec fn is_success_status(status: u16) -> bool {
    200 <= status <= 299
}

/// The outcome of a response: success statuses pass, any other status is
/// an API error carrying the response body.
pub fn check_response(status: u16, body: String) -> (r: Result<(), AppError>)
    ensures
        is_success_status(status) ==> r is Ok,
        !is_success_status(status) ==> (r matches Err(e) && is_status_error(
            e,
            status,
            body@,
        )),
{
    if 200 <= status && status <= 299 {
        Ok(())
    } else {
        Err(AppError::ApiStatus { status, message: body })
    }
}

} // verus!
