use std::collections::HashMap;

use slimjelly::config::ServerConfig;
use slimjelly::error::AppError;
use slimjelly::jellyfin::client::{normalize_base_url, JellyfinClient};

fn server(base_url: &str) -> ServerConfig {
    ServerConfig {
        base_url: base_url.to_string(),
        username: "user".to_string(),
        allow_self_signed: false,
    }
}

#[test]
fn normalize_base_url_adds_https_and_trailing_slash() -> Result<(), AppError> {
    let normalized = normalize_base_url("jellyfin.local:8096")?;
    assert_eq!(normalized.as_str(), "https://jellyfin.local:8096/");
    Ok(())
}

#[test]
fn normalize_base_url_uses_http_for_private_ipv4() -> Result<(), AppError> {
    let normalized = normalize_base_url("192.168.1.48:8096")?;
    assert_eq!(normalized.as_str(), "http://192.168.1.48:8096/");
    Ok(())
}

#[test]
fn normalize_base_url_uses_http_for_localhost() -> Result<(), AppError> {
    let normalized = normalize_base_url("localhost:8096")?;
    assert_eq!(normalized.as_str(), "http://localhost:8096/");
    Ok(())
}

#[test]
fn normalize_base_url_trims_whitespace() -> Result<(), AppError> {
    let normalized = normalize_base_url("  https://example.com/base  ")?;
    assert_eq!(normalized.as_str(), "https://example.com/base/");
    Ok(())
}

#[test]
fn normalize_base_url_rejects_empty_input() {
    let result = normalize_base_url("   ");
    assert!(matches!(
        result,
        Err(AppError::Config(message)) if message.contains("must not be empty")
    ));
}

#[test]
fn authorization_header_without_token_omits_token_field() -> Result<(), AppError> {
    let client = JellyfinClient::new(&server("https://example.com"), "device-1".to_string())?;
    let header = client.authorization_header(None);
    assert!(header.contains("Client=\"slimjelly\""));
    assert!(header.contains("DeviceId=\"device-1\""));
    assert!(!header.contains("Token=\""));
    Ok(())
}

#[test]
fn authorization_header_with_token_includes_token_field() -> Result<(), AppError> {
    let client = JellyfinClient::new(&server("https://example.com"), "device-2".to_string())?;
    let header = client.authorization_header(Some("abc123"));
    assert!(header.contains("DeviceId=\"device-2\""));
    assert!(header.contains("Token=\"abc123\""));
    Ok(())
}

#[test]
fn build_video_stream_url_contains_expected_query_values() -> Result<(), AppError> {
    let mut client = JellyfinClient::new(&server("https://example.com"), "device-3".to_string())?;
    client.set_token(Some("tok".to_string()));

    let url = client.build_video_stream_url(
        "item1",
        Some("source1"),
        Some("session1"),
        Some(2),
        Some(4),
        true,
    )?;

    let parsed = url::Url::parse(&url).expect("generated URL must parse");
    assert_eq!(parsed.path(), "/Videos/item1/stream");

    let pairs: HashMap<_, _> = parsed.query_pairs().into_owned().collect();

    assert_eq!(pairs.get("static").map(String::as_str), Some("false"));
    assert_eq!(pairs.get("mediaSourceId").map(String::as_str), Some("source1"));
    assert_eq!(pairs.get("playSessionId").map(String::as_str), Some("session1"));
    assert_eq!(pairs.get("audioStreamIndex").map(String::as_str), Some("2"));
    assert_eq!(pairs.get("subtitleStreamIndex").map(String::as_str), Some("4"));
    assert_eq!(pairs.get("api_key").map(String::as_str), Some("tok"));

    Ok(())
}

#[test]
fn normalize_base_url_keeps_http_scheme_and_path() -> Result<(), AppError> {
    assert_eq!(normalize_base_url("http://media.example.com/jf")?, "http://media.example.com/jf/");
    Ok(())
}

#[test]
fn normalize_base_url_uses_http_for_loopback_ipv6() -> Result<(), AppError> {
    assert_eq!(normalize_base_url("[::1]:8096")?, "http://[::1]:8096/");
    Ok(())
}

#[test]
fn normalize_base_url_uses_https_for_public_ipv4() -> Result<(), AppError> {
    assert_eq!(normalize_base_url("8.8.8.8")?, "https://8.8.8.8/");
    Ok(())
}

#[test]
fn normalize_base_url_reports_url_parse_error() {
    let result = normalize_base_url("http://exa mple.com");
    assert!(matches!(
        result,
        Err(AppError::Config(message)) if message.starts_with("invalid server.base_url 'http://exa mple.com': ")
    ));
}

#[test]
fn client_keeps_device_id_and_token() -> Result<(), AppError> {
    let mut client = JellyfinClient::new(&server("example.com"), "dev".to_string())?;
    assert_eq!(client.base_url(), "https://example.com/");
    assert_eq!(client.device_id(), "dev");
    assert_eq!(client.token(), None);
    client.set_token(Some("t1".to_string()));
    assert_eq!(client.token(), Some("t1"));
    Ok(())
}

#[test]
fn stream_url_without_transcode_is_static() -> Result<(), AppError> {
    let client = JellyfinClient::new(&server("https://example.com"), "device-4".to_string())?;
    let url = client.build_video_stream_url("item9", None, None, None, None, false)?;
    let parsed = url::Url::parse(&url).expect("generated URL must parse");
    let pairs: HashMap<_, _> = parsed.query_pairs().into_owned().collect();
    assert_eq!(pairs.get("static").map(String::as_str), Some("true"));
    assert!(!pairs.contains_key("api_key"));
    Ok(())
}

#[test]
fn subtitle_url_points_at_the_stream_with_the_token() -> Result<(), AppError> {
    let mut client = JellyfinClient::new(&server("https://example.com/jf"), "device-5".to_string())?;
    assert_eq!(
        client.build_subtitle_url("item1", "source1", 3, "srt")?,
        "https://example.com/jf/Videos/item1/source1/Subtitles/3/Stream.srt"
    );
    client.set_token(Some("tok".to_string()));
    let url = client.build_subtitle_url("item1", "source1", 3, "vtt")?;
    let parsed = url::Url::parse(&url).expect("generated URL must parse");
    assert_eq!(parsed.path(), "/jf/Videos/item1/source1/Subtitles/3/Stream.vtt");
    let pairs: HashMap<_, _> = parsed.query_pairs().into_owned().collect();
    assert_eq!(pairs.get("api_key").map(String::as_str), Some("tok"));
    Ok(())
}
