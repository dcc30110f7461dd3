use slimjelly::seerr::SeerrClient;

#[test]
fn normalize_url_strips_trailing_slash() {
    let result = SeerrClient::normalize_url("http://localhost:5055/").unwrap();
    assert_eq!(result, "http://localhost:5055");
}

#[test]
fn normalize_url_strips_api_v1_suffix() {
    let result = SeerrClient::normalize_url("http://seerr.local/api/v1").unwrap();
    assert_eq!(result, "http://seerr.local");
}

#[test]
fn normalize_url_adds_http_scheme() {
    let result = SeerrClient::normalize_url("seerr.local:5055").unwrap();
    assert_eq!(result, "http://seerr.local:5055");
}

#[test]
fn normalize_url_preserves_https() {
    let result = SeerrClient::normalize_url("https://seerr.example.com").unwrap();
    assert_eq!(result, "https://seerr.example.com");
}

#[test]
fn normalize_url_rejects_empty() {
    let result = SeerrClient::normalize_url("   ");
    assert!(result.is_err());
}
