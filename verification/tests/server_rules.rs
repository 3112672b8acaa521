use gh_inbox::config::Config;
use gh_inbox::server_rules::{
    cache_control_for, inject_session_token, is_api_asset_path, mime_from_path,
    new_session_token, security_headers, session_token_accepted,
};
use gh_inbox::teams::{team_full_slug, team_full_slugs, user_teams_stale};

#[test]
fn mime_types_by_extension() {
    assert_eq!(mime_from_path("index.html"), "text/html; charset=utf-8");
    assert_eq!(mime_from_path("assets/app.js"), "application/javascript; charset=utf-8");
    assert_eq!(mime_from_path("assets/app.css"), "text/css; charset=utf-8");
    assert_eq!(mime_from_path("logo.svg"), "image/svg+xml");
    assert_eq!(mime_from_path("font.woff2"), "font/woff2");
    assert_eq!(mime_from_path("archive.tar.gz"), "application/octet-stream");
    assert_eq!(mime_from_path("README"), "application/octet-stream");
}

#[test]
fn html_is_never_cached() {
    assert_eq!(cache_control_for("index.html"), "no-cache");
    assert_eq!(cache_control_for("other.html"), "no-cache");
    assert_eq!(cache_control_for("assets/app-123.js"), "public, max-age=31536000, immutable");
}

#[test]
fn api_paths_are_not_assets() {
    assert!(is_api_asset_path("api/inbox"));
    assert!(!is_api_asset_path("assets/api.js"));
}

#[test]
fn api_requests_need_the_token() {
    assert!(session_token_accepted("/api/inbox", Some("secret"), "secret"));
    assert!(!session_token_accepted("/api/inbox", Some("wrong"), "secret"));
    assert!(!session_token_accepted("/api/inbox", None, "secret"));
}

#[test]
fn event_stream_and_assets_need_no_token() {
    assert!(session_token_accepted("/api/events", None, "secret"));
    assert!(session_token_accepted("/index.html", None, "secret"));
    assert!(session_token_accepted("/", None, "secret"));
}

#[test]
fn token_is_injected_before_head_close() {
    let html = "<html><head><title>x</title></head><body></body></html>";
    assert_eq!(
        inject_session_token(html, "abc"),
        "<html><head><title>x</title><meta name=\"x-session-token\" content=\"abc\"></head><body></body></html>"
    );
    assert_eq!(inject_session_token("<p>no head</p>", "abc"), "<p>no head</p>");
}

#[test]
fn every_response_gets_security_headers() {
    let h = security_headers();
    assert_eq!(h.len(), 4);
    assert_eq!(h[0], ("x-content-type-options", "nosniff"));
    assert_eq!(h[1], ("x-frame-options", "DENY"));
    assert_eq!(h[2], ("referrer-policy", "no-referrer"));
    assert_eq!(h[3].0, "content-security-policy");
    assert!(h[3].1.contains("connect-src 'self'"));
}

#[test]
fn session_tokens_are_32_alphanumerics_and_differ() {
    let a = new_session_token();
    let b = new_session_token();
    assert_eq!(a.chars().count(), 32);
    assert!(a.chars().all(|c| c.is_ascii_alphanumeric()));
    assert_ne!(a, b);
}

#[test]
fn config_from_values() {
    let c = Config::from_values(Some("8080"), Some("45"));
    assert_eq!(c.bind_addr, "127.0.0.1:8080");
    assert_eq!(c.sync_interval_secs, 45);
    let c = Config::from_values(None, Some("soon"));
    assert_eq!(c.bind_addr, "127.0.0.1:0");
    assert_eq!(c.sync_interval_secs, 30);
    let c = Config::from_values(None, None);
    assert_eq!(c.sync_interval_secs, 30);
}

#[test]
fn team_slugs() {
    assert_eq!(team_full_slug("acme", "platform"), "acme/platform");
    assert_eq!(
        team_full_slugs(&vec![("acme".to_string(), "platform".to_string()), ("acme".to_string(), "backend".to_string())]),
        vec!["acme/platform".to_string(), "acme/backend".to_string()]
    );
}

#[test]
fn teams_refetched_after_a_day() {
    assert!(user_teams_stale(None, 100));
    assert!(!user_teams_stale(Some(0), 86_400));
    assert!(user_teams_stale(Some(0), 86_401));
}
