use gh_inbox::api_errors::{
    lagged_client_event, notification_not_found, pull_request_not_found, sse_event_name,
    thread_update_succeeded, ApiError,
};
use gh_inbox::models::{SyncEvent, SyncStatusKind};

#[test]
fn not_found_error_maps_to_404() {
    let app_err = ApiError::NotFound("notification not found".to_string());
    assert_eq!(app_err.status_code(), 404);
}

#[test]
fn database_error_maps_to_500() {
    let app_err = ApiError::Database { detail: "no rows returned by a query that expected to return at least one row".to_string() };
    assert_eq!(app_err.status_code(), 500);
}

#[test]
fn bad_request_error_maps_to_400() {
    let app_err = ApiError::BadRequest("invalid theme".to_string());
    assert_eq!(app_err.status_code(), 400);
}

#[test]
fn github_error_without_status_maps_to_bad_gateway() {
    let app_err = ApiError::GitHub { status: None, detail: "connection refused".to_string() };
    assert_eq!(app_err.status_code(), 502);
    assert_eq!(app_err.message(), "GitHub API error: connection refused");
}

#[test]
fn github_error_keeps_github_status() {
    let app_err = ApiError::GitHub { status: Some(403), detail: "forbidden".to_string() };
    assert_eq!(app_err.status_code(), 403);
}

#[test]
fn github_error_with_invalid_status_maps_to_bad_gateway() {
    let app_err = ApiError::GitHub { status: Some(1000), detail: "odd".to_string() };
    assert_eq!(app_err.status_code(), 502);
    let app_err = ApiError::GitHub { status: Some(99), detail: "odd".to_string() };
    assert_eq!(app_err.status_code(), 502);
}

#[test]
fn internal_error_maps_to_500_with_its_message() {
    let app_err = ApiError::Internal("boom".to_string());
    assert_eq!(app_err.status_code(), 500);
    assert_eq!(app_err.message(), "boom");
}

#[test]
fn database_error_message_is_prefixed() {
    let app_err = ApiError::Database { detail: "locked".to_string() };
    assert_eq!(app_err.message(), "Database error: locked");
}

#[test]
fn notification_not_found_message() {
    match notification_not_found("n7") {
        ApiError::NotFound(m) => assert_eq!(m, "notification n7 not found"),
        _ => panic!("expected NotFound"),
    }
}

#[test]
fn pull_request_not_found_message() {
    let e = pull_request_not_found("owner", "repo", "42");
    assert_eq!(e.status_code(), 404);
    assert_eq!(e.message(), "Pull request owner/repo#42 not found via GraphQL");
}

#[test]
fn event_names_on_the_stream() {
    assert_eq!(sse_event_name(&SyncEvent::NewNotifications { count: 3 }), Some("notifications:new"));
    assert_eq!(
        sse_event_name(&SyncEvent::SyncStatus { status: SyncStatusKind::Started }),
        Some("sync:status")
    );
    assert_eq!(
        sse_event_name(&SyncEvent::PrTeamsUpdated(gh_inbox::models::PrTeamsUpdatedData {
            pr_id: 1,
            teams: vec![]
        })),
        None
    );
    assert_eq!(
        sse_event_name(&SyncEvent::GithubSyncError(gh_inbox::models::GithubSyncErrorData {
            notification_id: "n1".to_string(),
            message: "m".to_string()
        })),
        Some("github:sync_error")
    );
}

#[test]
fn lagged_client_gets_refetch_notice() {
    assert_eq!(lagged_client_event(), ("notifications:new", "{\"count\":0}"));
}

#[test]
fn thread_updates_tolerate_forbidden_and_missing_threads() {
    assert!(thread_update_succeeded(205));
    assert!(thread_update_succeeded(304));
    assert!(thread_update_succeeded(403));
    assert!(thread_update_succeeded(404));
    assert!(!thread_update_succeeded(401));
    assert!(!thread_update_succeeded(422));
    assert!(!thread_update_succeeded(502));
}
