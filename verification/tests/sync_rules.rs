use gh_inbox::notifications::upsert_row;
use gh_inbox::models::{Notification, Repository, Subject, SyncEvent, SyncStatusKind};
use gh_inbox::rows::PullRequestRow;
use gh_inbox::sync::{
    epoch_to_iso, inbox_change_count, notification_row, plan_sync, pr_info_for_row, pr_number_of,
    should_reconcile, tick_announcements, viewport_fetch_targets, ChangedNotification, SyncResult,
    TickOutcome,
};

fn notification(subject_type: &str, url: Option<&str>, unread: bool, reason: &str) -> Notification {
    Notification {
        id: "1".to_string(),
        reason: reason.to_string(),
        unread,
        updated_at: "2025-01-01T00:00:00Z".to_string(),
        subject: Subject {
            title: "Fix bug in parser".to_string(),
            url: url.map(|u| u.to_string()),
            subject_type: subject_type.to_string(),
        },
        repository: Repository { full_name: "owner/repo".to_string() },
    }
}

#[test]
fn first_sync_is_full() {
    let p = plan_sync(None, 1_000_000);
    assert!(p.full);
    assert_eq!(p.since_epoch, None);
}

#[test]
fn recent_sync_is_incremental_with_overlap() {
    let p = plan_sync(Some(1_000_000), 1_000_000 + 7200);
    assert!(!p.full);
    assert_eq!(p.since_epoch, Some(1_000_000 - 60));
}

#[test]
fn old_sync_triggers_full() {
    let p = plan_sync(Some(1_000_000), 1_000_000 + 7201);
    assert!(p.full);
    assert_eq!(p.since_epoch, None);
}

#[test]
fn epoch_formats_as_iso_utc() {
    assert_eq!(epoch_to_iso(0), Some("1970-01-01T00:00:00Z".to_string()));
    assert_eq!(epoch_to_iso(1_735_689_600), Some("2025-01-01T00:00:00Z".to_string()));
    assert_eq!(epoch_to_iso(i64::MAX), None);
}

#[test]
fn pr_number_from_pull_request_url() {
    let n = notification("PullRequest", Some("https://api.github.com/repos/owner/repo/pulls/42"), true, "review_requested");
    assert_eq!(pr_number_of(&n), Some(42));
}

#[test]
fn issue_url_is_not_a_pull_request() {
    let n = notification("Issue", Some("https://api.github.com/repos/owner/repo/issues/431"), true, "mention");
    assert_eq!(pr_number_of(&n), None);
}

#[test]
fn pull_request_without_url_has_no_number() {
    let n = notification("PullRequest", None, true, "mention");
    assert_eq!(pr_number_of(&n), None);
    let n = notification("PullRequest", Some("https://api.github.com/repos/o/r/pulls/x"), true, "mention");
    assert_eq!(pr_number_of(&n), None);
}

#[test]
fn notification_row_shapes_snapshot() {
    let n = notification("PullRequest", Some("https://api.github.com/repos/owner/repo/pulls/42"), true, "review_requested");
    let r = notification_row(&n, true);
    assert_eq!(r.id, "1");
    assert_eq!(r.pr_id, Some(42));
    assert_eq!(r.title, "Fix bug in parser");
    assert_eq!(r.repository, "owner/repo");
    assert!(r.unread);
    assert!(!r.archived);
}

#[test]
fn own_activity_is_never_unread_and_read_threads_start_archived() {
    let r = notification_row(&notification("PullRequest", None, true, "your_activity"), true);
    assert!(!r.unread);
    assert!(!r.archived);
    let r = notification_row(&notification("PullRequest", None, false, "mention"), true);
    assert!(!r.unread);
    assert!(r.archived);
    let r = notification_row(&notification("PullRequest", None, false, "mention"), false);
    assert!(!r.unread);
    assert!(!r.archived);
}

#[test]
fn reconciliation_only_after_nonempty_full_sync() {
    assert!(should_reconcile(true, 3));
    assert!(!should_reconcile(true, 0));
    assert!(!should_reconcile(false, 3));
}

#[test]
fn change_count_adds_reconciled_rows() {
    let result = SyncResult {
        changed: vec![ChangedNotification { repository: "o/r".to_string(), pr_id: Some(1) }],
        reconciled: 2,
    };
    assert_eq!(inbox_change_count(&result), 3);
}

#[test]
fn tick_with_changes_announces_count_and_refetch() {
    let a = tick_announcements(TickOutcome::Synced { changes: 3 });
    assert!(matches!(a.changes, Some(SyncEvent::NewNotifications { count: 3 })));
    assert!(a.fetch_viewport);
    assert!(matches!(a.status, SyncEvent::SyncStatus { status: SyncStatusKind::Completed }));
}

#[test]
fn tick_without_changes_only_completes() {
    let a = tick_announcements(TickOutcome::Synced { changes: 0 });
    assert!(a.changes.is_none());
    assert!(!a.fetch_viewport);
}

#[test]
fn failed_tick_reports_error() {
    let a = tick_announcements(TickOutcome::Failed { message: "boom".to_string() });
    assert!(a.changes.is_none());
    assert!(!a.fetch_viewport);
    match a.status {
        SyncEvent::SyncStatus { status: SyncStatusKind::Errored { message } } => assert_eq!(message, "boom"),
        _ => panic!("expected errored status"),
    }
}

#[test]
fn viewport_targets_are_changed_prs_in_view() {
    let changed = vec![
        ChangedNotification { repository: "acme/api".to_string(), pr_id: Some(1) },
        ChangedNotification { repository: "acme/api".to_string(), pr_id: Some(2) },
        ChangedNotification { repository: "acme/web".to_string(), pr_id: None },
        ChangedNotification { repository: "noslash".to_string(), pr_id: Some(3) },
    ];
    let viewport = vec![("acme/api".to_string(), 2), ("noslash".to_string(), 3), ("acme/web".to_string(), 9)];
    let targets = viewport_fetch_targets(&changed, &viewport);
    assert_eq!(targets.len(), 1);
    assert_eq!(targets[0].repository, "acme/api");
    assert_eq!(targets[0].owner, "acme");
    assert_eq!(targets[0].repo, "api");
    assert_eq!(targets[0].pr_id, 2);
}

#[test]
fn pr_info_carries_row_status() {
    let row = PullRequestRow {
        id: 42,
        title: "T".to_string(),
        repo: "owner/repo".to_string(),
        author: "alice".to_string(),
        author_avatar_url: None,
        url: "u".to_string(),
        ci_status: Some("success".to_string()),
        last_viewed_at: None,
        body: String::new(),
        body_html: String::new(),
        state: "closed".to_string(),
        head_sha: "abc".to_string(),
        additions: 1,
        deletions: 1,
        changed_files: 1,
        draft: false,
        merged_at: None,
        teams: None,
        labels: "[]".to_string(),
    };
    let info = pr_info_for_row(&row, "owner/repo", 42, Some(2), None, None, None);
    assert_eq!(info.pr_id, 42);
    assert_eq!(info.repository, "owner/repo");
    assert_eq!(info.author, "alice");
    assert_eq!(info.pr_status.as_str(), "closed");
    assert_eq!(info.ci_status, Some("success".to_string()));
    assert_eq!(info.new_commits, Some(2));
}

#[test]
fn first_seen_read_notification_starts_archived_on_full_sync() {
    let n = notification("PullRequest", Some("https://api.github.com/repos/owner/repo/pulls/42"), false, "review_requested");
    let (stored, changed) = upsert_row(None, &notification_row(&n, true), 100);
    assert!(changed);
    assert!(stored.archived);
    assert!(!stored.unread);
}

#[test]
fn first_seen_read_notification_stays_in_inbox_on_incremental_sync() {
    let n = notification("PullRequest", Some("https://api.github.com/repos/owner/repo/pulls/42"), false, "review_requested");
    let (stored, changed) = upsert_row(None, &notification_row(&n, false), 100);
    assert!(changed);
    assert!(!stored.archived, "arrives read, but stays in the inbox");
    assert!(!stored.unread);
}

#[test]
fn idempotent_when_data_unchanged() {
    let unread = notification("PullRequest", Some("https://api.github.com/repos/owner/repo/pulls/42"), true, "review_requested");
    let read = notification("Issue", None, false, "mention");
    for n in [&unread, &read] {
        let (first, changed) = upsert_row(None, &notification_row(n, true), 100);
        assert!(changed);
        let (second, changed_again) = upsert_row(Some(&first), &notification_row(n, false), 130);
        assert!(!changed_again, "a second sync over the same data changes nothing");
        assert_eq!(second.unread, first.unread);
        assert_eq!(second.archived, first.archived);
        assert_eq!(second.updated_at, first.updated_at);
        assert_eq!(second.local_write_epoch, first.local_write_epoch);
        assert_eq!(second.synced_at, 130);
    }
}
