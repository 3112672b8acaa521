use gh_inbox::notifications::{
    archive_row, archive_stale_rows, mark_read_row, unarchive_row, upsert_row, NotificationRow,
    StoredNotification,
};

fn snapshot(unread: bool, updated_at: &str) -> NotificationRow {
    NotificationRow {
        id: "n1".to_string(),
        pr_id: Some(42),
        title: "T".to_string(),
        repository: "owner/repo".to_string(),
        reason: "review_requested".to_string(),
        unread,
        archived: false,
        updated_at: updated_at.to_string(),
    }
}

fn stored(id: &str, archived: bool, synced_at: i64) -> StoredNotification {
    StoredNotification {
        id: id.to_string(),
        pr_id: Some(42),
        title: "T".to_string(),
        repository: "owner/repo".to_string(),
        reason: "review_requested".to_string(),
        unread: true,
        archived,
        locally_unarchived: false,
        local_write_epoch: None,
        updated_at: "2025-01-01T00:00:00Z".to_string(),
        synced_at,
    }
}

#[test]
fn first_upsert_stores_snapshot_and_counts_as_change() {
    let (row, changed) = upsert_row(None, &snapshot(true, "2025-01-02T00:00:00Z"), 10);
    assert!(changed);
    assert_eq!(row.id, "n1");
    assert!(row.unread);
    assert!(!row.archived);
    assert_eq!(row.synced_at, 10);
    assert_eq!(row.local_write_epoch, None);
}

#[test]
fn upsert_twice_is_idempotent_up_to_bookkeeping() {
    let incoming = snapshot(true, "2025-01-02T00:00:00Z");
    let (first, _) = upsert_row(None, &incoming, 10);
    let (second, changed) = upsert_row(Some(&first), &incoming, 20);
    assert!(!changed);
    assert_eq!(second.unread, first.unread);
    assert_eq!(second.archived, first.archived);
    assert_eq!(second.updated_at, first.updated_at);
    assert_eq!(second.synced_at, 20);
}

#[test]
fn local_read_survives_an_older_sync() {
    let row = stored("n1", false, 5);
    let read = mark_read_row(&row, 12);
    assert!(!read.unread);
    assert_eq!(read.local_write_epoch, Some(12));
    let (after, _) = upsert_row(Some(&read), &snapshot(true, "2025-01-02T00:00:00Z"), 11);
    assert!(!after.unread);
    assert_eq!(after.local_write_epoch, Some(12));
}

#[test]
fn local_archive_survives_an_older_sync_then_newer_sync_revives() {
    let row = stored("n1", false, 5);
    let archived = archive_row(&row, 12);
    assert!(archived.archived);
    let (after, _) = upsert_row(Some(&archived), &snapshot(true, "2025-01-02T00:00:00Z"), 12);
    assert!(after.archived);
    let (revived, changed) = upsert_row(Some(&after), &snapshot(true, "2025-01-03T00:00:00Z"), 13);
    assert!(changed);
    assert!(!revived.archived);
    assert_eq!(revived.local_write_epoch, None);
}

#[test]
fn unarchive_protects_from_reconciliation() {
    let row = stored("n1", true, 5);
    let back = unarchive_row(&row, 7);
    assert!(!back.archived);
    assert!(back.locally_unarchived);
    let (rows, count) = archive_stale_rows(&vec![back], 100);
    assert_eq!(count, 0);
    assert!(!rows[0].archived);
}

#[test]
fn reconciliation_archives_only_rows_the_sync_did_not_return() {
    let rows = vec![stored("old", false, 5), stored("fresh", false, 100), stored("gone", true, 1)];
    let (after, count) = archive_stale_rows(&rows, 100);
    assert_eq!(count, 1);
    assert!(after[0].archived);
    assert!(!after[1].archived);
    assert!(after[2].archived);
    assert_eq!(after[0].id, "old");
    assert_eq!(after[1].id, "fresh");
}

#[test]
fn archiving_clears_unarchive_protection() {
    let back = unarchive_row(&stored("n1", true, 5), 7);
    let again = archive_row(&back, 8);
    assert!(again.archived);
    assert!(!again.locally_unarchived);
    assert_eq!(again.local_write_epoch, Some(8));
}
