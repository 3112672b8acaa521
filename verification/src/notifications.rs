//! The notification state machine: how a GitHub snapshot row combines with
//! the locally stored row, and what each local mutation writes.
//!
//! The database layer reads a stored row, asks this module what the row
//! becomes, and writes the result back inside one transaction.
use vstd::prelude::*;

use crate::text::str_equals;

verus! {

/// A notification as shaped for storage by the sync layer (one row of a
/// GitHub snapshot), and as returned by inbox queries.
pub struct NotificationRow {
    pub id: String,
    pub pr_id: Option<i64>,
    pub title: String,
    pub repository: String,
    pub reason: String,
    pub unread: bool,
    pub archived: bool,
    pub updated_at: String,
}

/// The sync-relevant local state of a tracked notification row.
pub struct LocalFlags {
    pub unread: bool,
    pub archived: bool,
    pub locally_unarchived: bool,
    pub local_write_epoch: Option<i64>,
    pub updated_at: String,
}

/// What `reconcile` decided to store for one incoming snapshot row.
pub struct Resolution {
    /// The snapshot brought real news: its metadata and the flags below are
    /// applied and the row counts as changed. When false, only the sync
    /// bookkeeping fields are written.
    pub changed: bool,
    pub unread: bool,
    pub archived: bool,
    pub locally_unarchived: bool,
    pub local_write_epoch: Option<i64>,
}

/// A full stored notification row, with its sync bookkeeping.
pub struct StoredNotification {
    pub id: String,
    pub pr_id: Option<i64>,
    pub title: String,
    pub repository: String,
    pub reason: String,
    pub unread: bool,
    pub archived: bool,
    /// Set when the user unarchived the row locally: GitHub no longer returns
    /// the (done) thread, so staleness says nothing about it.
    pub locally_unarchived: bool,
    /// When the last local mutation happened (epoch seconds); cleared by a
    /// sync that started after it.
    pub local_write_epoch: Option<i64>,
    pub updated_at: String,
    /// Start time of the last sync that returned this row.
    pub synced_at: i64,
}

/// The reason GitHub gives for notifications about the user's own activity.
pub open spec fn own_activity_reason() -> Seq<char> {
    "your_activity"@
}

/// The snapshot row reports the user's own activity.
pub open spec fn is_own_activity(incoming: NotificationRow) -> bool {
    incoming.reason@ == own_activity_reason()
}

/// A local mutation stamped at or after the sync's start postdates the
/// snapshot, which is then stale.
pub open spec fn is_stale_snapshot(local: LocalFlags, synced_at: i64) -> bool {
    match local.local_write_epoch {
        Some(e) => e >= synced_at,
        None => false,
    }
}

/// The snapshot differs from the stored row in a way that matters.
pub open spec fn brings_news(local: LocalFlags, incoming: NotificationRow) -> bool {
    local.updated_at@ != incoming.updated_at@ || local.unread != incoming.unread || (local.archived
        && incoming.unread)
}

/// The resolution of one snapshot row against the local state.
pub open spec fn reconciled(local: Option<LocalFlags>, incoming: NotificationRow, synced_at: i64) -> Resolution {
    match local {
        None => Resolution {
            changed: true,
            unread: incoming.unread,
            archived: incoming.archived,
            locally_unarchived: false,
            local_write_epoch: None,
        },
        Some(l) => {
            let stale = is_stale_snapshot(l, synced_at);
            let changed = brings_news(l, incoming);
            let keep_flags = !changed || stale || is_own_activity(incoming);
            Resolution {
                changed,
                unread: if keep_flags { l.unread } else { incoming.unread },
                archived: if keep_flags { l.archived } else { l.archived && !incoming.unread },
                locally_unarchived: stale && l.locally_unarchived,
                local_write_epoch: if stale { l.local_write_epoch } else { None },
            }
        },
    }
}

/// The notification state machine: how one row of a GitHub snapshot combines
/// with local state.
///
/// - First contact (`local` is None): the snapshot is stored as the caller
///   shaped it.
/// - A local mutation stamped at or after `synced_at` (the sync's start time)
///   postdates the snapshot: its unread/archived flags are stale and do not
///   overwrite local state. A later sync clears the stamp.
/// - The user's own activity never flips read/archived.
/// - New activity (snapshot says unread) revives an archived row.
/// - GitHub returning the thread lifts unarchive protection, unless the
///   snapshot is stale.
pub fn reconcile(local: Option<&LocalFlags>, incoming: &NotificationRow, synced_at: i64) -> (r:
    Resolution)
    ensures
        r == reconciled(
            match local {
                Some(l) => Some(*l),
                None => None,
            },
            *incoming,
            synced_at,
        ),
{
    let local = match local {
        Some(l) => l,
        None => {
            return Resolution {
                changed: true,
                unread: incoming.unread,
                archived: incoming.archived,
                locally_unarchived: false,
                local_write_epoch: None,
            };
        },
    };
    let stale_snapshot = match local.local_write_epoch {
        Some(e) => e >= synced_at,
        None => false,
    };
    let own_activity = str_equals(incoming.reason.as_str(), "your_activity");
    let changed = local.updated_at != incoming.updated_at || local.unread != incoming.unread || (
    local.archived && incoming.unread);
    let (unread, archived) = if !changed || stale_snapshot || own_activity {
        (local.unread, local.archived)
    } else {
        (incoming.unread, if incoming.unread { false } else { local.archived })
    };
    Resolution {
        changed,
        unread,
        archived,
        locally_unarchived: stale_snapshot && local.locally_unarchived,
        local_write_epoch: if stale_snapshot { local.local_write_epoch } else { None },
    }
}

/// The local flags of a stored row, as `reconcile` reads them.
pub open spec fn flags_of(r: StoredNotification) -> LocalFlags {
    LocalFlags {
        unread: r.unread,
        archived: r.archived,
        locally_unarchived: r.locally_unarchived,
        local_write_epoch: r.local_write_epoch,
        updated_at: r.updated_at,
    }
}

/// The stored row after a sync snapshot row was applied, and whether the
/// snapshot counted as a change.
pub open spec fn upserted(
    stored: Option<StoredNotification>,
    incoming: NotificationRow,
    synced_at: i64,
) -> (StoredNotification, bool) {
    match stored {
        None => {
            let res = reconciled(None, incoming, synced_at);
            (
                StoredNotification {
                    id: incoming.id,
                    pr_id: incoming.pr_id,
                    title: incoming.title,
                    repository: incoming.repository,
                    reason: incoming.reason,
                    unread: res.unread,
                    archived: res.archived,
                    locally_unarchived: res.locally_unarchived,
                    local_write_epoch: res.local_write_epoch,
                    updated_at: incoming.updated_at,
                    synced_at,
                },
                true,
            )
        },
        Some(r) => {
            let res = reconciled(Some(flags_of(r)), incoming, synced_at);
            if res.changed {
                (
                    StoredNotification {
                        id: r.id,
                        pr_id: incoming.pr_id,
                        title: incoming.title,
                        repository: incoming.repository,
                        reason: incoming.reason,
                        unread: res.unread,
                        archived: res.archived,
                        locally_unarchived: res.locally_unarchived,
                        local_write_epoch: res.local_write_epoch,
                        updated_at: incoming.updated_at,
                        synced_at,
                    },
                    true,
                )
            } else {
                (
                    StoredNotification {
                        locally_unarchived: res.locally_unarchived,
                        local_write_epoch: res.local_write_epoch,
                        synced_at,
                        ..r
                    },
                    false,
                )
            }
        },
    }
}

/// The row after the user marked it read at `now`.
pub open spec fn marked_read(r: StoredNotification, now: i64) -> StoredNotification {
    StoredNotification { unread: false, local_write_epoch: Some(now), ..r }
}

/// The row after the user archived it at `now`.
pub open spec fn archived_locally(r: StoredNotification, now: i64) -> StoredNotification {
    StoredNotification { archived: true, locally_unarchived: false, local_write_epoch: Some(now), ..r }
}

/// The row after the user moved it back to the inbox at `now`.
pub open spec fn unarchived_locally(r: StoredNotification, now: i64) -> StoredNotification {
    StoredNotification { archived: false, locally_unarchived: true, local_write_epoch: Some(now), ..r }
}

/// Full-sync reconciliation archives an inbox row that the sync which started
/// at `sync_started_at` did not return, unless it was unarchived locally.
pub open spec fn stale_for_reconciliation(r: StoredNotification, sync_started_at: i64) -> bool {
    !r.archived && r.synced_at < sync_started_at && !r.locally_unarchived
}

/// A row after full-sync reconciliation.
pub open spec fn after_reconciliation(r: StoredNotification, sync_started_at: i64) -> StoredNotification {
    if stale_for_reconciliation(r, sync_started_at) {
        StoredNotification { archived: true, ..r }
    } else {
        r
    }
}

/// The number of rows that full-sync reconciliation archives.
pub open spec fn stale_count(rows: Seq<StoredNotification>, sync_started_at: i64) -> nat
    decreases rows.len(),
{
    if rows.len() == 0 {
        0
    } else {
        stale_count(rows.drop_last(), sync_started_at) + if stale_for_reconciliation(
            rows.last(),
            sync_started_at,
        ) {
            1nat
        } else {
            0nat
        }
    }
}

fn copy_opt_i64(v: &Option<i64>) -> (r: Option<i64>)
    ensures
        r == *v,
{
    match v {
        Some(x) => Some(*x),
        None => None,
    }
}

impl StoredNotification {
    /// The sync-relevant local state of this row.
    pub fn local_flags(&self) -> (f: LocalFlags)
        ensures
            f == flags_of(*self),
    {
        LocalFlags {
            unread: self.unread,
            archived: self.archived,
            locally_unarchived: self.locally_unarchived,
            local_write_epoch: copy_opt_i64(&self.local_write_epoch),
            updated_at: self.updated_at.clone(),
        }
    }

    /// A copy of this row.
    pub fn duplicate(&self) -> (r: StoredNotification)
        ensures
            r == *self,
    {
        StoredNotification {
            id: self.id.clone(),
            pr_id: copy_opt_i64(&self.pr_id),
            title: self.title.clone(),
            repository: self.repository.clone(),
            reason: self.reason.clone(),
            unread: self.unread,
            archived: self.archived,
            locally_unarchived: self.locally_unarchived,
            local_write_epoch: copy_opt_i64(&self.local_write_epoch),
            updated_at: self.updated_at.clone(),
            synced_at: self.synced_at,
        }
    }
}

/// Apply one sync snapshot row to the stored row (None on first contact).
/// Returns the row to store and whether the snapshot counts as an inbox
/// change. `synced_at` is always recorded so that full-sync reconciliation can
/// tell which rows the sync returned.
pub fn upsert_row(stored: Option<&StoredNotification>, incoming: &NotificationRow, synced_at: i64) -> (r: (
    StoredNotification,
    bool,
))
    ensures
        r == upserted(
            match stored {
                Some(s) => Some(*s),
                None => None,
            },
            *incoming,
            synced_at,
        ),
{
    match stored {
        None => {
            let res = reconcile(None, incoming, synced_at);
            (
                StoredNotification {
                    id: incoming.id.clone(),
                    pr_id: copy_opt_i64(&incoming.pr_id),
                    title: incoming.title.clone(),
                    repository: incoming.repository.clone(),
                    reason: incoming.reason.clone(),
                    unread: res.unread,
                    archived: res.archived,
                    locally_unarchived: res.locally_unarchived,
                    local_write_epoch: res.local_write_epoch,
                    updated_at: incoming.updated_at.clone(),
                    synced_at,
                },
                true,
            )
        },
        Some(s) => {
            let flags = s.local_flags();
            let res = reconcile(Some(&flags), incoming, synced_at);
            if res.changed {
                (
                    StoredNotification {
                        id: s.id.clone(),
                        pr_id: copy_opt_i64(&incoming.pr_id),
                        title: incoming.title.clone(),
                        repository: incoming.repository.clone(),
                        reason: incoming.reason.clone(),
                        unread: res.unread,
                        archived: res.archived,
                        locally_unarchived: res.locally_unarchived,
                        local_write_epoch: res.local_write_epoch,
                        updated_at: incoming.updated_at.clone(),
                        synced_at,
                    },
                    true,
                )
            } else {
                let mut row = s.duplicate();
                row.locally_unarchived = res.locally_unarchived;
                row.local_write_epoch = res.local_write_epoch;
                row.synced_at = synced_at;
                (row, false)
            }
        },
    }
}

/// Mark a row read, stamping the local write time so that an in-flight sync
/// snapshot cannot flip it back to unread.
pub fn mark_read_row(r: &StoredNotification, now: i64) -> (out: StoredNotification)
    ensures
        out == marked_read(*r, now),
{
    let mut out = r.duplicate();
    out.unread = false;
    out.local_write_epoch = Some(now);
    out
}

/// Archive a row, stamping the local write time so that an in-flight sync
/// snapshot cannot revert it.
pub fn archive_row(r: &StoredNotification, now: i64) -> (out: StoredNotification)
    ensures
        out == archived_locally(*r, now),
{
    let mut out = r.duplicate();
    out.archived = true;
    out.locally_unarchived = false;
    out.local_write_epoch = Some(now);
    out
}

/// Move a row back to the inbox. The row is flagged so that full-sync
/// reconciliation does not re-archive it: its thread is done on GitHub, so
/// GitHub no longer returns it and it would otherwise look stale.
pub fn unarchive_row(r: &StoredNotification, now: i64) -> (out: StoredNotification)
    ensures
        out == unarchived_locally(*r, now),
{
    let mut out = r.duplicate();
    out.archived = false;
    out.locally_unarchived = true;
    out.local_write_epoch = Some(now);
    out
}

/// Full-sync reconciliation over all stored rows: archive every inbox row the
/// sync that started at `sync_started_at` did not touch, sparing locally
/// unarchived rows. Returns the rows to store and how many were archived.
pub fn archive_stale_rows(rows: &Vec<StoredNotification>, sync_started_at: i64) -> (r: (
    Vec<StoredNotification>,
    usize,
))
    ensures
        r.0@.len() == rows@.len(),
        forall|i: int|
            0 <= i < rows@.len() ==> #[trigger] r.0@[i] == after_reconciliation(
                rows@[i],
                sync_started_at,
            ),
        r.1 == stale_count(rows@, sync_started_at),
{
    let mut out: Vec<StoredNotification> = Vec::new();
    let mut count: usize = 0;
    let mut i: usize = 0;
    while i < rows.len()
        invariant
            0 <= i <= rows@.len(),
            out@.len() == i,
            forall|j: int|
                0 <= j < i ==> #[trigger] out@[j] == after_reconciliation(rows@[j], sync_started_at),
            count == stale_count(rows@.take(i as int), sync_started_at),
            count <= i,
        decreases rows@.len() - i,
    {
        let row = &rows[i];
        let stale = !row.archived && row.synced_at < sync_started_at && !row.locally_unarchived;
        let mut next = row.duplicate();
        if stale {
            next.archived = true;
            count = count + 1;
        }
        out.push(next);
        assert(rows@.take(i + 1).drop_last() =~= rows@.take(i as int));
        i = i + 1;
    }
    assert(rows@.take(rows@.len() as int) =~= rows@);
    (out, count)
}

/// A snapshot taken by a sync that started no later than a local read cannot
/// make the row unread again, and the local stamp survives it.
pub proof fn law_stale_snapshot_keeps_local_read(
    r: StoredNotification,
    now: i64,
    incoming: NotificationRow,
    synced_at: i64,
)
    requires
        synced_at <= now,
    ensures
        !upserted(Some(marked_read(r, now)), incoming, synced_at).0.unread,
        upserted(Some(marked_read(r, now)), incoming, synced_at).0.local_write_epoch == Some(now),
        upserted(Some(marked_read(r, now)), incoming, synced_at).0.archived == r.archived,
{
}

/// A snapshot taken by a sync that started no later than a local archive
/// cannot bring the row back to the inbox.
pub proof fn law_stale_snapshot_keeps_local_archive(
    r: StoredNotification,
    now: i64,
    incoming: NotificationRow,
    synced_at: i64,
)
    requires
        synced_at <= now,
    ensures
        upserted(Some(archived_locally(r, now)), incoming, synced_at).0.archived,
        upserted(Some(archived_locally(r, now)), incoming, synced_at).0.local_write_epoch == Some(
            now,
        ),
{
}

/// A snapshot taken by a sync that started no later than a local unarchive
/// keeps the row in the inbox and keeps its protection from reconciliation.
pub proof fn law_stale_snapshot_keeps_local_unarchive(
    r: StoredNotification,
    now: i64,
    incoming: NotificationRow,
    synced_at: i64,
)
    requires
        synced_at <= now,
    ensures
        !upserted(Some(unarchived_locally(r, now)), incoming, synced_at).0.archived,
        upserted(Some(unarchived_locally(r, now)), incoming, synced_at).0.locally_unarchived,
{
}

/// A sync that started after the last local write is the truth: it clears the
/// stamp and lifts unarchive protection, and when it brings news (and is not
/// about the user's own activity) its unread flag applies.
pub proof fn law_newer_sync_applies_and_clears_stamp(
    r: StoredNotification,
    incoming: NotificationRow,
    synced_at: i64,
)
    requires
        match r.local_write_epoch {
            Some(e) => e < synced_at,
            None => true,
        },
    ensures
        upserted(Some(r), incoming, synced_at).0.local_write_epoch == None::<i64>,
        !upserted(Some(r), incoming, synced_at).0.locally_unarchived,
        brings_news(flags_of(r), incoming) && !is_own_activity(incoming) ==> upserted(
            Some(r),
            incoming,
            synced_at,
        ).0.unread == incoming.unread,
{
}

/// The user's own activity never flips read or archived on a tracked row.
pub proof fn law_own_activity_never_flips_flags(
    r: StoredNotification,
    incoming: NotificationRow,
    synced_at: i64,
)
    requires
        is_own_activity(incoming),
    ensures
        upserted(Some(r), incoming, synced_at).0.unread == r.unread,
        upserted(Some(r), incoming, synced_at).0.archived == r.archived,
{
}

/// New activity (an unread snapshot that is neither stale nor about the
/// user's own activity) revives an archived row.
pub proof fn law_new_activity_revives_archived_row(
    r: StoredNotification,
    incoming: NotificationRow,
    synced_at: i64,
)
    requires
        incoming.unread,
        !is_own_activity(incoming),
        !is_stale_snapshot(flags_of(r), synced_at),
    ensures
        !upserted(Some(r), incoming, synced_at).0.archived,
        upserted(Some(r), incoming, synced_at).0.unread,
        r.archived ==> upserted(Some(r), incoming, synced_at).1,
{
}

/// Reading a thread elsewhere is not marking it done: a read snapshot never
/// brings an archived row back to the inbox.
pub proof fn law_read_snapshot_keeps_archived_row(
    r: StoredNotification,
    incoming: NotificationRow,
    synced_at: i64,
)
    requires
        r.archived,
        !incoming.unread,
    ensures
        upserted(Some(r), incoming, synced_at).0.archived,
{
}

/// A snapshot without news changes nothing but the sync bookkeeping, and is
/// not reported as a change.
pub proof fn law_unchanged_snapshot_only_stamps_bookkeeping(
    r: StoredNotification,
    incoming: NotificationRow,
    synced_at: i64,
)
    requires
        !brings_news(flags_of(r), incoming),
    ensures
        !upserted(Some(r), incoming, synced_at).1,
        upserted(Some(r), incoming, synced_at).0 == (StoredNotification {
            locally_unarchived: upserted(Some(r), incoming, synced_at).0.locally_unarchived,
            local_write_epoch: upserted(Some(r), incoming, synced_at).0.local_write_epoch,
            synced_at,
            ..r
        }),
{
}

/// Every upsert records the sync that returned the row, and first contact
/// always counts as a change that stores the snapshot's own flags.
pub proof fn law_upsert_records_sync(
    stored: Option<StoredNotification>,
    incoming: NotificationRow,
    synced_at: i64,
)
    ensures
        upserted(stored, incoming, synced_at).0.synced_at == synced_at,
        stored is None ==> upserted(stored, incoming, synced_at).1,
        stored is None ==> upserted(stored, incoming, synced_at).0.unread == incoming.unread,
        stored is None ==> upserted(stored, incoming, synced_at).0.archived == incoming.archived,
        stored is None ==> !upserted(stored, incoming, synced_at).0.locally_unarchived,
        stored is None ==> upserted(stored, incoming, synced_at).0.local_write_epoch
            == None::<i64>,
{
}

/// Applying the same snapshot twice within one sync is a no-op the second
/// time, as long as it was not stale, not about the user's own activity, and
/// (on first contact) not both unread and archived.
pub proof fn law_upsert_is_idempotent(
    stored: Option<StoredNotification>,
    incoming: NotificationRow,
    synced_at: i64,
)
    requires
        !is_own_activity(incoming),
        match stored {
            Some(r) => !is_stale_snapshot(flags_of(r), synced_at),
            None => !(incoming.archived && incoming.unread),
        },
    ensures
        ({
            let first = upserted(stored, incoming, synced_at).0;
            let second = upserted(Some(first), incoming, synced_at);
            !second.1 && second.0 == first
        }),
{
}

/// Full-sync reconciliation archives exactly the stale inbox rows; rows the
/// sync returned, archived rows and locally unarchived rows are untouched.
pub proof fn law_reconciliation_spares_returned_and_unarchived_rows(
    r: StoredNotification,
    sync_started_at: i64,
)
    ensures
        r.synced_at >= sync_started_at ==> after_reconciliation(r, sync_started_at) == r,
        r.locally_unarchived ==> after_reconciliation(r, sync_started_at) == r,
        r.archived ==> after_reconciliation(r, sync_started_at) == r,
        stale_for_reconciliation(r, sync_started_at) ==> after_reconciliation(
            r,
            sync_started_at,
        ).archived,
{
}

/// A row the user unarchived stays in the inbox through any later full-sync
/// reconciliation that does not return it.
pub proof fn law_unarchive_survives_reconciliation(
    r: StoredNotification,
    now: i64,
    sync_started_at: i64,
)
    ensures
        !after_reconciliation(unarchived_locally(r, now), sync_started_at).archived,
{
}

/// Two consecutive syncs over unchanged data: when the second sync (started
/// at any time `s2`) returns the same notification again, it reports no
/// change and leaves the row as the first sync stored it, but for the sync
/// bookkeeping. The second snapshot may differ from the first in its
/// `archived` flag, which only shapes first contact (a full sync followed by
/// an incremental one). It holds unless the first sync's snapshot was stale,
/// and, for the user's own activity on a tracked row, unless the stored
/// read state differs from the snapshot's or an archived row is reported
/// unread.
pub proof fn law_second_sync_over_unchanged_data_changes_nothing(
    stored: Option<StoredNotification>,
    incoming: NotificationRow,
    s1: i64,
    again: NotificationRow,
    s2: i64,
)
    requires
        again == (NotificationRow { archived: again.archived, ..incoming }),
        match stored {
            Some(r) => {
                &&& !is_stale_snapshot(flags_of(r), s1)
                &&& is_own_activity(incoming) ==> r.unread == incoming.unread && !(r.archived
                    && incoming.unread)
            },
            None => !(incoming.archived && incoming.unread),
        },
    ensures
        ({
            let first = upserted(stored, incoming, s1).0;
            let second = upserted(Some(first), again, s2);
            &&& !second.1
            &&& second.0 == (StoredNotification { synced_at: s2, ..first })
        }),
{
}

/// Reading (or unreading) a thread on GitHub reaches the inbox: when a sync
/// that started after the last local write reports a tracked thread with the
/// other read state, and it is not about the user's own activity, the upsert
/// counts as a change and the row takes the snapshot's read state, even when
/// the thread's `updated_at` did not move.
pub proof fn law_read_state_from_github_applies(r: StoredNotification, inc: NotificationRow, s: i64)
    requires
        match r.local_write_epoch {
            Some(e) => e < s,
            None => true,
        },
        inc.reason@ != "your_activity"@,
        r.unread != inc.unread,
    ensures
        upserted(Some(r), inc, s).1,
        upserted(Some(r), inc, s).0.unread == inc.unread,
        upserted(Some(r), inc, s).0.archived == (r.archived && !inc.unread),
{
}

/// New activity on a tracked thread (a later `updated_at`), reported by a
/// sync that started after the last local write and not about the user's
/// own activity, is a change: the row takes the snapshot's metadata and read
/// state, and an unread snapshot moves it back to the inbox.
pub proof fn law_updated_thread_takes_snapshot(r: StoredNotification, inc: NotificationRow, s: i64)
    requires
        match r.local_write_epoch {
            Some(e) => e < s,
            None => true,
        },
        inc.reason@ != "your_activity"@,
        r.updated_at@ != inc.updated_at@,
    ensures
        ({
            let (row, changed) = upserted(Some(r), inc, s);
            &&& changed
            &&& row.id == r.id
            &&& row.title == inc.title
            &&& row.reason == inc.reason
            &&& row.updated_at == inc.updated_at
            &&& row.pr_id == inc.pr_id
            &&& row.unread == inc.unread
            &&& row.archived == (r.archived && !inc.unread)
            &&& row.synced_at == s
            &&& row.local_write_epoch == None::<i64>
            &&& !row.locally_unarchived
        }),
{
}

/// A snapshot that matches the stored row (same `updated_at`, same read
/// state, and not an unread report of an archived row) is not a change: the
/// row keeps its content and flags.
pub proof fn law_matching_snapshot_is_no_change(r: StoredNotification, inc: NotificationRow, s: i64)
    requires
        r.updated_at@ == inc.updated_at@,
        r.unread == inc.unread,
        !(r.archived && inc.unread),
    ensures
        !upserted(Some(r), inc, s).1,
        upserted(Some(r), inc, s).0.unread == r.unread,
        upserted(Some(r), inc, s).0.archived == r.archived,
        upserted(Some(r), inc, s).0.title == r.title,
        upserted(Some(r), inc, s).0.updated_at == r.updated_at,
{
}

/// Full-sync reconciliation archives every inbox row that the sync did not
/// return (last synced before it started) and that was not unarchived
/// locally, whatever its read state, and changes nothing else.
pub proof fn law_reconciliation_archives_unreturned_rows(r: StoredNotification, s: i64)
    ensures
        after_reconciliation(r, s).archived == (r.archived || (r.synced_at < s
            && !r.locally_unarchived)),
        after_reconciliation(r, s) == (StoredNotification {
            archived: after_reconciliation(r, s).archived,
            ..r
        }),
{
}

/// The number reconciliation reports is the number of inbox rows the sync did
/// not return and that were not unarchived locally.
pub proof fn law_reconciliation_count(rows: Seq<StoredNotification>, s: i64)
    ensures
        stale_count(rows, s) == rows.filter(
            |r: StoredNotification| !r.archived && r.synced_at < s && !r.locally_unarchived,
        ).len(),
    decreases rows.len(),
{
    reveal(Seq::filter);
    if rows.len() > 0 {
        law_reconciliation_count(rows.drop_last(), s);
    }
}

} // verus!
