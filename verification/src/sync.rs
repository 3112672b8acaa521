//! The notification sync: which kind of sync to run, how a GitHub
//! notification is shaped for storage, what each sync tick announces, and
//! which changed pull requests in the viewport to refetch.
use vstd::prelude::*;
use vstd::string::StringExecFns;

use crate::models::{
    Notification, PrInfoUpdatedData, PrNewComment, ReviewSummary, SyncEvent, SyncStatusKind,
};
use crate::notifications::NotificationRow;
use crate::pr_status::{derive_pr_status_from_row, pr_status_of};
use crate::rows::PullRequestRow;
use crate::text::{chars_of, parse_i64, parsed_i64, split_on, split_once, split_once_at, split_ranges, str_equals, string_from_range};

verus! {

/// A full sync runs when the last one is older than this (two hours).
pub const FULL_SYNC_THRESHOLD_SECS: i64 = 7200;

/// Clock-skew tolerance subtracted from the incremental `since` cursor.
pub const SINCE_OVERLAP_SECS: i64 = 60;

/// A notification that changed during a sync.
pub struct ChangedNotification {
    pub repository: String,
    pub pr_id: Option<i64>,
}

/// The result of a sync.
pub struct SyncResult {
    /// Notifications that were new or updated.
    pub changed: Vec<ChangedNotification>,
    /// Number of notifications archived by full-sync reconciliation.
    pub reconciled: usize,
}

/// Which sync to run.
pub struct SyncPlan {
    /// Fetch every page and archive what GitHub no longer returns.
    pub full: bool,
    /// For an incremental sync, the epoch of its `since` cursor.
    pub since_epoch: Option<i64>,
}

/// The sync to run given when the last one started: full on the first run or
/// when the last one is over two hours old, else incremental from the last
/// start minus a clock-skew margin.
pub fn plan_sync(last_fetched: Option<i64>, now: i64) -> (r: SyncPlan)
    requires
        match last_fetched {
            Some(t) => i64::MIN <= now - t <= i64::MAX && i64::MIN <= t - SINCE_OVERLAP_SECS,
            None => true,
        },
    ensures
        r.full == match last_fetched {
            Some(t) => now - t > FULL_SYNC_THRESHOLD_SECS,
            None => true,
        },
        r.full ==> r.since_epoch is None,
        !r.full ==> r.since_epoch == Some((last_fetched->0 - SINCE_OVERLAP_SECS) as i64),
{
    match last_fetched {
        Some(t) => {
            if now - t > FULL_SYNC_THRESHOLD_SECS {
                SyncPlan { full: true, since_epoch: None }
            } else {
                SyncPlan { full: false, since_epoch: Some(t - SINCE_OVERLAP_SECS) }
            }
        },
        None => SyncPlan { full: true, since_epoch: None },
    }
}

/// The timestamp chrono formats for `epoch` seconds (UTC) with the strftime
/// format `fmt`; None when `epoch` is out of chrono's range.
pub uninterp spec fn formatted_utc(epoch: i64, fmt: Seq<char>) -> Option<Seq<char>>;

/// The one strftime format the crate formats with: ISO 8601 in UTC.
pub open spec fn iso_utc_format() -> Seq<char> {
    "%Y-%m-%dT%H:%M:%SZ"@
}

/// `chrono::DateTime::from_timestamp(epoch, 0)` formatted with `fmt`. The
/// contract names the result; it does not state the calendar arithmetic.
/// `fmt` is the ISO format: a format chrono cannot render (an unknown
/// specifier, a trailing `%`) makes `to_string` panic.
#[verifier::external_body]
fn format_utc(epoch: i64, fmt: &str) -> (r: Option<String>)
    requires
        fmt@ == iso_utc_format(),
    ensures
        match formatted_utc(epoch, fmt@) {
            Some(s) => r is Some && r->0@ == s,
            None => r is None,
        },
{
    match chrono::DateTime::from_timestamp(epoch, 0) {
        Some(dt) => Some(dt.format(fmt).to_string()),
        None => None,
    }
}

/// The ISO 8601 UTC form (`%Y-%m-%dT%H:%M:%SZ`) of an epoch, for the
/// `since` parameter; None when out of range.
pub fn epoch_to_iso(epoch: i64) -> (r: Option<String>)
    ensures
        match formatted_utc(epoch, "%Y-%m-%dT%H:%M:%SZ"@) {
            Some(s) => r is Some && r->0@ == s,
            None => r is None,
        },
{
    format_utc(epoch, "%Y-%m-%dT%H:%M:%SZ")
}

/// The pull request number of a notification: only pull request subjects
/// carry one, as the last path segment of their API URL.
pub open spec fn pr_number_of_spec(n: Notification) -> Option<i64> {
    if n.subject.subject_type@ == "PullRequest"@ {
        match n.subject.url {
            Some(u) => parsed_i64(split_on(u@, '/').last()),
            None => None,
        }
    } else {
        None
    }
}

/// The pull request number of a notification, if it is about one. An issue
/// URL like `.../issues/431` is not mistaken for pull request 431.
pub fn pr_number_of(n: &Notification) -> (r: Option<i64>)
    ensures
        r == pr_number_of_spec(*n),
{
    if !str_equals(n.subject.subject_type.as_str(), "PullRequest") {
        return None;
    }
    match &n.subject.url {
        Some(url) => {
            let v = chars_of(url.as_str());
            let pieces = split_ranges(&v, 0, v.len(), '/');
            assert(v@.subrange(0, v@.len() as int) =~= url@);
            let (a, b) = pieces[pieces.len() - 1];
            let last = string_from_range(&v, a, b);
            parse_i64(last.as_str())
        },
        None => None,
    }
}

/// Shape a GitHub notification for storage. The user's own activity is never
/// unread. On a full sync (a cold start), a thread GitHub already reports as
/// read starts archived on first contact: it was handled outside the inbox,
/// and new activity revives it later. On an incremental sync a first-seen
/// read thread arrives in the inbox, read. (The archived flag only matters
/// on first contact; tracked rows keep their own.)
pub fn notification_row(n: &Notification, full: bool) -> (r: NotificationRow)
    ensures
        r.id == n.id,
        r.pr_id == pr_number_of_spec(*n),
        r.title == n.subject.title,
        r.repository == n.repository.full_name,
        r.reason == n.reason,
        r.unread == (n.unread && n.reason@ != "your_activity"@),
        r.archived == (full && !n.unread),
        r.updated_at == n.updated_at,
{
    NotificationRow {
        id: n.id.clone(),
        pr_id: pr_number_of(n),
        title: n.subject.title.clone(),
        repository: n.repository.full_name.clone(),
        reason: n.reason.clone(),
        unread: n.unread && !str_equals(n.reason.as_str(), "your_activity"),
        archived: full && !n.unread,
        updated_at: n.updated_at.clone(),
    }
}

/// Full-sync reconciliation runs only after a full sync that returned
/// notifications: an unexpected empty response must not archive everything.
pub fn should_reconcile(full: bool, fetched: usize) -> (r: bool)
    ensures
        r == (full && fetched > 0),
{
    full && fetched > 0
}

/// The number of inbox changes a sync made.
pub fn inbox_change_count(result: &SyncResult) -> (r: usize)
    requires
        result.changed@.len() + result.reconciled <= usize::MAX,
    ensures
        r == result.changed@.len() + result.reconciled,
{
    result.changed.len() + result.reconciled
}

/// How a sync tick ended.
pub enum TickOutcome {
    Synced { changes: usize },
    Failed { message: String },
}

/// What a tick announces after the sync ran: an optional change count, then
/// whether to refetch viewport pull requests, then the final status.
pub struct TickAnnouncements {
    pub changes: Option<SyncEvent>,
    pub fetch_viewport: bool,
    pub status: SyncEvent,
}

/// The events of one sync tick after `Started`: on success, a change count
/// (and a viewport refetch) when anything changed, then `Completed`; on
/// failure, `Errored` with the error.
pub fn tick_announcements(outcome: TickOutcome) -> (r: TickAnnouncements)
    ensures
        match outcome {
            TickOutcome::Synced { changes } => {
                &&& (changes > 0 ==> r.changes == Some(SyncEvent::NewNotifications { count: changes }))
                &&& (changes == 0 ==> r.changes is None)
                &&& r.fetch_viewport == (changes > 0)
                &&& r.status == SyncEvent::SyncStatus { status: SyncStatusKind::Completed }
            },
            TickOutcome::Failed { message } => {
                &&& r.changes is None
                &&& !r.fetch_viewport
                &&& r.status == SyncEvent::SyncStatus {
                    status: SyncStatusKind::Errored { message },
                }
            },
        },
{
    match outcome {
        TickOutcome::Synced { changes } => TickAnnouncements {
            changes: if changes > 0 {
                Some(SyncEvent::NewNotifications { count: changes })
            } else {
                None
            },
            fetch_viewport: changes > 0,
            status: SyncEvent::SyncStatus { status: SyncStatusKind::Completed },
        },
        TickOutcome::Failed { message } => TickAnnouncements {
            changes: None,
            fetch_viewport: false,
            status: SyncEvent::SyncStatus { status: SyncStatusKind::Errored { message } },
        },
    }
}

/// A changed pull request in the viewport to refetch.
pub struct ViewportTarget {
    pub repository: String,
    pub owner: String,
    pub repo: String,
    pub pr_id: i64,
}

/// `(repository, pr)` is in the viewport.
pub open spec fn in_viewport(viewport: Seq<(String, i64)>, repository: Seq<char>, pr: i64) -> bool {
    exists|i: int| 0 <= i < viewport.len() && (#[trigger] viewport[i]).0@ == repository && viewport[i].1 == pr
}

/// A changed notification whose pull request is in the viewport and whose
/// repository names an owner and a repository.
pub open spec fn refetch_wanted(c: ChangedNotification, viewport: Seq<(String, i64)>) -> bool {
    &&& c.pr_id is Some
    &&& in_viewport(viewport, c.repository@, c.pr_id->0)
    &&& split_once(c.repository@, '/') is Some
}

/// The changed notifications to refetch, in order.
pub open spec fn wanted_changes(changed: Seq<ChangedNotification>, viewport: Seq<(String, i64)>) -> Seq<ChangedNotification>
    decreases changed.len(),
{
    if changed.len() == 0 {
        Seq::empty()
    } else if refetch_wanted(changed.last(), viewport) {
        wanted_changes(changed.drop_last(), viewport).push(changed.last())
    } else {
        wanted_changes(changed.drop_last(), viewport)
    }
}

fn viewport_contains(viewport: &Vec<(String, i64)>, repository: &String, pr: i64) -> (r: bool)
    ensures
        r == in_viewport(viewport@, repository@, pr),
{
    let mut i: usize = 0;
    while i < viewport.len()
        invariant
            0 <= i <= viewport@.len(),
            forall|j: int| 0 <= j < i ==> !((#[trigger] viewport@[j]).0@ == repository@ && viewport@[j].1 == pr),
        decreases viewport@.len() - i,
    {
        let (r, p) = &viewport[i];
        if *r == *repository && *p == pr {
            assert(viewport@[i as int].0@ == repository@);
            return true;
        }
        i = i + 1;
    }
    false
}

/// The pull requests to refetch after a sync: changed notifications with a
/// pull request that is currently in the viewport, split into owner and
/// repository name.
pub fn viewport_fetch_targets(changed: &Vec<ChangedNotification>, viewport: &Vec<(String, i64)>) -> (r: Vec<ViewportTarget>)
    ensures
        r@.len() == wanted_changes(changed@, viewport@).len(),
        forall|k: int|
            0 <= k < r@.len() ==> {
                let c = wanted_changes(changed@, viewport@)[k];
                &&& (#[trigger] r@[k]).repository == c.repository
                &&& r@[k].pr_id == c.pr_id->0
                &&& split_once(c.repository@, '/') == Some((r@[k].owner@, r@[k].repo@))
            },
{
    let mut out: Vec<ViewportTarget> = Vec::new();
    let mut i: usize = 0;
    while i < changed.len()
        invariant
            0 <= i <= changed@.len(),
            out@.len() == wanted_changes(changed@.take(i as int), viewport@).len(),
            forall|k: int|
                0 <= k < out@.len() ==> {
                    let c = wanted_changes(changed@.take(i as int), viewport@)[k];
                    &&& (#[trigger] out@[k]).repository == c.repository
                    &&& out@[k].pr_id == c.pr_id->0
                    &&& split_once(c.repository@, '/') == Some((out@[k].owner@, out@[k].repo@))
                },
        decreases changed@.len() - i,
    {
        assert(changed@.take(i + 1).drop_last() =~= changed@.take(i as int));
        assert(changed@.take(i + 1).last() == changed@[i as int]);
        let c = &changed[i];
        match c.pr_id {
            Some(pr) => {
                if viewport_contains(viewport, &c.repository, pr) {
                    match split_once_at(c.repository.as_str(), '/') {
                        Some((owner, repo)) => {
                            out.push(ViewportTarget { repository: c.repository.clone(), owner, repo, pr_id: pr });
                        },
                        None => {},
                    }
                }
            },
            None => {},
        }
        i = i + 1;
    }
    assert(changed@.take(changed@.len() as int) =~= changed@);
    out
}

/// Fresh pull request information for an inbox row, from its cached row and
/// the activity since the user's last visit.
pub fn pr_info_for_row(
    pr_row: &PullRequestRow,
    repository: &str,
    pr_id: i64,
    new_commits: Option<i64>,
    new_comments: Option<Vec<PrNewComment>>,
    new_reviews: Option<Vec<ReviewSummary>>,
    teams: Option<Vec<String>>,
) -> (r: PrInfoUpdatedData)
    ensures
        r.pr_id == pr_id,
        r.repository@ == repository@,
        r.author == pr_row.author,
        r.pr_status == pr_status_of(pr_row.merged_at is Some, pr_row.state@ == "closed"@, pr_row.draft),
        r.ci_status == pr_row.ci_status,
        r.new_commits == new_commits,
        r.new_comments == new_comments,
        r.new_reviews == new_reviews,
        r.teams == teams,
{
    PrInfoUpdatedData {
        pr_id,
        repository: String::from_str(repository),
        author: pr_row.author.clone(),
        pr_status: derive_pr_status_from_row(pr_row),
        ci_status: match &pr_row.ci_status {
            Some(c) => Some(c.clone()),
            None => None,
        },
        new_commits,
        new_comments,
        new_reviews,
        teams,
    }
}

/// The pull requests refetched after a sync are exactly the changed
/// notifications, in order, that name a pull request which is in the
/// viewport under the same repository, when the repository has an owner
/// part.
pub proof fn law_refetch_only_changed_viewport_prs(
    changed: Seq<ChangedNotification>,
    viewport: Seq<(String, i64)>,
)
    ensures
        wanted_changes(changed, viewport) == changed.filter(
            |c: ChangedNotification|
                c.pr_id is Some && (exists|i: int|
                    0 <= i < viewport.len() && (#[trigger] viewport[i]).0@ == c.repository@
                        && viewport[i].1 == c.pr_id->0) && (exists|j: int|
                    0 <= j < c.repository@.len() && #[trigger] c.repository@[j] == '/'),
        ),
    decreases changed.len(),
{
    reveal(Seq::filter);
    if changed.len() > 0 {
        law_refetch_only_changed_viewport_prs(changed.drop_last(), viewport);
    }
}

} // verus!
