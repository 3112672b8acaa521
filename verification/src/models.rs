//! GitHub API models and the events the sync loop broadcasts.
use vstd::prelude::*;

verus! {

/// A GitHub notification, as the REST API returns it.
#[derive(Debug, Clone)]
pub struct Notification {
    pub id: String,
    pub reason: String,
    pub unread: bool,
    pub updated_at: String,
    pub subject: Subject,
    pub repository: Repository,
}

/// What a notification is about.
#[derive(Debug, Clone)]
pub struct Subject {
    pub title: String,
    pub url: Option<String>,
    pub subject_type: String,
}

/// The repository of a notification.
#[derive(Debug, Clone)]
pub struct Repository {
    pub full_name: String,
}

/// A GitHub pull request.
#[derive(Debug, Clone)]
pub struct GithubPullRequest {
    pub number: i64,
    pub title: String,
    pub body: Option<String>,
    pub state: String,
    pub user: GithubUser,
    pub html_url: String,
    pub head: GithubHead,
    pub draft: bool,
    pub merged_at: Option<String>,
    pub additions: Option<i64>,
    pub deletions: Option<i64>,
    pub changed_files: Option<i64>,
    pub labels: Vec<GithubLabel>,
}

/// A GitHub account.
#[derive(Debug, Clone)]
pub struct GithubUser {
    pub login: String,
}

/// The head commit of a pull request.
#[derive(Debug, Clone)]
pub struct GithubHead {
    pub sha: String,
}

/// A label on a pull request.
#[derive(Debug, Clone)]
pub struct GithubLabel {
    pub name: String,
    pub color: String,
}

/// A top-level pull request conversation comment.
#[derive(Debug, Clone)]
pub struct GithubIssueComment {
    pub id: i64,
    pub user: GithubUser,
    pub body: String,
    pub created_at: String,
    pub html_url: String,
}

/// An inline review comment on code.
#[derive(Debug, Clone)]
pub struct GithubReviewComment {
    pub id: i64,
    pub user: GithubUser,
    pub body: String,
    pub created_at: String,
    pub path: String,
    pub position: Option<i64>,
    pub in_reply_to_id: Option<i64>,
    pub pull_request_review_id: Option<i64>,
    pub html_url: String,
    pub diff_hunk: Option<String>,
}

/// A CI check run.
#[derive(Debug, Clone)]
pub struct GithubCheckRun {
    pub id: i64,
    pub name: String,
    pub status: String,
    pub conclusion: Option<String>,
}

/// The check runs of a commit.
#[derive(Debug, Clone)]
pub struct GithubCheckRunList {
    pub total_count: i64,
    pub check_runs: Vec<GithubCheckRun>,
}

/// A commit of a pull request.
#[derive(Debug, Clone)]
pub struct GithubCommit {
    pub sha: String,
    pub commit: GithubCommitDetail,
}

/// The message and author of a commit.
#[derive(Debug, Clone)]
pub struct GithubCommitDetail {
    pub message: String,
    pub author: GithubCommitAuthor,
}

/// The author of a commit.
#[derive(Debug, Clone)]
pub struct GithubCommitAuthor {
    pub name: String,
    pub date: String,
}

/// A submitted pull request review.
#[derive(Debug, Clone)]
pub struct GithubReview {
    pub id: i64,
    pub user: GithubUser,
    pub state: String,
    pub body: String,
    pub submitted_at: String,
    pub html_url: String,
}

/// The four statuses a pull request is shown with.
#[derive(Debug, Clone, Copy, PartialEq, Eq, Structural)]
pub enum PrStatus {
    Open,
    Draft,
    Merged,
    Closed,
}

/// The state of the background sync, as broadcast to clients.
#[derive(Debug, Clone)]
pub enum SyncStatusKind {
    Started,
    Completed,
    Errored { message: String },
}

/// Number of inbox changes found by a sync.
#[derive(Debug, Clone)]
pub struct NewNotificationsData {
    pub count: usize,
}

/// Payload of a sync status event.
#[derive(Debug, Clone)]
pub struct SyncStatusData {
    pub status: SyncStatusKind,
}

/// The user's teams that a pull request requested review from.
#[derive(Debug, Clone)]
pub struct PrTeamsUpdatedData {
    pub pr_id: i64,
    pub teams: Vec<String>,
}

/// Number of new comments by one author.
#[derive(Debug, Clone)]
pub struct PrNewComment {
    pub author: String,
    pub count: i64,
}

/// A review submitted since the user last viewed the pull request.
#[derive(Debug, Clone)]
pub struct ReviewSummary {
    pub reviewer: String,
    pub state: String,
}

/// Fresh pull request information for one inbox row.
#[derive(Debug, Clone)]
pub struct PrInfoUpdatedData {
    pub pr_id: i64,
    pub repository: String,
    pub author: String,
    pub pr_status: PrStatus,
    pub ci_status: Option<String>,
    /// None: never viewed; Some(n): n new commits since the last visit.
    pub new_commits: Option<i64>,
    /// None: never viewed; Some([]): no new comments.
    pub new_comments: Option<Vec<PrNewComment>>,
    /// None: never viewed; Some([]): no new reviews.
    pub new_reviews: Option<Vec<ReviewSummary>>,
    pub teams: Option<Vec<String>>,
}

/// Pushing a local change to GitHub failed.
#[derive(Debug, Clone)]
pub struct GithubSyncErrorData {
    pub notification_id: String,
    pub message: String,
}

/// Events broadcast from the sync loop to clients.
#[derive(Debug, Clone)]
pub enum SyncEvent {
    NewNotifications { count: usize },
    SyncStatus { status: SyncStatusKind },
    PrTeamsUpdated(PrTeamsUpdatedData),
    PrInfoUpdated(PrInfoUpdatedData),
    GithubSyncError(GithubSyncErrorData),
}

} // verus!
