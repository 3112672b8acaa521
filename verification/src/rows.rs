//! Rows of the local cache database.
use vstd::prelude::*;

verus! {

/// A cached pull request.
#[derive(Debug, Clone)]
pub struct PullRequestRow {
    pub id: i64,
    pub title: String,
    pub repo: String,
    pub author: String,
    pub author_avatar_url: Option<String>,
    pub url: String,
    pub ci_status: Option<String>,
    pub last_viewed_at: Option<String>,
    pub body: String,
    /// `body` rendered to sanitized HTML at cache time.
    pub body_html: String,
    pub state: String,
    pub head_sha: String,
    pub additions: i64,
    pub deletions: i64,
    pub changed_files: i64,
    pub draft: bool,
    pub merged_at: Option<String>,
    /// JSON array of matched team slugs; None until the team fetch ran.
    pub teams: Option<String>,
    /// JSON array of labels.
    pub labels: String,
}

/// A cached comment (conversation or inline review comment).
#[derive(Debug, Clone)]
pub struct CommentRow {
    pub id: i64,
    pub pr_id: i64,
    pub thread_id: Option<String>,
    pub author: String,
    pub author_avatar_url: Option<String>,
    pub body: String,
    pub created_at: String,
    pub comment_type: String,
    pub path: Option<String>,
    pub position: Option<i64>,
    pub in_reply_to_id: Option<i64>,
    pub html_url: Option<String>,
    pub diff_hunk: Option<String>,
    pub resolved: bool,
}

/// A cached commit.
#[derive(Debug, Clone)]
pub struct CommitRow {
    pub sha: String,
    pub repo: String,
    pub pr_id: i64,
    pub message: String,
    pub author: String,
    pub committed_at: String,
}

/// A cached check run.
#[derive(Debug, Clone)]
pub struct CheckRunRow {
    pub id: i64,
    pub repo: String,
    pub pr_id: i64,
    pub name: String,
    pub status: String,
    pub conclusion: Option<String>,
}

/// A cached review.
#[derive(Debug, Clone)]
pub struct ReviewRow {
    pub id: i64,
    pub pr_id: i64,
    pub reviewer: String,
    pub state: String,
    pub body: String,
    pub submitted_at: String,
    pub html_url: String,
}

/// An inbox row: a notification joined with its pull request.
#[derive(Debug, Clone)]
pub struct InboxItem {
    pub id: String,
    pub pr_id: Option<i64>,
    pub title: String,
    pub repository: String,
    pub reason: String,
    pub unread: bool,
    pub archived: bool,
    pub updated_at: String,
    pub author: Option<String>,
    pub author_avatar_url: Option<String>,
    pub pr_status: Option<String>,
    pub ci_status: Option<String>,
    /// None: team fetch not attempted yet.
    pub teams: Option<Vec<String>>,
}

/// Filters for inbox queries; all of them must hold.
#[derive(Debug, Clone)]
pub struct FilterParams {
    pub repo: Option<String>,
    pub team: Option<String>,
    pub author: Option<String>,
    /// Show only pull requests with one of these statuses (empty: no filter).
    pub state_include: Vec<String>,
    /// Hide pull requests with one of these statuses.
    pub state_exclude: Vec<String>,
}

fn clone_opt_string(s: &Option<String>) -> (r: Option<String>)
    ensures
        r == *s,
{
    match s {
        Some(v) => Some(v.clone()),
        None => None,
    }
}

impl CommentRow {
    /// A copy of this row.
    pub fn duplicate(&self) -> (r: CommentRow)
        ensures
            r == *self,
    {
        CommentRow {
            id: self.id,
            pr_id: self.pr_id,
            thread_id: clone_opt_string(&self.thread_id),
            author: self.author.clone(),
            author_avatar_url: clone_opt_string(&self.author_avatar_url),
            body: self.body.clone(),
            created_at: self.created_at.clone(),
            comment_type: self.comment_type.clone(),
            path: clone_opt_string(&self.path),
            position: self.position,
            in_reply_to_id: self.in_reply_to_id,
            html_url: clone_opt_string(&self.html_url),
            diff_hunk: clone_opt_string(&self.diff_hunk),
            resolved: self.resolved,
        }
    }
}

} // verus!
