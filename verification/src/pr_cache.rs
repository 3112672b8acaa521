//! Caching a pull request fetched over GraphQL: when a refetch is due, and
//! the rows that the cache stores for it.
use std::collections::HashMap;
use vstd::prelude::*;
use vstd::string::StringExecFns;

use crate::graphql::GraphqlPrData;
use crate::markdown::{render_markdown, rendered_markdown};
use crate::models::{
    GithubCheckRun, GithubCommit, GithubIssueComment, GithubPullRequest, GithubReview,
    GithubReviewComment, PrStatus,
};
use crate::pr_status::{ci_status_of, derive_ci_status, derive_pr_status, pr_status_of};
use crate::rows::{CheckRunRow, CommentRow, CommitRow, PullRequestRow, ReviewRow};
use crate::text::{decimal, first_line, first_line_of, i64_to_string};

verus! {

/// Minimum seconds between full fetches of a pull request for the detail view.
pub const FETCH_THROTTLE_SECS: i64 = 60;

/// Summary returned after a successful fetch.
pub struct PrFetchResult {
    pub author: String,
    pub pr_status: PrStatus,
}

/// The key under which the last fetch of a pull request is recorded.
pub open spec fn pr_resource_key_of(full_repo: Seq<char>, number: i64) -> Seq<char> {
    "pr:"@ + full_repo + "#"@ + decimal(number as int)
}

/// The key under which the last fetch of a pull request is recorded:
/// `pr:{owner}/{repo}#{number}`.
pub fn pr_resource_key(full_repo: &str, number: i64) -> (r: String)
    ensures
        r@ == pr_resource_key_of(full_repo@, number),
{
    let n = i64_to_string(number);
    String::from_str("pr:").concat(full_repo).concat("#").concat(n.as_str())
}

/// A fetch is due when none was recorded, or the last one is at least
/// `FETCH_THROTTLE_SECS` old.
pub fn pr_fetch_due(last_fetched: Option<i64>, now: i64) -> (r: bool)
    requires
        match last_fetched {
            Some(t) => i64::MIN <= now - t <= i64::MAX,
            None => true,
        },
    ensures
        r == match last_fetched {
            Some(t) => now - t >= FETCH_THROTTLE_SECS,
            None => true,
        },
{
    match last_fetched {
        Some(last) => now - last >= FETCH_THROTTLE_SECS,
        None => true,
    }
}

/// The author and status of a freshly fetched pull request.
pub fn fetch_result_of(pr: &GithubPullRequest) -> (r: PrFetchResult)
    ensures
        r.author == pr.user.login,
        r.pr_status == pr_status_of(pr.merged_at is Some, pr.state@ == "closed"@, pr.draft),
{
    let merged = match &pr.merged_at {
        Some(m) => Some(m.as_str()),
        None => None,
    };
    PrFetchResult {
        author: pr.user.login.clone(),
        pr_status: derive_pr_status(merged, pr.state.as_str(), pr.draft),
    }
}

/// Everything the cache writes for one fetched pull request.
pub struct PrCachePlan {
    pub pull_request: PullRequestRow,
    /// Conversation comments, then inline review comments.
    pub comments: Vec<CommentRow>,
    pub commits: Vec<CommitRow>,
    pub check_runs: Vec<CheckRunRow>,
    pub reviews: Vec<ReviewRow>,
    /// The overall CI status, written when there are check runs.
    pub ci_status: Option<String>,
}

/// An optional string, empty when absent.
pub open spec fn text_or_empty(s: Option<String>) -> Seq<char> {
    match s {
        Some(s) => s@,
        None => Seq::empty(),
    }
}

/// The cached row of a pull request.
pub open spec fn pr_row_of(
    pr: GithubPullRequest,
    full_repo: Seq<char>,
    labels_json: Seq<char>,
    body_commonmark_html: Seq<char>,
    row: PullRequestRow,
) -> bool {
    &&& row.id == pr.number
    &&& row.title == pr.title
    &&& row.repo@ == full_repo
    &&& row.author == pr.user.login
    &&& row.author_avatar_url is None
    &&& row.url == pr.html_url
    &&& row.ci_status is None
    &&& row.last_viewed_at is None
    &&& row.body@ == text_or_empty(pr.body)
    &&& row.body_html@ == rendered_markdown(text_or_empty(pr.body), body_commonmark_html)
    &&& row.state == pr.state
    &&& row.head_sha == pr.head.sha
    &&& row.additions == (match pr.additions {
        Some(n) => n,
        None => 0,
    })
    &&& row.deletions == (match pr.deletions {
        Some(n) => n,
        None => 0,
    })
    &&& row.changed_files == (match pr.changed_files {
        Some(n) => n,
        None => 0,
    })
    &&& row.draft == pr.draft
    &&& row.merged_at == pr.merged_at
    &&& row.teams is None
    &&& row.labels@ == labels_json
}

/// The cached row of a conversation comment: all of them form one thread.
pub open spec fn issue_comment_row_of(c: GithubIssueComment, number: i64, row: CommentRow) -> bool {
    &&& row.id == c.id
    &&& row.pr_id == number
    &&& row.thread_id is Some && row.thread_id->0@ == "conversation"@
    &&& row.author == c.user.login
    &&& row.author_avatar_url is None
    &&& row.body == c.body
    &&& row.created_at == c.created_at
    &&& row.comment_type@ == "issue_comment"@
    &&& row.path is None
    &&& row.position is None
    &&& row.in_reply_to_id is None
    &&& row.html_url == Some(c.html_url)
    &&& row.diff_hunk is None
    &&& !row.resolved
}

/// The thread a review comment belongs to: its parent's id for replies,
/// its own id for thread roots.
pub open spec fn review_thread_id(c: GithubReviewComment) -> Seq<char> {
    "review:"@ + decimal(
        match c.in_reply_to_id {
            Some(p) => p as int,
            None => c.id as int,
        },
    )
}

/// Whether the thread of a review comment is resolved: looked up under the
/// comment's own id, then under its parent's id; unresolved when unknown.
pub open spec fn thread_resolved(states: Map<i64, bool>, c: GithubReviewComment) -> bool {
    if states.contains_key(c.id) {
        states[c.id]
    } else {
        match c.in_reply_to_id {
            Some(p) => states.contains_key(p) && states[p],
            None => false,
        }
    }
}

/// The cached row of an inline review comment.
pub open spec fn review_comment_row_of(
    c: GithubReviewComment,
    number: i64,
    states: Map<i64, bool>,
    row: CommentRow,
) -> bool {
    &&& row.id == c.id
    &&& row.pr_id == number
    &&& row.thread_id is Some && row.thread_id->0@ == review_thread_id(c)
    &&& row.author == c.user.login
    &&& row.author_avatar_url is None
    &&& row.body == c.body
    &&& row.created_at == c.created_at
    &&& row.comment_type@ == "review_comment"@
    &&& row.path == Some(c.path)
    &&& row.position == c.position
    &&& row.in_reply_to_id == c.in_reply_to_id
    &&& row.html_url == Some(c.html_url)
    &&& row.diff_hunk == c.diff_hunk
    &&& row.resolved == thread_resolved(states, c)
}

/// The cached row of a commit: only the first line of its message is kept.
pub open spec fn commit_row_of(c: GithubCommit, full_repo: Seq<char>, number: i64, row: CommitRow) -> bool {
    &&& row.sha == c.sha
    &&& row.repo@ == full_repo
    &&& row.pr_id == number
    &&& row.message@ == first_line(c.commit.message@)
    &&& row.author == c.commit.author.name
    &&& row.committed_at == c.commit.author.date
}

/// The cached row of a check run.
pub open spec fn check_run_row_of(
    c: GithubCheckRun,
    full_repo: Seq<char>,
    number: i64,
    row: CheckRunRow,
) -> bool {
    &&& row.id == c.id
    &&& row.repo@ == full_repo
    &&& row.pr_id == number
    &&& row.name == c.name
    &&& row.status == c.status
    &&& row.conclusion == c.conclusion
}

/// The cached row of a review.
pub open spec fn review_row_of(r: GithubReview, number: i64, row: ReviewRow) -> bool {
    &&& row.id == r.id
    &&& row.pr_id == number
    &&& row.reviewer == r.user.login
    &&& row.state == r.state
    &&& row.body == r.body
    &&& row.submitted_at == r.submitted_at
    &&& row.html_url == r.html_url
}

fn clone_opt(s: &Option<String>) -> (r: Option<String>)
    ensures
        r == *s,
{
    match s {
        Some(v) => Some(v.clone()),
        None => None,
    }
}

fn review_comment_row(c: &GithubReviewComment, number: i64, states: &HashMap<i64, bool>) -> (row:
    CommentRow)
    ensures
        review_comment_row_of(*c, number, states@, row),
{
    broadcast use vstd::std_specs::hash::group_hash_axioms;

    let parent_or_self = match c.in_reply_to_id {
        Some(p) => p,
        None => c.id,
    };
    let thread_id = String::from_str("review:").concat(i64_to_string(parent_or_self).as_str());
    let resolved = match states.get(&c.id) {
        Some(b) => *b,
        None => match c.in_reply_to_id {
            Some(p) => match states.get(&p) {
                Some(b) => *b,
                None => false,
            },
            None => false,
        },
    };
    CommentRow {
        id: c.id,
        pr_id: number,
        thread_id: Some(thread_id),
        author: c.user.login.clone(),
        author_avatar_url: None,
        body: c.body.clone(),
        created_at: c.created_at.clone(),
        comment_type: String::from_str("review_comment"),
        path: Some(c.path.clone()),
        position: c.position,
        in_reply_to_id: c.in_reply_to_id,
        html_url: Some(c.html_url.clone()),
        diff_hunk: clone_opt(&c.diff_hunk),
        resolved,
    }
}

/// The rows to cache for a fetched pull request. `labels_json` is the JSON
/// array of its labels; `body_commonmark_html` is comrak's rendering of its
/// body.
pub fn plan_pr_cache(
    data: &GraphqlPrData,
    full_repo: &str,
    number: i64,
    labels_json: &str,
    body_commonmark_html: &str,
) -> (plan: PrCachePlan)
    ensures
        pr_row_of(
            data.pull_request,
            full_repo@,
            labels_json@,
            body_commonmark_html@,
            plan.pull_request,
        ),
        plan.comments@.len() == data.issue_comments@.len() + data.review_comments@.len(),
        forall|k: int|
            0 <= k < data.issue_comments@.len() ==> issue_comment_row_of(
                data.issue_comments@[k],
                number,
                #[trigger] plan.comments@[k],
            ),
        forall|k: int|
            data.issue_comments@.len() <= k < plan.comments@.len() ==> review_comment_row_of(
                data.review_comments@[k - data.issue_comments@.len()],
                number,
                data.review_thread_states@,
                #[trigger] plan.comments@[k],
            ),
        plan.commits@.len() == data.commits@.len(),
        forall|k: int|
            0 <= k < plan.commits@.len() ==> commit_row_of(
                data.commits@[k],
                full_repo@,
                number,
                #[trigger] plan.commits@[k],
            ),
        plan.check_runs@.len() == data.check_runs.check_runs@.len(),
        forall|k: int|
            0 <= k < plan.check_runs@.len() ==> check_run_row_of(
                data.check_runs.check_runs@[k],
                full_repo@,
                number,
                #[trigger] plan.check_runs@[k],
            ),
        plan.reviews@.len() == data.reviews@.len(),
        forall|k: int|
            0 <= k < plan.reviews@.len() ==> review_row_of(
                data.reviews@[k],
                number,
                #[trigger] plan.reviews@[k],
            ),
        match ci_status_of(data.check_runs.check_runs@) {
            Some(s) => plan.ci_status is Some && plan.ci_status->0@ == s,
            None => plan.ci_status is None,
        },
{
    let gh = &data.pull_request;
    let body = match &gh.body {
        Some(b) => b.clone(),
        None => String::new(),
    };
    let body_html = render_markdown(body.as_str(), body_commonmark_html);
    let pull_request = PullRequestRow {
        id: gh.number,
        title: gh.title.clone(),
        repo: String::from_str(full_repo),
        author: gh.user.login.clone(),
        author_avatar_url: None,
        url: gh.html_url.clone(),
        ci_status: None,
        last_viewed_at: None,
        body,
        body_html,
        state: gh.state.clone(),
        head_sha: gh.head.sha.clone(),
        additions: match gh.additions {
            Some(n) => n,
            None => 0,
        },
        deletions: match gh.deletions {
            Some(n) => n,
            None => 0,
        },
        changed_files: match gh.changed_files {
            Some(n) => n,
            None => 0,
        },
        draft: gh.draft,
        merged_at: clone_opt(&gh.merged_at),
        teams: None,
        labels: String::from_str(labels_json),
    };

    let mut comments: Vec<CommentRow> = Vec::new();
    let mut i: usize = 0;
    while i < data.issue_comments.len()
        invariant
            0 <= i <= data.issue_comments@.len(),
            comments@.len() == i,
            forall|k: int|
                0 <= k < i ==> issue_comment_row_of(
                    data.issue_comments@[k],
                    number,
                    #[trigger] comments@[k],
                ),
        decreases data.issue_comments@.len() - i,
    {
        let c = &data.issue_comments[i];
        comments.push(
            CommentRow {
                id: c.id,
                pr_id: number,
                thread_id: Some(String::from_str("conversation")),
                author: c.user.login.clone(),
                author_avatar_url: None,
                body: c.body.clone(),
                created_at: c.created_at.clone(),
                comment_type: String::from_str("issue_comment"),
                path: None,
                position: None,
                in_reply_to_id: None,
                html_url: Some(c.html_url.clone()),
                diff_hunk: None,
                resolved: false,
            },
        );
        i = i + 1;
    }
    let n_issue = data.issue_comments.len();
    let mut j: usize = 0;
    while j < data.review_comments.len()
        invariant
            n_issue == data.issue_comments@.len(),
            0 <= j <= data.review_comments@.len(),
            comments@.len() == n_issue + j,
            forall|k: int|
                0 <= k < n_issue ==> issue_comment_row_of(
                    data.issue_comments@[k],
                    number,
                    #[trigger] comments@[k],
                ),
            forall|k: int|
                n_issue <= k < n_issue + j ==> review_comment_row_of(
                    data.review_comments@[k - n_issue],
                    number,
                    data.review_thread_states@,
                    #[trigger] comments@[k],
                ),
        decreases data.review_comments@.len() - j,
    {
        let row = review_comment_row(&data.review_comments[j], number, &data.review_thread_states);
        comments.push(row);
        j = j + 1;
    }

    let mut commits: Vec<CommitRow> = Vec::new();
    let mut k: usize = 0;
    while k < data.commits.len()
        invariant
            0 <= k <= data.commits@.len(),
            commits@.len() == k,
            forall|q: int|
                0 <= q < k ==> commit_row_of(
                    data.commits@[q],
                    full_repo@,
                    number,
                    #[trigger] commits@[q],
                ),
        decreases data.commits@.len() - k,
    {
        let c = &data.commits[k];
        commits.push(
            CommitRow {
                sha: c.sha.clone(),
                repo: String::from_str(full_repo),
                pr_id: number,
                message: first_line_of(c.commit.message.as_str()),
                author: c.commit.author.name.clone(),
                committed_at: c.commit.author.date.clone(),
            },
        );
        k = k + 1;
    }

    let runs = &data.check_runs.check_runs;
    let mut check_runs: Vec<CheckRunRow> = Vec::new();
    let mut m: usize = 0;
    while m < runs.len()
        invariant
            0 <= m <= runs@.len(),
            check_runs@.len() == m,
            forall|q: int|
                0 <= q < m ==> check_run_row_of(
                    runs@[q],
                    full_repo@,
                    number,
                    #[trigger] check_runs@[q],
                ),
        decreases runs@.len() - m,
    {
        let cr = &runs[m];
        check_runs.push(
            CheckRunRow {
                id: cr.id,
                repo: String::from_str(full_repo),
                pr_id: number,
                name: cr.name.clone(),
                status: cr.status.clone(),
                conclusion: clone_opt(&cr.conclusion),
            },
        );
        m = m + 1;
    }

    let mut reviews: Vec<ReviewRow> = Vec::new();
    let mut p: usize = 0;
    while p < data.reviews.len()
        invariant
            0 <= p <= data.reviews@.len(),
            reviews@.len() == p,
            forall|q: int|
                0 <= q < p ==> review_row_of(data.reviews@[q], number, #[trigger] reviews@[q]),
        decreases data.reviews@.len() - p,
    {
        let r = &data.reviews[p];
        reviews.push(
            ReviewRow {
                id: r.id,
                pr_id: number,
                reviewer: r.user.login.clone(),
                state: r.state.clone(),
                body: r.body.clone(),
                submitted_at: r.submitted_at.clone(),
                html_url: r.html_url.clone(),
            },
        );
        p = p + 1;
    }

    let ci_status = derive_ci_status(runs.as_slice());
    PrCachePlan { pull_request, comments, commits, check_runs, reviews, ci_status }
}

} // verus!
