//! The single GraphQL query for a pull request: its response shape and the
//! conversion into the REST-shaped models the cache layer stores.
use std::collections::HashMap;
use vstd::prelude::*;
use vstd::string::StringExecFns;

use crate::models::{
    GithubCheckRun, GithubCheckRunList, GithubCommit, GithubCommitAuthor, GithubCommitDetail,
    GithubHead, GithubIssueComment, GithubLabel, GithubPullRequest, GithubReview,
    GithubReviewComment, GithubUser,
};
use crate::api_errors::{pull_request_not_found, ApiError};
use crate::text::{decimal, i64_to_string, lowercase, str_equals, to_lowercase};

verus! {

/// The GraphQL response envelope.
pub struct GqlResponse {
    pub data: Option<GqlData>,
}

pub struct GqlData {
    pub repository: Option<GqlRepository>,
}

pub struct GqlRepository {
    pub pull_request: Option<GqlPullRequest>,
}

/// A list of nodes.
pub struct GqlConnection<T> {
    pub nodes: Vec<T>,
}

/// A pull request with everything the detail view shows.
pub struct GqlPullRequest {
    pub number: i64,
    pub title: String,
    pub body: Option<String>,
    pub state: String,
    pub is_draft: bool,
    pub merged_at: Option<String>,
    pub additions: Option<i64>,
    pub deletions: Option<i64>,
    pub changed_files: Option<i64>,
    pub url: String,
    pub author: Option<GqlAuthor>,
    pub head_ref_oid: String,
    pub labels: GqlConnection<GqlLabel>,
    pub comments: GqlConnection<GqlIssueComment>,
    pub review_threads: GqlConnection<GqlReviewThread>,
    pub all_commits: GqlConnection<GqlCommitNode>,
    pub head_commit: GqlConnection<GqlHeadCommitNode>,
    pub reviews: GqlConnection<GqlReview>,
}

/// An author; absent for deleted accounts.
pub struct GqlAuthor {
    pub login: String,
}

pub struct GqlLabel {
    pub name: String,
    pub color: String,
}

pub struct GqlIssueComment {
    pub database_id: Option<i64>,
    pub author: Option<GqlAuthor>,
    pub body: String,
    pub created_at: String,
    pub url: String,
}

pub struct GqlReviewThread {
    pub is_resolved: bool,
    pub comments: GqlConnection<GqlReviewComment>,
}

pub struct GqlReviewComment {
    pub database_id: Option<i64>,
    pub author: Option<GqlAuthor>,
    pub body: String,
    pub created_at: String,
    pub path: Option<String>,
    pub position: Option<i64>,
    pub reply_to: Option<GqlIdRef>,
    pub pull_request_review: Option<GqlIdRef>,
    pub url: String,
    pub diff_hunk: Option<String>,
}

pub struct GqlIdRef {
    pub database_id: Option<i64>,
}

pub struct GqlCommitNode {
    pub commit: GqlCommit,
}

pub struct GqlCommit {
    pub oid: String,
    pub message: String,
    pub author: Option<GqlCommitAuthor>,
}

pub struct GqlCommitAuthor {
    pub name: Option<String>,
    pub date: Option<String>,
}

pub struct GqlHeadCommitNode {
    pub commit: GqlHeadCommit,
}

pub struct GqlHeadCommit {
    pub status_check_rollup: Option<GqlStatusCheckRollup>,
}

pub struct GqlStatusCheckRollup {
    pub contexts: GqlConnection<GqlCheckContext>,
}

pub struct GqlCheckContext {
    pub typename: String,
    pub database_id: Option<i64>,
    pub name: Option<String>,
    pub status: Option<String>,
    pub conclusion: Option<String>,
}

pub struct GqlReview {
    pub database_id: Option<i64>,
    pub author: Option<GqlAuthor>,
    pub state: String,
    pub body: String,
    pub submitted_at: Option<String>,
    pub url: String,
}

/// Everything the cache layer stores about one pull request.
pub struct GraphqlPrData {
    pub pull_request: GithubPullRequest,
    pub issue_comments: Vec<GithubIssueComment>,
    pub review_comments: Vec<GithubReviewComment>,
    pub commits: Vec<GithubCommit>,
    pub check_runs: GithubCheckRunList,
    pub reviews: Vec<GithubReview>,
    /// Resolved state of each review thread, keyed by its root comment id.
    pub review_thread_states: HashMap<i64, bool>,
}

// ---- what the conversion computes ----

/// The login shown for an author: deleted accounts show as "ghost".
pub open spec fn login_or_ghost(a: Option<GqlAuthor>) -> Seq<char> {
    match a {
        Some(a) => a.login@,
        None => "ghost"@,
    }
}

/// An optional string, empty when absent.
pub open spec fn or_empty(s: Option<String>) -> Seq<char> {
    match s {
        Some(s) => s@,
        None => Seq::empty(),
    }
}

/// REST pull request states: GraphQL's MERGED is REST's closed (REST tells
/// merged pull requests apart by `merged_at`).
pub open spec fn rest_state(gql_state: Seq<char>) -> Seq<char> {
    if gql_state == "OPEN"@ {
        "open"@
    } else if gql_state == "MERGED"@ || gql_state == "CLOSED"@ {
        "closed"@
    } else {
        lowercase(gql_state)
    }
}

/// Conversation comments that have a database id.
pub open spec fn kept_issue_comments(cs: Seq<GqlIssueComment>) -> Seq<GqlIssueComment>
    decreases cs.len(),
{
    if cs.len() == 0 {
        Seq::empty()
    } else if cs.last().database_id is Some {
        kept_issue_comments(cs.drop_last()).push(cs.last())
    } else {
        kept_issue_comments(cs.drop_last())
    }
}

/// Review comments that have a database id.
pub open spec fn kept_review_comments(cs: Seq<GqlReviewComment>) -> Seq<GqlReviewComment>
    decreases cs.len(),
{
    if cs.len() == 0 {
        Seq::empty()
    } else if cs.last().database_id is Some {
        kept_review_comments(cs.drop_last()).push(cs.last())
    } else {
        kept_review_comments(cs.drop_last())
    }
}

/// The review comments of all threads, flattened in order.
pub open spec fn thread_comments(threads: Seq<GqlReviewThread>) -> Seq<GqlReviewComment>
    decreases threads.len(),
{
    if threads.len() == 0 {
        Seq::empty()
    } else {
        thread_comments(threads.drop_last()) + kept_review_comments(
            threads.last().comments.nodes@,
        )
    }
}

/// Resolved state of each thread, keyed by the id of its first comment; a
/// later thread with the same root id wins.
pub open spec fn thread_states(threads: Seq<GqlReviewThread>) -> Map<i64, bool>
    decreases threads.len(),
{
    if threads.len() == 0 {
        Map::empty()
    } else {
        let prev = thread_states(threads.drop_last());
        let t = threads.last();
        if t.comments.nodes@.len() > 0 && t.comments.nodes@[0].database_id is Some {
            prev.insert(t.comments.nodes@[0].database_id->0, t.is_resolved)
        } else {
            prev
        }
    }
}

/// Check contexts that are check runs with a database id.
pub open spec fn kept_check_runs(cs: Seq<GqlCheckContext>) -> Seq<GqlCheckContext>
    decreases cs.len(),
{
    if cs.len() == 0 {
        Seq::empty()
    } else if cs.last().typename@ == "CheckRun"@ && cs.last().database_id is Some {
        kept_check_runs(cs.drop_last()).push(cs.last())
    } else {
        kept_check_runs(cs.drop_last())
    }
}

/// The check runs of the head commit's status rollup.
pub open spec fn head_check_runs(head: Seq<GqlHeadCommitNode>) -> Seq<GqlCheckContext> {
    if head.len() > 0 && head[0].commit.status_check_rollup is Some {
        kept_check_runs(head[0].commit.status_check_rollup->0.contexts.nodes@)
    } else {
        Seq::empty()
    }
}

/// Review states worth showing (plain comments are left out).
pub open spec fn review_state_allowed(state: Seq<char>) -> bool {
    state == "APPROVED"@ || state == "CHANGES_REQUESTED"@ || state == "DISMISSED"@
}

/// Reviews with a database id and a state worth showing.
pub open spec fn kept_reviews(rs: Seq<GqlReview>) -> Seq<GqlReview>
    decreases rs.len(),
{
    if rs.len() == 0 {
        Seq::empty()
    } else if rs.last().database_id is Some && review_state_allowed(rs.last().state@) {
        kept_reviews(rs.drop_last()).push(rs.last())
    } else {
        kept_reviews(rs.drop_last())
    }
}

pub open spec fn label_converted(l: GqlLabel, out: GithubLabel) -> bool {
    out.name == l.name && out.color == l.color
}

pub open spec fn issue_comment_converted(c: GqlIssueComment, out: GithubIssueComment) -> bool {
    &&& out.id == c.database_id->0
    &&& out.user.login@ == login_or_ghost(c.author)
    &&& out.body == c.body
    &&& out.created_at == c.created_at
    &&& out.html_url == c.url
}

/// The id inside an optional id reference.
pub open spec fn ref_id(r: Option<GqlIdRef>) -> Option<i64> {
    match r {
        Some(r) => r.database_id,
        None => None,
    }
}

pub open spec fn review_comment_converted(c: GqlReviewComment, out: GithubReviewComment) -> bool {
    &&& out.id == c.database_id->0
    &&& out.user.login@ == login_or_ghost(c.author)
    &&& out.body == c.body
    &&& out.created_at == c.created_at
    &&& out.path@ == or_empty(c.path)
    &&& out.position == c.position
    &&& out.in_reply_to_id == ref_id(c.reply_to)
    &&& out.pull_request_review_id == ref_id(c.pull_request_review)
    &&& out.html_url == c.url
    &&& out.diff_hunk == c.diff_hunk
}

pub open spec fn commit_converted(n: GqlCommitNode, out: GithubCommit) -> bool {
    &&& out.sha == n.commit.oid
    &&& out.commit.message == n.commit.message
    &&& out.commit.author.name@ == match n.commit.author {
        Some(a) => match a.name {
            Some(name) => name@,
            None => "ghost"@,
        },
        None => "ghost"@,
    }
    &&& out.commit.author.date@ == match n.commit.author {
        Some(a) => or_empty(a.date),
        None => Seq::empty(),
    }
}

pub open spec fn check_run_converted(c: GqlCheckContext, out: GithubCheckRun) -> bool {
    &&& out.id == c.database_id->0
    &&& out.name@ == or_empty(c.name)
    &&& out.status@ == match c.status {
        Some(s) => lowercase(s@),
        None => Seq::empty(),
    }
    &&& match (c.conclusion, out.conclusion) {
        (Some(c), Some(o)) => o@ == lowercase(c@),
        (None, None) => true,
        _ => false,
    }
}

pub open spec fn review_converted(r: GqlReview, out: GithubReview) -> bool {
    &&& out.id == r.database_id->0
    &&& out.user.login@ == login_or_ghost(r.author)
    &&& out.state == r.state
    &&& out.body == r.body
    &&& out.submitted_at@ == or_empty(r.submitted_at)
    &&& out.html_url == r.url
}

/// The pull request metadata, REST-shaped.
pub open spec fn pull_request_converted(g: GqlPullRequest, out: GithubPullRequest) -> bool {
    &&& out.number == g.number
    &&& out.title == g.title
    &&& out.body == g.body
    &&& out.state@ == rest_state(g.state@)
    &&& out.user.login@ == login_or_ghost(g.author)
    &&& out.html_url == g.url
    &&& out.head.sha == g.head_ref_oid
    &&& out.draft == g.is_draft
    // A MERGED pull request always carries merged_at.
    &&& out.merged_at == (if g.state@ == "MERGED"@ && g.merged_at is None {
        out.merged_at
    } else {
        g.merged_at
    })
    &&& (g.state@ == "MERGED"@ && g.merged_at is None) ==> (out.merged_at is Some
        && out.merged_at->0@ == Seq::<char>::empty())
    &&& out.additions == g.additions
    &&& out.deletions == g.deletions
    &&& out.changed_files == g.changed_files
    &&& out.labels@.len() == g.labels.nodes@.len()
    &&& forall|i: int|
        0 <= i < out.labels@.len() ==> label_converted(g.labels.nodes@[i], #[trigger] out.labels@[i])
}

// ---- the conversion ----

fn clone_opt(s: &Option<String>) -> (r: Option<String>)
    ensures
        r == *s,
{
    match s {
        Some(v) => Some(v.clone()),
        None => None,
    }
}

fn string_or_empty(s: &Option<String>) -> (r: String)
    ensures
        r@ == or_empty(*s),
{
    match s {
        Some(v) => v.clone(),
        None => String::new(),
    }
}

fn copy_ref_id(r: &Option<GqlIdRef>) -> (out: Option<i64>)
    ensures
        out == ref_id(*r),
{
    match r {
        Some(r) => match r.database_id {
            Some(id) => Some(id),
            None => None,
        },
        None => None,
    }
}

/// The login shown for an author, "ghost" for deleted accounts.
pub fn author_login(author: &Option<GqlAuthor>) -> (r: String)
    ensures
        r@ == login_or_ghost(*author),
{
    match author {
        Some(a) => a.login.clone(),
        None => String::from_str("ghost"),
    }
}

/// The REST state for a GraphQL pull request state.
pub fn convert_pr_state(gql_state: &str) -> (r: String)
    ensures
        r@ == rest_state(gql_state@),
{
    if str_equals(gql_state, "OPEN") {
        String::from_str("open")
    } else if str_equals(gql_state, "MERGED") || str_equals(gql_state, "CLOSED") {
        String::from_str("closed")
    } else {
        to_lowercase(gql_state)
    }
}

fn convert_pull_request(g: &GqlPullRequest) -> (out: GithubPullRequest)
    ensures
        pull_request_converted(*g, out),
{
    let state = convert_pr_state(g.state.as_str());
    let merged_at = if str_equals(g.state.as_str(), "MERGED") {
        match &g.merged_at {
            Some(m) => Some(m.clone()),
            None => Some(String::new()),
        }
    } else {
        clone_opt(&g.merged_at)
    };
    let mut labels: Vec<GithubLabel> = Vec::new();
    let mut i: usize = 0;
    while i < g.labels.nodes.len()
        invariant
            0 <= i <= g.labels.nodes@.len(),
            labels@.len() == i,
            forall|k: int|
                0 <= k < i ==> label_converted(g.labels.nodes@[k], #[trigger] labels@[k]),
        decreases g.labels.nodes@.len() - i,
    {
        let l = &g.labels.nodes[i];
        labels.push(GithubLabel { name: l.name.clone(), color: l.color.clone() });
        i = i + 1;
    }
    GithubPullRequest {
        number: g.number,
        title: g.title.clone(),
        body: clone_opt(&g.body),
        state,
        user: GithubUser { login: author_login(&g.author) },
        html_url: g.url.clone(),
        head: GithubHead { sha: g.head_ref_oid.clone() },
        draft: g.is_draft,
        merged_at,
        additions: g.additions,
        deletions: g.deletions,
        changed_files: g.changed_files,
        labels,
    }
}

fn convert_issue_comments(cs: &Vec<GqlIssueComment>) -> (out: Vec<GithubIssueComment>)
    ensures
        out@.len() == kept_issue_comments(cs@).len(),
        forall|k: int|
            0 <= k < out@.len() ==> issue_comment_converted(
                kept_issue_comments(cs@)[k],
                #[trigger] out@[k],
            ),
{
    let mut out: Vec<GithubIssueComment> = Vec::new();
    let mut i: usize = 0;
    while i < cs.len()
        invariant
            0 <= i <= cs@.len(),
            out@.len() == kept_issue_comments(cs@.take(i as int)).len(),
            forall|k: int|
                0 <= k < out@.len() ==> issue_comment_converted(
                    kept_issue_comments(cs@.take(i as int))[k],
                    #[trigger] out@[k],
                ),
        decreases cs@.len() - i,
    {
        assert(cs@.take(i + 1).drop_last() =~= cs@.take(i as int));
        assert(cs@.take(i + 1).last() == cs@[i as int]);
        let c = &cs[i];
        match c.database_id {
            Some(id) => {
                out.push(
                    GithubIssueComment {
                        id,
                        user: GithubUser { login: author_login(&c.author) },
                        body: c.body.clone(),
                        created_at: c.created_at.clone(),
                        html_url: c.url.clone(),
                    },
                );
            },
            None => {},
        }
        i = i + 1;
    }
    assert(cs@.take(cs@.len() as int) =~= cs@);
    out
}

fn convert_review_comment(c: &GqlReviewComment, id: i64) -> (out: GithubReviewComment)
    requires
        c.database_id == Some(id),
    ensures
        review_comment_converted(*c, out),
{
    GithubReviewComment {
        id,
        user: GithubUser { login: author_login(&c.author) },
        body: c.body.clone(),
        created_at: c.created_at.clone(),
        path: string_or_empty(&c.path),
        position: c.position,
        in_reply_to_id: copy_ref_id(&c.reply_to),
        pull_request_review_id: copy_ref_id(&c.pull_request_review),
        html_url: c.url.clone(),
        diff_hunk: clone_opt(&c.diff_hunk),
    }
}

/// Flatten the review threads into their comments, and record each thread's
/// resolved state under its root comment id.
fn convert_review_threads(threads: &Vec<GqlReviewThread>) -> (r: (
    Vec<GithubReviewComment>,
    HashMap<i64, bool>,
))
    ensures
        r.0@.len() == thread_comments(threads@).len(),
        forall|k: int|
            0 <= k < r.0@.len() ==> review_comment_converted(
                thread_comments(threads@)[k],
                #[trigger] r.0@[k],
            ),
        r.1@ == thread_states(threads@),
{
    broadcast use vstd::std_specs::hash::group_hash_axioms;

    let mut out: Vec<GithubReviewComment> = Vec::new();
    let mut states: HashMap<i64, bool> = HashMap::new();
    let mut t: usize = 0;
    while t < threads.len()
        invariant
            0 <= t <= threads@.len(),
            out@.len() == thread_comments(threads@.take(t as int)).len(),
            forall|k: int|
                0 <= k < out@.len() ==> review_comment_converted(
                    thread_comments(threads@.take(t as int))[k],
                    #[trigger] out@[k],
                ),
            states@ == thread_states(threads@.take(t as int)),
        decreases threads@.len() - t,
    {
        assert(threads@.take(t + 1).drop_last() =~= threads@.take(t as int));
        assert(threads@.take(t + 1).last() == threads@[t as int]);
        let thread = &threads[t];
        let nodes = &thread.comments.nodes;
        if nodes.len() > 0 {
            match nodes[0].database_id {
                Some(root_id) => {
                    states.insert(root_id, thread.is_resolved);
                },
                None => {},
            }
        }
        let ghost done = thread_comments(threads@.take(t as int));
        let ghost base_len = out@.len();
        let mut j: usize = 0;
        while j < nodes.len()
            invariant
                0 <= j <= nodes@.len(),
                base_len == done.len(),
                out@.len() == done.len() + kept_review_comments(nodes@.take(j as int)).len(),
                forall|k: int|
                    0 <= k < out@.len() ==> review_comment_converted(
                        (done + kept_review_comments(nodes@.take(j as int)))[k],
                        #[trigger] out@[k],
                    ),
            decreases nodes@.len() - j,
        {
            assert(nodes@.take(j + 1).drop_last() =~= nodes@.take(j as int));
            assert(nodes@.take(j + 1).last() == nodes@[j as int]);
            let c = &nodes[j];
            match c.database_id {
                Some(id) => {
                    let rc = convert_review_comment(c, id);
                    out.push(rc);
                    assert(done + kept_review_comments(nodes@.take(j + 1)) =~= (done
                        + kept_review_comments(nodes@.take(j as int))).push(*c));
                },
                None => {
                    assert(done + kept_review_comments(nodes@.take(j + 1)) =~= done
                        + kept_review_comments(nodes@.take(j as int)));
                },
            }
            j = j + 1;
        }
        assert(nodes@.take(nodes@.len() as int) =~= nodes@);
        t = t + 1;
    }
    assert(threads@.take(threads@.len() as int) =~= threads@);
    (out, states)
}

fn convert_commits(nodes: &Vec<GqlCommitNode>) -> (out: Vec<GithubCommit>)
    ensures
        out@.len() == nodes@.len(),
        forall|k: int| 0 <= k < out@.len() ==> commit_converted(nodes@[k], #[trigger] out@[k]),
{
    let mut out: Vec<GithubCommit> = Vec::new();
    let mut i: usize = 0;
    while i < nodes.len()
        invariant
            0 <= i <= nodes@.len(),
            out@.len() == i,
            forall|k: int| 0 <= k < i ==> commit_converted(nodes@[k], #[trigger] out@[k]),
        decreases nodes@.len() - i,
    {
        let c = &nodes[i].commit;
        let (name, date) = match &c.author {
            Some(a) => (
                match &a.name {
                    Some(n) => n.clone(),
                    None => String::from_str("ghost"),
                },
                string_or_empty(&a.date),
            ),
            None => (String::from_str("ghost"), String::new()),
        };
        out.push(
            GithubCommit {
                sha: c.oid.clone(),
                commit: GithubCommitDetail {
                    message: c.message.clone(),
                    author: GithubCommitAuthor { name, date },
                },
            },
        );
        i = i + 1;
    }
    out
}

fn convert_check_runs(head: &Vec<GqlHeadCommitNode>) -> (out: Vec<GithubCheckRun>)
    ensures
        out@.len() == head_check_runs(head@).len(),
        forall|k: int|
            0 <= k < out@.len() ==> check_run_converted(
                head_check_runs(head@)[k],
                #[trigger] out@[k],
            ),
{
    let mut out: Vec<GithubCheckRun> = Vec::new();
    if head.len() == 0 {
        return out;
    }
    let rollup = match &head[0].commit.status_check_rollup {
        Some(r) => r,
        None => {
            return out;
        },
    };
    let cs = &rollup.contexts.nodes;
    let mut i: usize = 0;
    while i < cs.len()
        invariant
            0 <= i <= cs@.len(),
            out@.len() == kept_check_runs(cs@.take(i as int)).len(),
            forall|k: int|
                0 <= k < out@.len() ==> check_run_converted(
                    kept_check_runs(cs@.take(i as int))[k],
                    #[trigger] out@[k],
                ),
        decreases cs@.len() - i,
    {
        assert(cs@.take(i + 1).drop_last() =~= cs@.take(i as int));
        assert(cs@.take(i + 1).last() == cs@[i as int]);
        let ctx = &cs[i];
        if str_equals(ctx.typename.as_str(), "CheckRun") {
            match ctx.database_id {
                Some(id) => {
                    let status = match &ctx.status {
                        Some(s) => to_lowercase(s.as_str()),
                        None => String::new(),
                    };
                    let conclusion = match &ctx.conclusion {
                        Some(c) => Some(to_lowercase(c.as_str())),
                        None => None,
                    };
                    out.push(
                        GithubCheckRun { id, name: string_or_empty(&ctx.name), status, conclusion },
                    );
                },
                None => {},
            }
        }
        i = i + 1;
    }
    assert(cs@.take(cs@.len() as int) =~= cs@);
    out
}

fn convert_reviews(rs: &Vec<GqlReview>) -> (out: Vec<GithubReview>)
    ensures
        out@.len() == kept_reviews(rs@).len(),
        forall|k: int|
            0 <= k < out@.len() ==> review_converted(kept_reviews(rs@)[k], #[trigger] out@[k]),
{
    let mut out: Vec<GithubReview> = Vec::new();
    let mut i: usize = 0;
    while i < rs.len()
        invariant
            0 <= i <= rs@.len(),
            out@.len() == kept_reviews(rs@.take(i as int)).len(),
            forall|k: int|
                0 <= k < out@.len() ==> review_converted(
                    kept_reviews(rs@.take(i as int))[k],
                    #[trigger] out@[k],
                ),
        decreases rs@.len() - i,
    {
        assert(rs@.take(i + 1).drop_last() =~= rs@.take(i as int));
        assert(rs@.take(i + 1).last() == rs@[i as int]);
        let r = &rs[i];
        match r.database_id {
            Some(id) => {
                let s = r.state.as_str();
                if str_equals(s, "APPROVED") || str_equals(s, "CHANGES_REQUESTED") || str_equals(
                    s,
                    "DISMISSED",
                ) {
                    out.push(
                        GithubReview {
                            id,
                            user: GithubUser { login: author_login(&r.author) },
                            state: r.state.clone(),
                            body: r.body.clone(),
                            submitted_at: string_or_empty(&r.submitted_at),
                            html_url: r.url.clone(),
                        },
                    );
                }
            },
            None => {},
        }
        i = i + 1;
    }
    assert(rs@.take(rs@.len() as int) =~= rs@);
    out
}

/// What `convert` makes of a GraphQL pull request: nodes without a
/// database id are dropped, deleted authors become "ghost", only check runs of
/// the head commit are kept, and plain comment reviews are left out.
pub open spec fn pr_data_converted(gql_pr: GqlPullRequest, r: GraphqlPrData) -> bool {
    &&& pull_request_converted(gql_pr, r.pull_request)
    &&& r.issue_comments@.len() == kept_issue_comments(gql_pr.comments.nodes@).len()
    &&& forall|k: int|
        0 <= k < r.issue_comments@.len() ==> issue_comment_converted(
            kept_issue_comments(gql_pr.comments.nodes@)[k],
            #[trigger] r.issue_comments@[k],
        )
    &&& r.review_comments@.len() == thread_comments(gql_pr.review_threads.nodes@).len()
    &&& forall|k: int|
        0 <= k < r.review_comments@.len() ==> review_comment_converted(
            thread_comments(gql_pr.review_threads.nodes@)[k],
            #[trigger] r.review_comments@[k],
        )
    &&& r.review_thread_states@ == thread_states(gql_pr.review_threads.nodes@)
    &&& r.commits@.len() == gql_pr.all_commits.nodes@.len()
    &&& forall|k: int|
        0 <= k < r.commits@.len() ==> commit_converted(
            gql_pr.all_commits.nodes@[k],
            #[trigger] r.commits@[k],
        )
    &&& r.check_runs.check_runs@.len() == head_check_runs(gql_pr.head_commit.nodes@).len()
    &&& r.check_runs.check_runs@.len() <= i64::MAX ==> r.check_runs.total_count
        == r.check_runs.check_runs@.len()
    &&& forall|k: int|
        0 <= k < r.check_runs.check_runs@.len() ==> check_run_converted(
            head_check_runs(gql_pr.head_commit.nodes@)[k],
            #[trigger] r.check_runs.check_runs@[k],
        )
    &&& r.reviews@.len() == kept_reviews(gql_pr.reviews.nodes@).len()
    &&& forall|k: int|
        0 <= k < r.reviews@.len() ==> review_converted(
            kept_reviews(gql_pr.reviews.nodes@)[k],
            #[trigger] r.reviews@[k],
        )
}

/// Convert a GraphQL pull request into the REST-shaped data the cache stores.
pub fn convert(gql_pr: &GqlPullRequest) -> (r: GraphqlPrData)
    ensures
        pr_data_converted(*gql_pr, r),
{
    let pull_request = convert_pull_request(gql_pr);
    let issue_comments = convert_issue_comments(&gql_pr.comments.nodes);
    let (review_comments, review_thread_states) = convert_review_threads(
        &gql_pr.review_threads.nodes,
    );
    let commits = convert_commits(&gql_pr.all_commits.nodes);
    let check_runs_vec = convert_check_runs(&gql_pr.head_commit.nodes);
    let total = check_runs_vec.len();
    let total64 = total as u64;
    let total_count: i64 = if total64 <= 0x7fff_ffff_ffff_ffffu64 {
        total64 as i64
    } else {
        i64::MAX
    };
    let reviews = convert_reviews(&gql_pr.reviews.nodes);
    GraphqlPrData {
        pull_request,
        issue_comments,
        review_comments,
        commits,
        check_runs: GithubCheckRunList { total_count, check_runs: check_runs_vec },
        reviews,
        review_thread_states,
    }
}

/// The pull request a GraphQL response carries, if it carries one.
pub open spec fn response_pull_request(response: GqlResponse) -> Option<GqlPullRequest> {
    match response.data {
        Some(d) => match d.repository {
            Some(repo) => repo.pull_request,
            None => None,
        },
        None => None,
    }
}

/// The pull request data of a GraphQL response for `owner/repo#number`,
/// converted; a response without the pull request answers "not found".
pub fn pull_request_data(response: &GqlResponse, owner: &str, repo: &str, number: i64) -> (r: Result<
    GraphqlPrData,
    ApiError,
>)
    ensures
        r is Ok <==> response_pull_request(*response) is Some,
        r matches Ok(d) ==> pr_data_converted(response_pull_request(*response)->0, d),
        r matches Err(e) ==> e matches ApiError::NotFound(m) && m@ == "Pull request "@ + owner@
            + "/"@ + repo@ + "#"@ + decimal(number as int) + " not found via GraphQL"@,
{
    let found = match &response.data {
        Some(d) => match &d.repository {
            Some(rp) => match &rp.pull_request {
                Some(pr) => Some(pr),
                None => None,
            },
            None => None,
        },
        None => None,
    };
    match found {
        Some(pr) => Ok(convert(pr)),
        None => {
            let number_text = i64_to_string(number);
            Err(pull_request_not_found(owner, repo, number_text.as_str()))
        },
    }
}

/// The conversion keeps exactly the reviews that have a database id and are
/// approvals, change requests or dismissals, in order; plain comment reviews
/// (and pending ones) are dropped.
pub proof fn law_conversion_keeps_decisive_reviews(rs: Seq<GqlReview>)
    ensures
        kept_reviews(rs) == rs.filter(
            |r: GqlReview|
                r.database_id is Some && (r.state@ == "APPROVED"@ || r.state@
                    == "CHANGES_REQUESTED"@ || r.state@ == "DISMISSED"@),
        ),
    decreases rs.len(),
{
    reveal(Seq::filter);
    if rs.len() > 0 {
        law_conversion_keeps_decisive_reviews(rs.drop_last());
    }
}

} // verus!
