use std::collections::HashMap;

use gh_inbox::graphql::GraphqlPrData;
use gh_inbox::models::{
    GithubCheckRun, GithubCheckRunList, GithubCommit, GithubCommitAuthor, GithubCommitDetail,
    GithubHead, GithubIssueComment, GithubPullRequest, GithubReview, GithubReviewComment,
    GithubUser, PrStatus,
};
use gh_inbox::pr_cache::{fetch_result_of, plan_pr_cache, pr_fetch_due, pr_resource_key, FETCH_THROTTLE_SECS};

fn user(login: &str) -> GithubUser {
    GithubUser { login: login.to_string() }
}

fn pull_request(merged_at: Option<&str>, state: &str) -> GithubPullRequest {
    GithubPullRequest {
        number: 42,
        title: "Fix bug".to_string(),
        body: None,
        state: state.to_string(),
        user: user("alice"),
        html_url: "https://github.com/owner/repo/pull/42".to_string(),
        head: GithubHead { sha: "deadbeef".to_string() },
        draft: false,
        merged_at: merged_at.map(|m| m.to_string()),
        additions: Some(10),
        deletions: None,
        changed_files: Some(1),
        labels: vec![],
    }
}

fn review_comment(id: i64, reply_to: Option<i64>) -> GithubReviewComment {
    GithubReviewComment {
        id,
        user: user("carol"),
        body: "Nit".to_string(),
        created_at: "2025-01-01T00:00:00Z".to_string(),
        path: "src/main.rs".to_string(),
        position: Some(10),
        in_reply_to_id: reply_to,
        pull_request_review_id: Some(50),
        html_url: "u".to_string(),
        diff_hunk: None,
    }
}

fn data() -> GraphqlPrData {
    let mut states = HashMap::new();
    states.insert(200, true);
    GraphqlPrData {
        pull_request: pull_request(None, "open"),
        issue_comments: vec![GithubIssueComment {
            id: 100,
            user: user("bob"),
            body: "Looks good!".to_string(),
            created_at: "2025-01-01T00:00:00Z".to_string(),
            html_url: "c".to_string(),
        }],
        review_comments: vec![review_comment(200, None), review_comment(201, Some(200)), review_comment(300, None)],
        commits: vec![GithubCommit {
            sha: "abc123".to_string(),
            commit: GithubCommitDetail {
                message: "Fix parser bug\n\nLonger explanation".to_string(),
                author: GithubCommitAuthor { name: "Alice".to_string(), date: "2025-01-01T00:00:00Z".to_string() },
            },
        }],
        check_runs: GithubCheckRunList {
            total_count: 2,
            check_runs: vec![
                GithubCheckRun { id: 1, name: "CI".to_string(), status: "completed".to_string(), conclusion: Some("success".to_string()) },
                GithubCheckRun { id: 2, name: "Lint".to_string(), status: "in_progress".to_string(), conclusion: None },
            ],
        },
        reviews: vec![GithubReview {
            id: 1,
            user: user("bob"),
            state: "APPROVED".to_string(),
            body: "Ship it".to_string(),
            submitted_at: "2025-06-01T10:00:00Z".to_string(),
            html_url: "r".to_string(),
        }],
        review_thread_states: states,
    }
}

#[test]
fn resource_key_names_the_pull_request() {
    assert_eq!(pr_resource_key("owner/repo", 42), "pr:owner/repo#42");
    assert_eq!(pr_resource_key("o/r", -1), "pr:o/r#-1");
}

#[test]
fn fetch_is_throttled_to_once_a_minute() {
    assert_eq!(FETCH_THROTTLE_SECS, 60);
    assert!(pr_fetch_due(None, 1000));
    assert!(!pr_fetch_due(Some(1000), 1059));
    assert!(pr_fetch_due(Some(1000), 1060));
}

#[test]
fn fetch_result_reports_author_and_status() {
    let r = fetch_result_of(&pull_request(Some("2025-06-01T00:00:00Z"), "closed"));
    assert_eq!(r.author, "alice");
    assert_eq!(r.pr_status, PrStatus::Merged);
}

#[test]
fn cache_plan_rows() {
    let plan = plan_pr_cache(&data(), "owner/repo", 42, "[]", "");
    let pr = &plan.pull_request;
    assert_eq!(pr.id, 42);
    assert_eq!(pr.repo, "owner/repo");
    assert_eq!(pr.author, "alice");
    assert_eq!(pr.body, "");
    assert_eq!(pr.body_html, "");
    assert_eq!(pr.additions, 10);
    assert_eq!(pr.deletions, 0);
    assert_eq!(pr.ci_status, None);
    assert_eq!(pr.teams, None);
    assert_eq!(pr.labels, "[]");

    assert_eq!(plan.comments.len(), 4);
    assert_eq!(plan.comments[0].thread_id, Some("conversation".to_string()));
    assert_eq!(plan.comments[0].comment_type, "issue_comment");
    assert_eq!(plan.comments[1].thread_id, Some("review:200".to_string()));
    assert!(plan.comments[1].resolved);
    assert_eq!(plan.comments[2].thread_id, Some("review:200".to_string()));
    assert!(plan.comments[2].resolved, "a reply inherits its root's resolved state");
    assert_eq!(plan.comments[3].thread_id, Some("review:300".to_string()));
    assert!(!plan.comments[3].resolved, "unknown threads are unresolved");
    assert_eq!(plan.comments[3].path, Some("src/main.rs".to_string()));

    assert_eq!(plan.commits.len(), 1);
    assert_eq!(plan.commits[0].message, "Fix parser bug");
    assert_eq!(plan.commits[0].repo, "owner/repo");

    assert_eq!(plan.check_runs.len(), 2);
    assert_eq!(plan.check_runs[1].name, "Lint");
    assert_eq!(plan.ci_status, Some("pending".to_string()));

    assert_eq!(plan.reviews.len(), 1);
    assert_eq!(plan.reviews[0].reviewer, "bob");
}

#[test]
fn cache_plan_renders_body() {
    let mut d = data();
    d.pull_request.body = Some("Hello".to_string());
    let plan = plan_pr_cache(&d, "owner/repo", 42, "[]", "<p>Hello</p>\n<script>x()</script>");
    assert_eq!(plan.pull_request.body, "Hello");
    assert!(plan.pull_request.body_html.contains("<p>Hello</p>"));
    assert!(!plan.pull_request.body_html.contains("<script>"));
}
