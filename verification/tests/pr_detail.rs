use gh_inbox::models::PrStatus;
use gh_inbox::pr_cache::PrFetchResult;
use gh_inbox::pr_detail::viewed_pr_info;
use gh_inbox::rows::PullRequestRow;
use gh_inbox::pr_detail::{build_threads, check_run_response, review_response};
use gh_inbox::rows::{CheckRunRow, CommentRow, ReviewRow};

fn comment(id: i64, thread: Option<&str>, path: Option<&str>, resolved: bool, body: &str) -> CommentRow {
    CommentRow {
        id,
        pr_id: 42,
        thread_id: thread.map(|t| t.to_string()),
        author: "bob".to_string(),
        author_avatar_url: None,
        body: body.to_string(),
        created_at: "2025-01-01T00:00:00Z".to_string(),
        comment_type: "review_comment".to_string(),
        path: path.map(|p| p.to_string()),
        position: None,
        in_reply_to_id: None,
        html_url: None,
        diff_hunk: None,
        resolved,
    }
}

#[test]
fn comments_are_grouped_by_thread_in_id_order() {
    let comments = vec![
        comment(3, Some("review:3"), Some("b.rs"), true, "x"),
        comment(1, Some("conversation"), None, false, "hello"),
        comment(4, Some("review:3"), Some("c.rs"), false, "y"),
        comment(9, None, None, false, "z"),
        comment(2, Some("conversation"), None, false, "again"),
    ];
    let htmls: Vec<String> = comments.iter().map(|c| format!("<p>{}</p>", c.body)).collect();
    let threads = build_threads(&comments, &htmls);
    let ids: Vec<&str> = threads.iter().map(|t| t.thread_id.as_str()).collect();
    assert_eq!(ids, vec!["conversation", "orphan:9", "review:3"]);
    let listed: usize = threads.iter().map(|t| t.comments.len()).sum();
    assert_eq!(listed, comments.len());

    assert_eq!(threads[0].comments.len(), 2);
    assert_eq!(threads[0].comments[0].inner.id, 1);
    assert_eq!(threads[0].comments[1].inner.id, 2);
    assert_eq!(threads[0].comments[0].body_html, "<p>hello</p>");
    assert_eq!(threads[0].path, None);

    assert_eq!(threads[2].comments.len(), 2);
    assert_eq!(threads[2].path, Some("b.rs".to_string()));
    assert!(threads[2].resolved, "a thread takes its first comment's resolved flag");
}

#[test]
fn no_comments_no_threads() {
    assert!(build_threads(&vec![], &vec![]).is_empty());
}

#[test]
fn check_run_and_review_views() {
    let cr = check_run_response(&CheckRunRow {
        id: 1,
        repo: "o/r".to_string(),
        pr_id: 42,
        name: "CI".to_string(),
        status: "completed".to_string(),
        conclusion: Some("success".to_string()),
    });
    assert_eq!(cr.name, "CI");
    assert_eq!(cr.conclusion, Some("success".to_string()));
    let rv = review_response(&ReviewRow {
        id: 7,
        pr_id: 42,
        reviewer: "bob".to_string(),
        state: "APPROVED".to_string(),
        body: "Ship it".to_string(),
        submitted_at: "t".to_string(),
        html_url: "u".to_string(),
    });
    assert_eq!(rv.id, 7);
    assert_eq!(rv.reviewer, "bob");
    assert_eq!(rv.reviewer_avatar_url, None);
}

#[test]
fn opening_a_pull_request_reports_no_new_activity() {
    let row = PullRequestRow {
        id: 42,
        title: "T".to_string(),
        repo: "owner/repo".to_string(),
        author: "cached-author".to_string(),
        author_avatar_url: None,
        url: "u".to_string(),
        ci_status: Some("failure".to_string()),
        last_viewed_at: None,
        body: String::new(),
        body_html: String::new(),
        state: "open".to_string(),
        head_sha: "abc".to_string(),
        additions: 0,
        deletions: 0,
        changed_files: 0,
        draft: true,
        merged_at: None,
        teams: None,
        labels: "[]".to_string(),
    };
    let cached = viewed_pr_info(None, &row, "owner/repo", 42, Some(vec!["acme/platform".to_string()]));
    assert_eq!(cached.author, "cached-author");
    assert_eq!(cached.pr_status, PrStatus::Draft);
    assert_eq!(cached.ci_status, Some("failure".to_string()));
    assert_eq!(cached.new_commits, Some(0));
    assert_eq!(cached.new_comments.map(|c| c.len()), Some(0));
    assert_eq!(cached.new_reviews.map(|r| r.len()), Some(0));
    assert_eq!(cached.teams, Some(vec!["acme/platform".to_string()]));

    let fresh = viewed_pr_info(
        Some(PrFetchResult { author: "alice".to_string(), pr_status: PrStatus::Merged }),
        &row,
        "owner/repo",
        42,
        None,
    );
    assert_eq!(fresh.author, "alice");
    assert_eq!(fresh.pr_status, PrStatus::Merged);
    assert_eq!(fresh.repository, "owner/repo");
}
