use gh_inbox::graphql::{
    author_login, convert, convert_pr_state, pull_request_data, GqlAuthor, GqlCheckContext,
    GqlCommit, GqlCommitAuthor, GqlCommitNode, GqlConnection, GqlData, GqlHeadCommit,
    GqlHeadCommitNode, GqlIdRef, GqlIssueComment, GqlLabel, GqlPullRequest, GqlRepository,
    GqlResponse, GqlReview, GqlReviewComment, GqlReviewThread, GqlStatusCheckRollup,
};

fn author(login: &str) -> Option<GqlAuthor> {
    Some(GqlAuthor { login: login.to_string() })
}

fn id_ref(id: i64) -> Option<GqlIdRef> {
    Some(GqlIdRef { database_id: Some(id) })
}

fn s(v: &str) -> String {
    v.to_string()
}

/// The pull request of the full GraphQL response used by the conversion tests.
fn full_pull_request() -> GqlPullRequest {
    GqlPullRequest {
        number: 42,
        title: s("Fix bug"),
        body: Some(s("Fixes the parser")),
        state: s("OPEN"),
        is_draft: false,
        merged_at: None,
        additions: Some(10),
        deletions: Some(2),
        changed_files: Some(1),
        url: s("https://github.com/owner/repo/pull/42"),
        author: author("alice"),
        head_ref_oid: s("deadbeef"),
        labels: GqlConnection { nodes: vec![GqlLabel { name: s("bug"), color: s("d73a4a") }] },
        comments: GqlConnection {
            nodes: vec![GqlIssueComment {
                database_id: Some(100),
                author: author("bob"),
                body: s("Looks good!"),
                created_at: s("2025-01-01T00:00:00Z"),
                url: s("https://github.com/owner/repo/pull/42#issuecomment-100"),
            }],
        },
        review_threads: GqlConnection {
            nodes: vec![GqlReviewThread {
                is_resolved: true,
                comments: GqlConnection {
                    nodes: vec![
                        GqlReviewComment {
                            database_id: Some(200),
                            author: author("carol"),
                            body: s("Nit: rename this"),
                            created_at: s("2025-01-01T00:00:00Z"),
                            path: Some(s("src/main.rs")),
                            position: Some(10),
                            reply_to: None,
                            pull_request_review: id_ref(50),
                            url: s("https://github.com/owner/repo/pull/42#discussion_r200"),
                            diff_hunk: Some(s("@@ -1,4 +1,5 @@")),
                        },
                        GqlReviewComment {
                            database_id: Some(201),
                            author: author("alice"),
                            body: s("Done!"),
                            created_at: s("2025-01-02T00:00:00Z"),
                            path: Some(s("src/main.rs")),
                            position: Some(10),
                            reply_to: id_ref(200),
                            pull_request_review: id_ref(51),
                            url: s("https://github.com/owner/repo/pull/42#discussion_r201"),
                            diff_hunk: None,
                        },
                    ],
                },
            }],
        },
        all_commits: GqlConnection {
            nodes: vec![GqlCommitNode {
                commit: GqlCommit {
                    oid: s("abc123"),
                    message: s("Fix parser bug"),
                    author: Some(GqlCommitAuthor {
                        name: Some(s("Alice")),
                        date: Some(s("2025-01-01T00:00:00Z")),
                    }),
                },
            }],
        },
        head_commit: GqlConnection {
            nodes: vec![GqlHeadCommitNode {
                commit: GqlHeadCommit {
                    status_check_rollup: Some(GqlStatusCheckRollup {
                        contexts: GqlConnection {
                            nodes: vec![
                                GqlCheckContext {
                                    typename: s("CheckRun"),
                                    database_id: Some(1),
                                    name: Some(s("CI")),
                                    status: Some(s("COMPLETED")),
                                    conclusion: Some(s("SUCCESS")),
                                },
                                GqlCheckContext {
                                    typename: s("StatusContext"),
                                    database_id: None,
                                    name: None,
                                    status: None,
                                    conclusion: None,
                                },
                            ],
                        },
                    }),
                },
            }],
        },
        reviews: GqlConnection {
            nodes: vec![
                GqlReview {
                    database_id: Some(1),
                    author: author("bob"),
                    state: s("APPROVED"),
                    body: s("Ship it"),
                    submitted_at: Some(s("2025-06-01T10:00:00Z")),
                    url: s("https://github.com/owner/repo/pull/42#pullrequestreview-1"),
                },
                GqlReview {
                    database_id: Some(2),
                    author: author("eve"),
                    state: s("COMMENTED"),
                    body: s("hmm"),
                    submitted_at: Some(s("2025-06-01T11:00:00Z")),
                    url: s("https://github.com/owner/repo/pull/42#pullrequestreview-2"),
                },
            ],
        },
    }
}

/// A bare pull request: `"number": 1, "title": "T"`, no body, no sizes, no
/// nodes, and a head commit without a status rollup.
fn bare_pull_request(state: &str, merged_at: Option<&str>, pr_author: Option<GqlAuthor>) -> GqlPullRequest {
    GqlPullRequest {
        number: 1,
        title: s("T"),
        body: None,
        state: s(state),
        is_draft: false,
        merged_at: merged_at.map(s),
        additions: None,
        deletions: None,
        changed_files: None,
        url: s("u"),
        author: pr_author,
        head_ref_oid: s("s"),
        labels: GqlConnection { nodes: vec![] },
        comments: GqlConnection { nodes: vec![] },
        review_threads: GqlConnection { nodes: vec![] },
        all_commits: GqlConnection { nodes: vec![] },
        head_commit: GqlConnection {
            nodes: vec![GqlHeadCommitNode { commit: GqlHeadCommit { status_check_rollup: None } }],
        },
        reviews: GqlConnection { nodes: vec![] },
    }
}

fn wrap(pr: GqlPullRequest) -> GqlResponse {
    GqlResponse {
        data: Some(GqlData { repository: Some(GqlRepository { pull_request: Some(pr) }) }),
    }
}

fn unwrap_pr(response: GqlResponse) -> GqlPullRequest {
    response.data.unwrap().repository.unwrap().pull_request.unwrap()
}

#[test]
fn parses_and_converts_full_response() {
    let response = wrap(full_pull_request());
    let gql_pr = unwrap_pr(response);
    let data = convert(&gql_pr);

    // PR metadata
    assert_eq!(data.pull_request.number, 42);
    assert_eq!(data.pull_request.title, "Fix bug");
    assert_eq!(data.pull_request.state, "open");
    assert_eq!(data.pull_request.user.login, "alice");
    assert_eq!(data.pull_request.head.sha, "deadbeef");
    assert!(!data.pull_request.draft);
    assert!(data.pull_request.merged_at.is_none());
    assert_eq!(data.pull_request.additions, Some(10));
    assert_eq!(data.pull_request.labels.len(), 1);
    assert_eq!(data.pull_request.labels[0].name, "bug");

    // Issue comments
    assert_eq!(data.issue_comments.len(), 1);
    assert_eq!(data.issue_comments[0].id, 100);
    assert_eq!(data.issue_comments[0].user.login, "bob");
    assert_eq!(data.issue_comments[0].body, "Looks good!");

    // Review comments (flattened from threads)
    assert_eq!(data.review_comments.len(), 2);
    assert_eq!(data.review_comments[0].id, 200);
    assert_eq!(data.review_comments[0].path, "src/main.rs");
    assert!(data.review_comments[0].in_reply_to_id.is_none());
    assert_eq!(data.review_comments[0].pull_request_review_id, Some(50));
    assert_eq!(data.review_comments[1].id, 201);
    assert_eq!(data.review_comments[1].in_reply_to_id, Some(200));
    assert_eq!(data.review_comments[0].diff_hunk, Some("@@ -1,4 +1,5 @@".to_string()));

    // Review thread states
    assert_eq!(data.review_thread_states.get(&200), Some(&true));

    // Commits
    assert_eq!(data.commits.len(), 1);
    assert_eq!(data.commits[0].sha, "abc123");
    assert_eq!(data.commits[0].commit.message, "Fix parser bug");
    assert_eq!(data.commits[0].commit.author.name, "Alice");

    // Check runs (only CheckRun, not StatusContext)
    assert_eq!(data.check_runs.total_count, 1);
    assert_eq!(data.check_runs.check_runs[0].name, "CI");
    assert_eq!(data.check_runs.check_runs[0].status, "completed");
    assert_eq!(data.check_runs.check_runs[0].conclusion, Some("success".to_string()));

    // Reviews (COMMENTED filtered out)
    assert_eq!(data.reviews.len(), 1);
    assert_eq!(data.reviews[0].id, 1);
    assert_eq!(data.reviews[0].state, "APPROVED");
}

#[test]
fn merged_state_mapping() {
    let response = wrap(bare_pull_request("MERGED", Some("2025-06-01T00:00:00Z"), author("a")));
    let gql_pr = unwrap_pr(response);
    let data = convert(&gql_pr);

    assert_eq!(data.pull_request.state, "closed");
    assert_eq!(data.pull_request.merged_at, Some("2025-06-01T00:00:00Z".to_string()));
}

#[test]
fn null_author_becomes_ghost() {
    let mut pr = bare_pull_request("OPEN", None, None);
    pr.comments = GqlConnection {
        nodes: vec![GqlIssueComment {
            database_id: Some(1),
            author: None,
            body: s("hi"),
            created_at: s("2025-01-01T00:00:00Z"),
            url: s("u"),
        }],
    };
    let gql_pr = unwrap_pr(wrap(pr));
    let data = convert(&gql_pr);

    assert_eq!(data.pull_request.user.login, "ghost");
    assert_eq!(data.issue_comments[0].user.login, "ghost");
}

#[test]
fn no_check_runs_when_rollup_is_null() {
    let gql_pr = unwrap_pr(wrap(bare_pull_request("OPEN", None, author("a"))));
    let data = convert(&gql_pr);

    assert_eq!(data.check_runs.total_count, 0);
    assert!(data.check_runs.check_runs.is_empty());
}

#[test]
fn pr_state_lowercases_open_and_closed() {
    assert_eq!(convert_pr_state("OPEN"), "open");
    assert_eq!(convert_pr_state("CLOSED"), "closed");
    assert_eq!(convert_pr_state("MERGED"), "closed");
    assert_eq!(convert_pr_state("DRAFT"), "draft");
}

#[test]
fn author_login_of_deleted_account_is_ghost() {
    assert_eq!(author_login(&None), "ghost");
    assert_eq!(author_login(&author("zed")), "zed");
}

#[test]
fn nodes_without_database_id_are_dropped() {
    let mut pr = bare_pull_request("OPEN", None, author("a"));
    pr.comments = GqlConnection {
        nodes: vec![
            GqlIssueComment {
                database_id: None,
                author: author("x"),
                body: s("gone"),
                created_at: s("t"),
                url: s("u"),
            },
            GqlIssueComment {
                database_id: Some(7),
                author: author("y"),
                body: s("kept"),
                created_at: s("t"),
                url: s("u"),
            },
        ],
    };
    let data = convert(&pr);
    assert_eq!(data.issue_comments.len(), 1);
    assert_eq!(data.issue_comments[0].id, 7);
    assert_eq!(data.issue_comments[0].body, "kept");
}

#[test]
fn response_without_pull_request_is_not_found() {
    let response = GqlResponse {
        data: Some(GqlData { repository: Some(GqlRepository { pull_request: None }) }),
    };
    match pull_request_data(&response, "owner", "repo", 42) {
        Err(e) => {
            assert_eq!(e.status_code(), 404);
            assert_eq!(e.message(), "Pull request owner/repo#42 not found via GraphQL");
        }
        Ok(_) => panic!("expected not found"),
    }
    let empty = GqlResponse { data: None };
    assert!(pull_request_data(&empty, "o", "r", -3).is_err());
}

#[test]
fn response_with_pull_request_is_converted() {
    let data = pull_request_data(&wrap(full_pull_request()), "owner", "repo", 42).ok().unwrap();
    assert_eq!(data.pull_request.number, 42);
    assert_eq!(data.reviews.len(), 1);
}
