use gh_inbox::models::{GithubCheckRun, PrStatus};
use gh_inbox::pr_status::{
    derive_ci_status, derive_pr_status, derive_pr_status_from_row, filter_conditions,
    state_predicate, SqlPart,
};
use gh_inbox::rows::{FilterParams, PullRequestRow};

fn run(status: &str, conclusion: Option<&str>) -> GithubCheckRun {
    GithubCheckRun {
        id: 1,
        name: "CI".to_string(),
        status: status.to_string(),
        conclusion: conclusion.map(|c| c.to_string()),
    }
}

fn row(state: &str, draft: bool, merged_at: Option<&str>) -> PullRequestRow {
    PullRequestRow {
        id: 42,
        title: "T".to_string(),
        repo: "owner/repo".to_string(),
        author: "alice".to_string(),
        author_avatar_url: None,
        url: "u".to_string(),
        ci_status: None,
        last_viewed_at: None,
        body: String::new(),
        body_html: String::new(),
        state: state.to_string(),
        head_sha: "abc".to_string(),
        additions: 0,
        deletions: 0,
        changed_files: 0,
        draft,
        merged_at: merged_at.map(|m| m.to_string()),
        teams: None,
        labels: "[]".to_string(),
    }
}

#[test]
fn merged_wins_over_closed_and_draft() {
    assert_eq!(derive_pr_status(Some("2025-01-01T00:00:00Z"), "closed", true), PrStatus::Merged);
}

#[test]
fn closed_wins_over_draft() {
    assert_eq!(derive_pr_status(None, "closed", true), PrStatus::Closed);
}

#[test]
fn draft_and_open() {
    assert_eq!(derive_pr_status(None, "open", true), PrStatus::Draft);
    assert_eq!(derive_pr_status(None, "open", false), PrStatus::Open);
}

#[test]
fn status_from_cached_row() {
    assert_eq!(derive_pr_status_from_row(&row("closed", false, Some("t"))), PrStatus::Merged);
    assert_eq!(derive_pr_status_from_row(&row("open", true, None)), PrStatus::Draft);
}

#[test]
fn status_names() {
    assert_eq!(PrStatus::Open.as_str(), "open");
    assert_eq!(PrStatus::Draft.as_str(), "draft");
    assert_eq!(PrStatus::Merged.as_str(), "merged");
    assert_eq!(PrStatus::Closed.as_str(), "closed");
}

#[test]
fn no_runs_means_no_ci_status() {
    assert_eq!(derive_ci_status(&[]), None);
}

#[test]
fn any_failed_run_fails_ci() {
    let runs = vec![run("completed", Some("success")), run("in_progress", None), run("completed", Some("failure"))];
    assert_eq!(derive_ci_status(&runs), Some("failure".to_string()));
}

#[test]
fn completed_run_without_conclusion_counts_as_failed() {
    assert_eq!(derive_ci_status(&[run("completed", None)]), Some("failure".to_string()));
}

#[test]
fn unfinished_run_is_pending() {
    let runs = vec![run("completed", Some("success")), run("queued", None)];
    assert_eq!(derive_ci_status(&runs), Some("pending".to_string()));
}

#[test]
fn passing_conclusions_are_success() {
    let runs = vec![
        run("completed", Some("success")),
        run("completed", Some("skipped")),
        run("completed", Some("neutral")),
    ];
    assert_eq!(derive_ci_status(&runs), Some("success".to_string()));
}

#[test]
fn state_predicates_allowlist() {
    assert_eq!(state_predicate("merged"), Some("pr.merged_at IS NOT NULL"));
    assert_eq!(state_predicate("closed"), Some("(pr.merged_at IS NULL AND pr.state = 'closed')"));
    assert_eq!(
        state_predicate("draft"),
        Some("(pr.merged_at IS NULL AND pr.state != 'closed' AND pr.draft = 1)")
    );
    assert_eq!(
        state_predicate("open"),
        Some("(pr.merged_at IS NULL AND pr.state != 'closed' AND pr.draft = 0)")
    );
    assert_eq!(state_predicate("'; DROP TABLE x; --"), None);
}

/// Each status filter selects exactly the rows shown with that status.
#[test]
fn status_filter_matches_displayed_status() {
    for merged in [false, true] {
        for closed in [false, true] {
            for draft in [false, true] {
                let shown = derive_pr_status(if merged { Some("t") } else { None }, if closed { "closed" } else { "open" }, draft);
                let holds = |name: &str| match name {
                    "merged" => merged,
                    "closed" => !merged && closed,
                    "draft" => !merged && !closed && draft,
                    _ => !merged && !closed && !draft,
                };
                for name in ["open", "draft", "merged", "closed"] {
                    assert!(state_predicate(name).is_some());
                    assert_eq!(holds(name), shown.as_str() == name);
                }
            }
        }
    }
}

fn render(parts: &[SqlPart]) -> (String, Vec<String>) {
    let mut sql = String::new();
    let mut binds = Vec::new();
    for p in parts {
        match p {
            SqlPart::Sql(s) => sql.push_str(s),
            SqlPart::Bind(b) => {
                sql.push('?');
                binds.push(b.clone());
            }
        }
    }
    (sql, binds)
}

#[test]
fn no_filters_add_nothing() {
    let f = FilterParams { repo: None, team: None, author: None, state_include: vec![], state_exclude: vec![] };
    assert!(filter_conditions(&f).is_empty());
}

#[test]
fn all_filters_in_order() {
    let f = FilterParams {
        repo: Some("acme/api".to_string()),
        team: Some("acme/platform".to_string()),
        author: Some("bob".to_string()),
        state_include: vec!["open".to_string(), "bogus".to_string(), "draft".to_string()],
        state_exclude: vec!["merged".to_string()],
    };
    let (sql, binds) = render(&filter_conditions(&f));
    assert_eq!(
        sql,
        " AND n.repository = ? AND EXISTS (SELECT 1 FROM json_each(pr.teams) WHERE value = ?) AND pr.author = ? AND ((pr.merged_at IS NULL AND pr.state != 'closed' AND pr.draft = 0) OR (pr.merged_at IS NULL AND pr.state != 'closed' AND pr.draft = 1)) AND (pr.id IS NULL OR NOT pr.merged_at IS NOT NULL)"
    );
    assert_eq!(binds, vec!["acme/api".to_string(), "acme/platform".to_string(), "bob".to_string()]);
}

#[test]
fn unknown_include_statuses_add_no_clause() {
    let f = FilterParams {
        repo: None,
        team: None,
        author: None,
        state_include: vec!["bogus".to_string()],
        state_exclude: vec![],
    };
    assert!(filter_conditions(&f).is_empty());
}

#[test]
fn ci_status_ignores_run_order_and_failure_sticks() {
    let a = vec![run("queued", None), run("completed", Some("failure")), run("completed", Some("success"))];
    let b = vec![run("completed", Some("success")), run("completed", Some("failure")), run("queued", None)];
    assert_eq!(derive_ci_status(&a), derive_ci_status(&b));
    let mut more = a.clone();
    more.push(run("completed", Some("success")));
    more.push(run("in_progress", None));
    assert_eq!(derive_ci_status(&more), Some("failure".to_string()));
}

#[test]
fn filter_values_never_reach_sql_text() {
    let f1 = FilterParams {
        repo: Some("acme/api".to_string()),
        team: None,
        author: Some("bob".to_string()),
        state_include: vec!["open".to_string()],
        state_exclude: vec!["closed".to_string()],
    };
    let f2 = FilterParams {
        repo: Some("x'); DROP TABLE notifications; --".to_string()),
        team: None,
        author: Some("eve".to_string()),
        state_include: vec!["junk".to_string(), "open".to_string()],
        state_exclude: vec!["closed".to_string(), "nope".to_string()],
    };
    let (sql1, binds1) = render(&filter_conditions(&f1));
    let (sql2, binds2) = render(&filter_conditions(&f2));
    assert_eq!(sql1, sql2);
    assert_eq!(binds2, vec!["x'); DROP TABLE notifications; --".to_string(), "eve".to_string()]);
    assert_ne!(binds1, binds2);
}

#[test]
fn excluding_a_status_keeps_rows_without_a_pull_request() {
    let f = FilterParams {
        repo: None,
        team: None,
        author: None,
        state_include: vec![],
        state_exclude: vec!["closed".to_string()],
    };
    let (sql, _) = render(&filter_conditions(&f));
    assert_eq!(sql, " AND (pr.id IS NULL OR NOT (pr.merged_at IS NULL AND pr.state = 'closed'))");
}

#[test]
fn status_expression_of_inbox_rows() {
    assert_eq!(
        gh_inbox::pr_status::status_case(),
        "CASE WHEN pr.merged_at IS NOT NULL THEN 'merged' WHEN pr.state = 'closed' THEN 'closed' WHEN pr.draft = 1 THEN 'draft' WHEN pr.id IS NOT NULL THEN 'open' ELSE NULL END"
    );
}
