//! Pull request status and CI status rules, and the SQL filter conditions
//! that select inbox rows by those statuses.
use vstd::prelude::*;
use vstd::string::StringExecFns;

use crate::models::{GithubCheckRun, PrStatus};
use crate::rows::{FilterParams, PullRequestRow};
use crate::text::str_equals;

verus! {

/// The status shown for a pull request that is merged, closed (by its REST
/// `state`) and/or a draft: merged wins over closed, closed over draft.
pub open spec fn pr_status_of(merged: bool, closed: bool, draft: bool) -> PrStatus {
    if merged {
        PrStatus::Merged
    } else if closed {
        PrStatus::Closed
    } else if draft {
        PrStatus::Draft
    } else {
        PrStatus::Open
    }
}

/// Derive the pull request status from its fields.
pub fn derive_pr_status(merged_at: Option<&str>, state: &str, draft: bool) -> (r: PrStatus)
    ensures
        r == pr_status_of(merged_at is Some, state@ == "closed"@, draft),
{
    if merged_at.is_some() {
        PrStatus::Merged
    } else if str_equals(state, "closed") {
        PrStatus::Closed
    } else if draft {
        PrStatus::Draft
    } else {
        PrStatus::Open
    }
}

/// Derive the status of a cached pull request row.
pub fn derive_pr_status_from_row(pr: &PullRequestRow) -> (r: PrStatus)
    ensures
        r == pr_status_of(pr.merged_at is Some, pr.state@ == "closed"@, pr.draft),
{
    let merged = match &pr.merged_at {
        Some(m) => Some(m.as_str()),
        None => None,
    };
    derive_pr_status(merged, pr.state.as_str(), pr.draft)
}

/// The lowercase name of a status, as the API and the filters spell it.
pub open spec fn status_name(s: PrStatus) -> Seq<char> {
    match s {
        PrStatus::Open => "open"@,
        PrStatus::Draft => "draft"@,
        PrStatus::Merged => "merged"@,
        PrStatus::Closed => "closed"@,
    }
}

impl PrStatus {
    /// The lowercase name of this status.
    pub fn as_str(&self) -> (r: &'static str)
        ensures
            r@ == status_name(*self),
    {
        match self {
            PrStatus::Open => "open",
            PrStatus::Draft => "draft",
            PrStatus::Merged => "merged",
            PrStatus::Closed => "closed",
        }
    }
}

/// A check run that has completed.
pub open spec fn run_completed(cr: GithubCheckRun) -> bool {
    cr.status@ == "completed"@
}

/// A conclusion that does not fail the build.
pub open spec fn conclusion_passes(c: Option<String>) -> bool {
    match c {
        Some(s) => s@ == "success"@ || s@ == "skipped"@ || s@ == "neutral"@,
        None => false,
    }
}

/// A completed check run whose conclusion fails the build.
pub open spec fn run_failed(cr: GithubCheckRun) -> bool {
    run_completed(cr) && !conclusion_passes(cr.conclusion)
}

/// The overall CI status of a commit's check runs: none without runs, else
/// failure if any completed run failed, else pending if any run is not
/// completed, else success.
pub open spec fn ci_status_of(runs: Seq<GithubCheckRun>) -> Option<Seq<char>> {
    if runs.len() == 0 {
        None
    } else if exists|i: int| 0 <= i < runs.len() && run_failed(#[trigger] runs[i]) {
        Some("failure"@)
    } else if exists|i: int| 0 <= i < runs.len() && !run_completed(#[trigger] runs[i]) {
        Some("pending"@)
    } else {
        Some("success"@)
    }
}

/// Derive the overall CI status from a list of check runs.
pub fn derive_ci_status(check_runs: &[GithubCheckRun]) -> (r: Option<String>)
    ensures
        match ci_status_of(check_runs@) {
            Some(s) => r is Some && r->0@ == s,
            None => r is None,
        },
{
    if check_runs.len() == 0 {
        return None;
    }
    let mut has_failure = false;
    let mut has_pending = false;
    let mut i: usize = 0;
    while i < check_runs.len()
        invariant
            0 <= i <= check_runs@.len(),
            has_failure == exists|j: int| 0 <= j < i && run_failed(#[trigger] check_runs@[j]),
            has_pending == exists|j: int| 0 <= j < i && !run_completed(#[trigger] check_runs@[j]),
        decreases check_runs@.len() - i,
    {
        let cr = &check_runs[i];
        if !str_equals(cr.status.as_str(), "completed") {
            has_pending = true;
        } else {
            let passes = match &cr.conclusion {
                Some(c) => str_equals(c.as_str(), "success") || str_equals(c.as_str(), "skipped")
                    || str_equals(c.as_str(), "neutral"),
                None => false,
            };
            if !passes {
                has_failure = true;
            }
        }
        assert(check_runs@[i as int] == *cr);
        i = i + 1;
    }
    Some(
        if has_failure {
            String::from_str("failure")
        } else if has_pending {
            String::from_str("pending")
        } else {
            String::from_str("success")
        },
    )
}

/// The status a filter value names, if any.
pub open spec fn status_named(name: Seq<char>) -> Option<PrStatus> {
    if name == "merged"@ {
        Some(PrStatus::Merged)
    } else if name == "closed"@ {
        Some(PrStatus::Closed)
    } else if name == "draft"@ {
        Some(PrStatus::Draft)
    } else if name == "open"@ {
        Some(PrStatus::Open)
    } else {
        None
    }
}

/// The SQL predicate (over the `pr` alias) for pull requests with a status.
pub open spec fn predicate_sql(s: PrStatus) -> Seq<char> {
    match s {
        PrStatus::Merged => "pr.merged_at IS NOT NULL"@,
        PrStatus::Closed => "(pr.merged_at IS NULL AND pr.state = 'closed')"@,
        PrStatus::Draft => "(pr.merged_at IS NULL AND pr.state != 'closed' AND pr.draft = 1)"@,
        PrStatus::Open => "(pr.merged_at IS NULL AND pr.state != 'closed' AND pr.draft = 0)"@,
    }
}

/// What `predicate_sql(s)` tests of a pull request row that is merged
/// (`merged_at IS NOT NULL`), closed (`state = 'closed'`) and/or a draft.
pub open spec fn predicate_holds(s: PrStatus, merged: bool, closed: bool, draft: bool) -> bool {
    match s {
        PrStatus::Merged => merged,
        PrStatus::Closed => !merged && closed,
        PrStatus::Draft => !merged && !closed && draft,
        PrStatus::Open => !merged && !closed && !draft,
    }
}

/// The SQL predicate that is true for pull requests with the named status,
/// or None for unrecognised names.
pub fn state_predicate(state: &str) -> (r: Option<&'static str>)
    ensures
        match status_named(state@) {
            Some(s) => r is Some && r->0@ == predicate_sql(s),
            None => r is None,
        },
{
    if str_equals(state, "merged") {
        Some("pr.merged_at IS NOT NULL")
    } else if str_equals(state, "closed") {
        Some("(pr.merged_at IS NULL AND pr.state = 'closed')")
    } else if str_equals(state, "draft") {
        Some("(pr.merged_at IS NULL AND pr.state != 'closed' AND pr.draft = 1)")
    } else if str_equals(state, "open") {
        Some("(pr.merged_at IS NULL AND pr.state != 'closed' AND pr.draft = 0)")
    } else {
        None
    }
}

/// Filtering by a status selects exactly the rows displayed with that status:
/// the status predicates are mutually exclusive, cover every row, and mirror
/// the status derivation.
pub proof fn law_status_predicates_match_derivation(
    s: PrStatus,
    merged: bool,
    closed: bool,
    draft: bool,
)
    ensures
        predicate_holds(s, merged, closed, draft) <==> pr_status_of(merged, closed, draft) == s,
        predicate_holds(pr_status_of(merged, closed, draft), merged, closed, draft),
{
}

/// The SQL expression (over the `pr` alias of a LEFT JOIN) that yields the
/// status shown for an inbox row: the status name, or NULL without a pull
/// request.
pub open spec fn status_case_sql() -> Seq<char> {
    "CASE WHEN pr.merged_at IS NOT NULL THEN 'merged' WHEN pr.state = 'closed' THEN 'closed' WHEN pr.draft = 1 THEN 'draft' WHEN pr.id IS NOT NULL THEN 'open' ELSE NULL END"@
}

/// The status expression of inbox queries.
pub fn status_case() -> (r: &'static str)
    ensures
        r@ == status_case_sql(),
{
    "CASE WHEN pr.merged_at IS NOT NULL THEN 'merged' WHEN pr.state = 'closed' THEN 'closed' WHEN pr.draft = 1 THEN 'draft' WHEN pr.id IS NOT NULL THEN 'open' ELSE NULL END"
}

/// What `status_case_sql()` yields for a row: without a pull request
/// (`has_pr` false) every `pr` column is NULL and no branch but ELSE holds.
pub open spec fn case_status(has_pr: bool, merged: bool, closed: bool, draft: bool) -> Option<PrStatus> {
    if !has_pr {
        None
    } else if merged {
        Some(PrStatus::Merged)
    } else if closed {
        Some(PrStatus::Closed)
    } else if draft {
        Some(PrStatus::Draft)
    } else {
        Some(PrStatus::Open)
    }
}

/// Whether ` AND (p)` for the include list keeps a row: a NULL predicate
/// (no pull request) does not.
pub open spec fn include_keeps(s: PrStatus, has_pr: bool, merged: bool, closed: bool, draft: bool) -> bool {
    has_pr && predicate_holds(s, merged, closed, draft)
}

/// Whether ` AND (pr.id IS NULL OR NOT p)` keeps a row.
pub open spec fn exclude_keeps(s: PrStatus, has_pr: bool, merged: bool, closed: bool, draft: bool) -> bool {
    !has_pr || !predicate_holds(s, merged, closed, draft)
}

/// The status shown for an inbox row is the derived status of its pull
/// request (none without one); including a status keeps exactly the rows
/// shown with it, and excluding a status hides exactly those rows.
pub proof fn law_status_filters_match_shown_status(
    s: PrStatus,
    has_pr: bool,
    merged: bool,
    closed: bool,
    draft: bool,
)
    ensures
        case_status(has_pr, merged, closed, draft) == (if has_pr {
            Some(pr_status_of(merged, closed, draft))
        } else {
            None
        }),
        include_keeps(s, has_pr, merged, closed, draft) <==> case_status(
            has_pr,
            merged,
            closed,
            draft,
        ) == Some(s),
        exclude_keeps(s, has_pr, merged, closed, draft) <==> case_status(
            has_pr,
            merged,
            closed,
            draft,
        ) != Some(s),
{
}

/// A piece of a SQL condition: literal SQL text, or a bound parameter.
pub enum SqlPart {
    Sql(String),
    Bind(String),
}

/// The text of a `SqlPart`, tagged with whether it is a bound parameter.
pub open spec fn part_view(p: SqlPart) -> (bool, Seq<char>) {
    match p {
        SqlPart::Sql(s) => (false, s@),
        SqlPart::Bind(s) => (true, s@),
    }
}

/// The predicates of the recognised status names among `names`, in order.
pub open spec fn known_predicates(names: Seq<String>) -> Seq<Seq<char>>
    decreases names.len(),
{
    if names.len() == 0 {
        Seq::empty()
    } else {
        let prev = known_predicates(names.drop_last());
        match status_named(names.last()@) {
            Some(s) => prev.push(predicate_sql(s)),
            None => prev,
        }
    }
}

/// Literal SQL.
pub open spec fn sql(t: Seq<char>) -> (bool, Seq<char>) {
    (false, t)
}

/// A bound parameter.
pub open spec fn bind(t: Seq<char>) -> (bool, Seq<char>) {
    (true, t)
}

/// `preds` joined with ` OR `.
pub open spec fn or_joined(preds: Seq<Seq<char>>) -> Seq<(bool, Seq<char>)>
    decreases preds.len(),
{
    if preds.len() == 0 {
        Seq::empty()
    } else if preds.len() == 1 {
        seq![sql(preds[0])]
    } else {
        or_joined(preds.drop_last()).push(sql(" OR "@)).push(sql(preds.last()))
    }
}

/// ` AND (pr.id IS NULL OR NOT p)` for each of `preds`: excluding a status
/// hides pull requests with that status, never rows without a pull request
/// (for which `p` is NULL in SQL).
pub open spec fn and_not_each(preds: Seq<Seq<char>>) -> Seq<(bool, Seq<char>)>
    decreases preds.len(),
{
    if preds.len() == 0 {
        Seq::empty()
    } else {
        and_not_each(preds.drop_last()).push(sql(" AND (pr.id IS NULL OR NOT "@)).push(
            sql(preds.last()),
        ).push(sql(")"@))
    }
}

/// The conditions appended to an inbox query's `WHERE` clause for `f`, in order.
pub open spec fn filter_pieces(f: FilterParams) -> Seq<(bool, Seq<char>)> {
    let repo = match f.repo {
        Some(r) => seq![sql(" AND n.repository = "@), bind(r@)],
        None => Seq::empty(),
    };
    let team = match f.team {
        Some(t) => seq![
            sql(" AND EXISTS (SELECT 1 FROM json_each(pr.teams) WHERE value = "@),
            bind(t@),
            sql(")"@),
        ],
        None => Seq::empty(),
    };
    let author = match f.author {
        Some(a) => seq![sql(" AND pr.author = "@), bind(a@)],
        None => Seq::empty(),
    };
    let includes = known_predicates(f.state_include@);
    let included = if includes.len() == 0 {
        Seq::empty()
    } else {
        seq![sql(" AND ("@)] + or_joined(includes) + seq![sql(")"@)]
    };
    repo + team + author + included + and_not_each(known_predicates(f.state_exclude@))
}

/// The recognised status predicates of `names`, in order.
fn predicates_of(names: &Vec<String>) -> (r: Vec<&'static str>)
    ensures
        r@.len() == known_predicates(names@).len(),
        forall|i: int| 0 <= i < r@.len() ==> (#[trigger] r@[i])@ == known_predicates(names@)[i],
{
    let mut out: Vec<&'static str> = Vec::new();
    let mut i: usize = 0;
    while i < names.len()
        invariant
            0 <= i <= names@.len(),
            out@.len() == known_predicates(names@.take(i as int)).len(),
            forall|k: int|
                0 <= k < out@.len() ==> (#[trigger] out@[k])@ == known_predicates(
                    names@.take(i as int),
                )[k],
        decreases names@.len() - i,
    {
        assert(names@.take(i + 1).drop_last() =~= names@.take(i as int));
        assert(names@.take(i + 1).last() == names@[i as int]);
        match state_predicate(names[i].as_str()) {
            Some(p) => {
                out.push(p);
            },
            None => {},
        }
        i = i + 1;
    }
    assert(names@.take(names@.len() as int) =~= names@);
    out
}

/// `parts` renders exactly as `expected`.
pub open spec fn parts_match(parts: Seq<SqlPart>, expected: Seq<(bool, Seq<char>)>) -> bool {
    parts.len() == expected.len() && forall|i: int|
        0 <= i < parts.len() ==> part_view(#[trigger] parts[i]) == expected[i]
}

/// Append one part.
fn push_part(parts: &mut Vec<SqlPart>, is_bind: bool, t: &str, Ghost(expected): Ghost<
    Seq<(bool, Seq<char>)>,
>)
    requires
        parts_match(old(parts)@, expected),
    ensures
        parts_match(final(parts)@, expected.push((is_bind, t@))),
{
    if is_bind {
        parts.push(SqlPart::Bind(String::from_str(t)));
    } else {
        parts.push(SqlPart::Sql(String::from_str(t)));
    }
    assert(forall|i: int| 0 <= i < old(parts)@.len() ==> parts@[i] == old(parts)@[i]);
}

/// The conditions for an inbox query with `filters`: each `Sql` part is
/// appended verbatim, each `Bind` part as a bound parameter. Status
/// predicates come from a fixed allowlist, so no user text reaches the SQL.
#[verifier::rlimit(40)]
pub fn filter_conditions(filters: &FilterParams) -> (r: Vec<SqlPart>)
    ensures
        parts_match(r@, filter_pieces(*filters)),
{
    let mut parts: Vec<SqlPart> = Vec::new();
    let ghost mut expect: Seq<(bool, Seq<char>)> = Seq::empty();
    let ghost e0 = expect;
    match &filters.repo {
        Some(repo) => {
            push_part(&mut parts, false, " AND n.repository = ", Ghost(expect));
            proof { expect = expect.push(sql(" AND n.repository = "@)); }
            push_part(&mut parts, true, repo.as_str(), Ghost(expect));
            proof { expect = expect.push(bind(repo@)); }
        },
        None => {},
    }
    let ghost e1 = expect;
    match &filters.team {
        Some(team) => {
            push_part(
                &mut parts,
                false,
                " AND EXISTS (SELECT 1 FROM json_each(pr.teams) WHERE value = ",
                Ghost(expect),
            );
            proof {
                expect = expect.push(
                    sql(" AND EXISTS (SELECT 1 FROM json_each(pr.teams) WHERE value = "@),
                );
            }
            push_part(&mut parts, true, team.as_str(), Ghost(expect));
            proof { expect = expect.push(bind(team@)); }
            push_part(&mut parts, false, ")", Ghost(expect));
            proof { expect = expect.push(sql(")"@)); }
        },
        None => {},
    }
    let ghost e2 = expect;
    match &filters.author {
        Some(author) => {
            push_part(&mut parts, false, " AND pr.author = ", Ghost(expect));
            proof { expect = expect.push(sql(" AND pr.author = "@)); }
            push_part(&mut parts, true, author.as_str(), Ghost(expect));
            proof { expect = expect.push(bind(author@)); }
        },
        None => {},
    }
    let ghost e3 = expect;
    let includes = predicates_of(&filters.state_include);
    let ghost inc = known_predicates(filters.state_include@);
    if includes.len() > 0 {
        push_part(&mut parts, false, " AND (", Ghost(expect));
        proof { expect = expect.push(sql(" AND ("@)); }
        let ghost base = expect;
        let mut i: usize = 0;
        assert(or_joined(inc.take(0)) =~= Seq::<(bool, Seq<char>)>::empty());
        assert(base + or_joined(inc.take(0)) =~= expect);
        while i < includes.len()
            invariant
                includes@.len() == inc.len(),
                inc.len() > 0,
                forall|k: int| 0 <= k < includes@.len() ==> (#[trigger] includes@[k])@ == inc[k],
                0 <= i <= includes@.len(),
                expect == base + or_joined(inc.take(i as int)),
                parts_match(parts@, expect),
            decreases includes@.len() - i,
        {
            assert(inc.take(i + 1).drop_last() =~= inc.take(i as int));
            assert(inc.take(i + 1).last() == inc[i as int]);
            if i > 0 {
                push_part(&mut parts, false, " OR ", Ghost(expect));
                proof { expect = expect.push(sql(" OR "@)); }
            }
            push_part(&mut parts, false, includes[i], Ghost(expect));
            proof {
                expect = expect.push(sql(inc[i as int]));
                if i == 0 {
                    assert(or_joined(inc.take(1)) =~= seq![sql(inc[0])]);
                }
                assert(expect =~= base + or_joined(inc.take(i + 1)));
            }
            i = i + 1;
        }
        assert(inc.take(includes@.len() as int) =~= inc);
        push_part(&mut parts, false, ")", Ghost(expect));
        proof { expect = expect.push(sql(")"@)); }
        assert(expect =~= e3 + (seq![sql(" AND ("@)] + or_joined(inc) + seq![sql(")"@)]));
    } else {
        assert(expect =~= e3 + Seq::<(bool, Seq<char>)>::empty());
    }
    let ghost e4 = expect;
    let excludes = predicates_of(&filters.state_exclude);
    let ghost exc = known_predicates(filters.state_exclude@);
    let mut j: usize = 0;
    assert(and_not_each(exc.take(0)) =~= Seq::<(bool, Seq<char>)>::empty());
    assert(e4 + and_not_each(exc.take(0)) =~= expect);
    while j < excludes.len()
        invariant
            excludes@.len() == exc.len(),
            forall|k: int| 0 <= k < excludes@.len() ==> (#[trigger] excludes@[k])@ == exc[k],
            0 <= j <= excludes@.len(),
            expect == e4 + and_not_each(exc.take(j as int)),
            parts_match(parts@, expect),
        decreases excludes@.len() - j,
    {
        assert(exc.take(j + 1).drop_last() =~= exc.take(j as int));
        assert(exc.take(j + 1).last() == exc[j as int]);
        push_part(&mut parts, false, " AND (pr.id IS NULL OR NOT ", Ghost(expect));
        proof { expect = expect.push(sql(" AND (pr.id IS NULL OR NOT "@)); }
        push_part(&mut parts, false, excludes[j], Ghost(expect));
        proof { expect = expect.push(sql(exc[j as int])); }
        push_part(&mut parts, false, ")", Ghost(expect));
        proof {
            expect = expect.push(sql(")"@));
            assert(expect =~= e4 + and_not_each(exc.take(j + 1)));
        }
        j = j + 1;
    }
    assert(exc.take(excludes@.len() as int) =~= exc);
    assert(expect =~= filter_pieces(*filters));
    parts
}

/// Whether some run of `xs` and some run of `ys` satisfy `p` alike, for runs
/// that are the same multiset.
proof fn lemma_same_runs_same_exists(
    xs: Seq<GithubCheckRun>,
    ys: Seq<GithubCheckRun>,
    p: spec_fn(GithubCheckRun) -> bool,
)
    requires
        xs.to_multiset() == ys.to_multiset(),
    ensures
        (exists|i: int| 0 <= i < xs.len() && p(#[trigger] xs[i])) <==> (exists|j: int|
            0 <= j < ys.len() && p(#[trigger] ys[j])),
{
    broadcast use vstd::seq_lib::group_to_multiset_ensures;

    if exists|i: int| 0 <= i < xs.len() && p(#[trigger] xs[i]) {
        let i = choose|i: int| 0 <= i < xs.len() && p(#[trigger] xs[i]);
        assert(xs.contains(xs[i]));
        assert(ys.to_multiset().count(xs[i]) > 0);
        assert(ys.contains(xs[i]));
        let j = choose|j: int| 0 <= j < ys.len() && ys[j] == xs[i];
        assert(p(ys[j]));
    }
    if exists|j: int| 0 <= j < ys.len() && p(#[trigger] ys[j]) {
        let j = choose|j: int| 0 <= j < ys.len() && p(#[trigger] ys[j]);
        assert(ys.contains(ys[j]));
        assert(xs.to_multiset().count(ys[j]) > 0);
        assert(xs.contains(ys[j]));
        let i = choose|i: int| 0 <= i < xs.len() && xs[i] == ys[j];
        assert(p(xs[i]));
    }
}

/// The CI status of a commit does not depend on the order of its check runs.
pub proof fn law_ci_status_ignores_order(xs: Seq<GithubCheckRun>, ys: Seq<GithubCheckRun>)
    requires
        xs.to_multiset() == ys.to_multiset(),
    ensures
        ci_status_of(xs) == ci_status_of(ys),
{
    broadcast use vstd::seq_lib::group_to_multiset_ensures;

    xs.to_multiset_ensures();
    ys.to_multiset_ensures();
    assert(xs.len() == ys.len());
    lemma_same_runs_same_exists(xs, ys, |c: GithubCheckRun| run_failed(c));
    lemma_same_runs_same_exists(xs, ys, |c: GithubCheckRun| !run_completed(c));
}

/// A failing check run fails the CI status whatever other runs come after.
pub proof fn law_ci_failure_is_sticky(xs: Seq<GithubCheckRun>, zs: Seq<GithubCheckRun>)
    requires
        ci_status_of(xs) == Some("failure"@),
    ensures
        ci_status_of(xs + zs) == Some("failure"@),
{
    reveal_strlit("failure");
    reveal_strlit("pending");
    reveal_strlit("success");
    assert("failure"@[0] != "pending"@[0]);
    assert("failure"@[0] != "success"@[0]);
    let i = choose|i: int| 0 <= i < xs.len() && run_failed(#[trigger] xs[i]);
    assert((xs + zs)[i] == xs[i]);
}

/// A filter's conditions as SQL text: bound parameters are placeholders.
pub open spec fn sql_shape(p: (bool, Seq<char>)) -> (bool, Seq<char>) {
    if p.0 {
        (true, Seq::empty())
    } else {
        p
    }
}

/// Filter values reach the query only as bound parameters: two filters that
/// set the same fields and name the same recognised statuses give the same
/// SQL text, whatever the repository, team and author strings are, and
/// whatever unrecognised status names they hold.
pub proof fn law_filter_text_ignores_bound_values(f1: FilterParams, f2: FilterParams)
    requires
        f1.repo is Some <==> f2.repo is Some,
        f1.team is Some <==> f2.team is Some,
        f1.author is Some <==> f2.author is Some,
        known_predicates(f1.state_include@) == known_predicates(f2.state_include@),
        known_predicates(f1.state_exclude@) == known_predicates(f2.state_exclude@),
    ensures
        filter_pieces(f1).len() == filter_pieces(f2).len(),
        forall|i: int|
            0 <= i < filter_pieces(f1).len() ==> sql_shape(#[trigger] filter_pieces(f1)[i])
                == sql_shape(filter_pieces(f2)[i]),
{
    let p1 = filter_pieces(f1);
    let p2 = filter_pieces(f2);
    assert(p1.len() == p2.len());
    assert forall|i: int| 0 <= i < p1.len() implies sql_shape(#[trigger] p1[i]) == sql_shape(
        p2[i],
    ) by {
    }
}

/// Excluding statuses hides every one of them: the exclusion conditions are
/// one clause per excluded predicate, in order, each keeping only rows
/// without a pull request or whose pull request fails that predicate.
pub proof fn law_each_excluded_status_gets_a_clause(preds: Seq<Seq<char>>)
    ensures
        and_not_each(preds).len() == 3 * preds.len(),
        forall|k: int|
            0 <= k < preds.len() ==> {
                &&& and_not_each(preds)[3 * k] == (false, " AND (pr.id IS NULL OR NOT "@)
                &&& and_not_each(preds)[3 * k + 1] == (false, #[trigger] preds[k])
                &&& and_not_each(preds)[3 * k + 2] == (false, ")"@)
            },
    decreases preds.len(),
{
    if preds.len() > 0 {
        let prev = preds.drop_last();
        law_each_excluded_status_gets_a_clause(prev);
        assert forall|k: int| 0 <= k < preds.len() implies {
            &&& and_not_each(preds)[3 * k] == (false, " AND (pr.id IS NULL OR NOT "@)
            &&& and_not_each(preds)[3 * k + 1] == (false, #[trigger] preds[k])
            &&& and_not_each(preds)[3 * k + 2] == (false, ")"@)
        } by {
            if k < prev.len() {
                assert(prev[k] == preds[k]);
            }
        }
    }
}

/// A completed check run whose conclusion is anything but success, skipped
/// or neutral (cancelled, timed out, failure, none) fails the CI status,
/// whatever the other runs are.
pub proof fn law_completed_run_without_passing_conclusion_fails(runs: Seq<GithubCheckRun>, i: int)
    requires
        0 <= i < runs.len(),
        runs[i].status@ == "completed"@,
        !(runs[i].conclusion matches Some(c) && (c@ == "success"@ || c@ == "skipped"@ || c@
            == "neutral"@)),
    ensures
        ci_status_of(runs) == Some("failure"@),
{
    assert(run_failed(runs[i]));
}

/// Runs that all completed with success, skipped or neutral give success.
pub proof fn law_all_passing_runs_succeed(runs: Seq<GithubCheckRun>)
    requires
        runs.len() > 0,
        forall|i: int|
            0 <= i < runs.len() ==> (#[trigger] runs[i]).status@ == "completed"@ && (
            runs[i].conclusion matches Some(c) && (c@ == "success"@ || c@ == "skipped"@ || c@
                == "neutral"@)),
    ensures
        ci_status_of(runs) == Some("success"@),
{
}

/// With no failed run, a run that has not completed makes the status pending.
pub proof fn law_unfinished_run_is_pending(runs: Seq<GithubCheckRun>, i: int)
    requires
        0 <= i < runs.len(),
        runs[i].status@ != "completed"@,
        forall|j: int|
            0 <= j < runs.len() && (#[trigger] runs[j]).status@ == "completed"@ ==> (
            runs[j].conclusion matches Some(c) && (c@ == "success"@ || c@ == "skipped"@ || c@
                == "neutral"@)),
    ensures
        ci_status_of(runs) == Some("pending"@),
{
    assert(!run_completed(runs[i]));
}

/// Without check runs there is no CI status.
pub proof fn law_no_runs_no_ci_status()
    ensures
        ci_status_of(Seq::<GithubCheckRun>::empty()) is None,
{
}

/// Including statuses keeps a row shown with any one of them: the include
/// condition lists every included predicate, in order, each after the
/// first preceded by ` OR `.
pub proof fn law_included_statuses_are_alternatives(preds: Seq<Seq<char>>)
    requires
        preds.len() > 0,
    ensures
        or_joined(preds).len() == 2 * preds.len() - 1,
        forall|k: int|
            0 <= k < preds.len() ==> {
                &&& or_joined(preds)[2 * k] == (false, #[trigger] preds[k])
                &&& k > 0 ==> or_joined(preds)[2 * k - 1] == (false, " OR "@)
            },
    decreases preds.len(),
{
    if preds.len() > 1 {
        let prev = preds.drop_last();
        law_included_statuses_are_alternatives(prev);
        assert forall|k: int| 0 <= k < preds.len() implies {
            &&& or_joined(preds)[2 * k] == (false, #[trigger] preds[k])
            &&& k > 0 ==> or_joined(preds)[2 * k - 1] == (false, " OR "@)
        } by {
            if k < prev.len() {
                assert(prev[k] == preds[k]);
            }
        }
    }
}

/// The recognised status names of a filter, in order, each as its predicate;
/// unrecognised names are skipped.
pub proof fn law_recognised_statuses_become_predicates(names: Seq<String>)
    ensures
        known_predicates(names) == names.filter(|n: String| status_named(n@) is Some).map_values(
            |n: String| predicate_sql(status_named(n@)->0),
        ),
    decreases names.len(),
{
    reveal(Seq::filter);
    if names.len() > 0 {
        law_recognised_statuses_become_predicates(names.drop_last());
        let f = names.drop_last().filter(|n: String| status_named(n@) is Some);
        if status_named(names.last()@) is Some {
            assert(f.push(names.last()).map_values(|n: String| predicate_sql(status_named(n@)->0))
                =~= f.map_values(|n: String| predicate_sql(status_named(n@)->0)).push(
                predicate_sql(status_named(names.last()@)->0),
            ));
        }
    }
}

} // verus!
