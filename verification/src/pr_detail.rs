//! The pull request detail view: comments grouped into threads, and the
//! shapes the detail endpoint responds with.
use vstd::prelude::*;
use vstd::string::StringExecFns;

use crate::markdown::{render_markdown, rendered_markdown};
use crate::models::{PrInfoUpdatedData, PrNewComment, ReviewSummary};
use crate::pr_cache::PrFetchResult;
use crate::pr_status::{derive_pr_status_from_row, pr_status_of};
use crate::rows::{CheckRunRow, CommentRow, CommitRow, PullRequestRow, ReviewRow};
use crate::text::{
    chars_of, compare_chars, decimal, i64_to_string, lemma_seq_lt_transitive,
    lemma_seq_lt_trichotomy, seq_lt,
};

verus! {

/// A comment with its rendered body.
pub struct CommentResponse {
    pub inner: CommentRow,
    pub body_html: String,
}

/// The comments of one thread.
pub struct ThreadResponse {
    pub thread_id: String,
    pub path: Option<String>,
    pub resolved: bool,
    pub comments: Vec<CommentResponse>,
}

/// A pull request with its rendered body.
pub struct PullRequestResponse {
    pub inner: PullRequestRow,
    pub body_html: String,
}

/// A review as the detail view shows it.
pub struct ReviewResponse {
    pub id: i64,
    pub reviewer: String,
    pub reviewer_avatar_url: Option<String>,
    pub state: String,
    pub body: String,
    pub submitted_at: String,
    pub html_url: String,
}

/// A label as the detail view shows it.
pub struct LabelResponse {
    pub name: String,
    pub color: String,
}

/// A check run as the detail view shows it.
pub struct CheckRunResponse {
    pub name: String,
    pub status: String,
    pub conclusion: Option<String>,
}

/// The detail view of a pull request.
pub struct PrDetailResponse {
    pub pull_request: PullRequestResponse,
    pub threads: Vec<ThreadResponse>,
    pub commits: Vec<CommitRow>,
    pub check_runs: Vec<CheckRunResponse>,
    pub previous_viewed_at: Option<String>,
    pub reviews: Vec<ReviewResponse>,
    pub labels: Vec<LabelResponse>,
}

/// The thread a comment belongs to; comments without one form a thread of
/// their own, `orphan:{id}`.
pub open spec fn thread_key(c: CommentRow) -> Seq<char> {
    match c.thread_id {
        Some(t) => t@,
        None => "orphan:"@ + decimal(c.id as int),
    }
}

/// The positions of the comments of thread `k`, in order.
pub open spec fn member_indices(cs: Seq<CommentRow>, k: Seq<char>) -> Seq<int>
    decreases cs.len(),
{
    if cs.len() == 0 {
        Seq::empty()
    } else {
        let prev = member_indices(cs.drop_last(), k);
        if thread_key(cs.last()) == k {
            prev.push(cs.len() - 1)
        } else {
            prev
        }
    }
}

/// The first path among the comments at positions `idx`.
pub open spec fn first_path(cs: Seq<CommentRow>, idx: Seq<int>) -> Option<String>
    decreases idx.len(),
{
    if idx.len() == 0 {
        None
    } else {
        match first_path(cs, idx.drop_last()) {
            Some(p) => Some(p),
            None => cs[idx.last()].path,
        }
    }
}

/// The positions `member_indices` lists are the comments of that thread.
pub proof fn lemma_member_indices_sound(cs: Seq<CommentRow>, k: Seq<char>)
    ensures
        forall|m: int|
            0 <= m < member_indices(cs, k).len() ==> 0 <= #[trigger] member_indices(cs, k)[m]
                < cs.len() && thread_key(cs[member_indices(cs, k)[m]]) == k,
    decreases cs.len(),
{
    if cs.len() > 0 {
        let prev = cs.drop_last();
        lemma_member_indices_sound(prev, k);
        assert forall|m: int| 0 <= m < member_indices(cs, k).len() implies 0
            <= #[trigger] member_indices(cs, k)[m] < cs.len() && thread_key(
            cs[member_indices(cs, k)[m]],
        ) == k by {
            if m < member_indices(prev, k).len() {
                assert(member_indices(cs, k)[m] == member_indices(prev, k)[m]);
                assert(prev[member_indices(prev, k)[m]] == cs[member_indices(prev, k)[m]]);
            }
        }
    }
}

/// A comment is among the members of its own thread.
proof fn lemma_member_indices_complete(cs: Seq<CommentRow>, i: int)
    requires
        0 <= i < cs.len(),
    ensures
        member_indices(cs, thread_key(cs[i])).contains(i),
    decreases cs.len(),
{
    let k = thread_key(cs[i]);
    if i < cs.len() - 1 {
        lemma_member_indices_complete(cs.drop_last(), i);
        let prev = member_indices(cs.drop_last(), k);
        let j = choose|j: int| 0 <= j < prev.len() && prev[j] == i;
        if thread_key(cs.last()) == k {
            assert(member_indices(cs, k)[j] == i);
        } else {
            assert(member_indices(cs, k) == prev);
        }
    } else {
        assert(member_indices(cs, k).last() == i);
    }
}

/// Grouping comments into threads partitions them: each comment is a member
/// of exactly one thread, the one named by its thread id.
pub proof fn law_each_comment_in_exactly_one_thread(
    cs: Seq<CommentRow>,
    htmls: Seq<String>,
    threads: Seq<ThreadResponse>,
    i: int,
)
    requires
        threads_built(cs, htmls, threads),
        0 <= i < cs.len(),
    ensures
        exists|t: int|
            0 <= t < threads.len() && (#[trigger] threads[t]).thread_id@ == thread_key(cs[i])
                && member_indices(cs, threads[t].thread_id@).contains(i),
        forall|t1: int, t2: int|
            0 <= t1 < threads.len() && 0 <= t2 < threads.len() && member_indices(
                cs,
                (#[trigger] threads[t1]).thread_id@,
            ).contains(i) && member_indices(cs, (#[trigger] threads[t2]).thread_id@).contains(i)
                ==> t1 == t2,
{
    lemma_member_indices_complete(cs, i);
    let t = choose|t: int|
        0 <= t < threads.len() && (#[trigger] threads[t]).thread_id@ == thread_key(cs[i]);
    assert(threads[t].thread_id@ == thread_key(cs[i]));
    assert forall|t1: int, t2: int|
        0 <= t1 < threads.len() && 0 <= t2 < threads.len() && member_indices(
            cs,
            (#[trigger] threads[t1]).thread_id@,
        ).contains(i) && member_indices(cs, (#[trigger] threads[t2]).thread_id@).contains(i)
        implies t1 == t2 by {
        lemma_member_indices_sound(cs, threads[t1].thread_id@);
        lemma_member_indices_sound(cs, threads[t2].thread_id@);
        let m1 = choose|m: int|
            0 <= m < member_indices(cs, threads[t1].thread_id@).len() && member_indices(
                cs,
                threads[t1].thread_id@,
            )[m] == i;
        let m2 = choose|m: int|
            0 <= m < member_indices(cs, threads[t2].thread_id@).len() && member_indices(
                cs,
                threads[t2].thread_id@,
            )[m] == i;
        assert(thread_key(cs[member_indices(cs, threads[t1].thread_id@)[m1]])
            == threads[t1].thread_id@);
        assert(thread_key(cs[member_indices(cs, threads[t2].thread_id@)[m2]])
            == threads[t2].thread_id@);
        if t1 < t2 {
            lemma_seq_lt_trichotomy(threads[t1].thread_id@, threads[t2].thread_id@);
        } else if t2 < t1 {
            lemma_seq_lt_trichotomy(threads[t2].thread_id@, threads[t1].thread_id@);
        }
    }
}

/// The number of comments listed over the threads `ts`.
pub open spec fn comments_listed(ts: Seq<ThreadResponse>) -> nat
    decreases ts.len(),
{
    if ts.len() == 0 {
        0
    } else {
        comments_listed(ts.drop_last()) + ts.last().comments@.len()
    }
}

/// The ids of `ts` are pairwise distinct.
spec fn distinct_ids(ts: Seq<ThreadResponse>) -> bool {
    forall|i: int, j: int|
        0 <= i < j < ts.len() ==> (#[trigger] ts[i]).thread_id@ != (#[trigger] ts[j]).thread_id@
}

/// Some thread of `ts` has id `k`.
spec fn has_id(ts: Seq<ThreadResponse>, k: Seq<char>) -> bool {
    exists|t: int| 0 <= t < ts.len() && (#[trigger] ts[t]).thread_id@ == k
}

/// The members of all thread ids of `ts`, counted per thread.
spec fn members_total(cs: Seq<CommentRow>, ts: Seq<ThreadResponse>) -> nat
    decreases ts.len(),
{
    if ts.len() == 0 {
        0
    } else {
        members_total(cs, ts.drop_last()) + member_indices(cs, ts.last().thread_id@).len()
    }
}

/// The number of threads of `ts` with id `k`.
spec fn id_count(ts: Seq<ThreadResponse>, k: Seq<char>) -> nat
    decreases ts.len(),
{
    if ts.len() == 0 {
        0
    } else {
        id_count(ts.drop_last(), k) + if ts.last().thread_id@ == k {
            1nat
        } else {
            0nat
        }
    }
}

/// The comments of `cs` whose thread id is among those of `ts`.
spec fn covered_count(cs: Seq<CommentRow>, ts: Seq<ThreadResponse>) -> nat
    decreases cs.len(),
{
    if cs.len() == 0 {
        0
    } else {
        covered_count(cs.drop_last(), ts) + if has_id(ts, thread_key(cs.last())) {
            1nat
        } else {
            0nat
        }
    }
}

proof fn lemma_id_count(ts: Seq<ThreadResponse>, k: Seq<char>)
    requires
        distinct_ids(ts),
    ensures
        id_count(ts, k) == if has_id(ts, k) {
            1nat
        } else {
            0nat
        },
    decreases ts.len(),
{
    if ts.len() > 0 {
        let prev = ts.drop_last();
        assert(distinct_ids(prev)) by {
            assert forall|i: int, j: int| 0 <= i < j < prev.len() implies (#[trigger] prev[i]).thread_id@
                != (#[trigger] prev[j]).thread_id@ by {
                assert(prev[i] == ts[i] && prev[j] == ts[j]);
            }
        }
        lemma_id_count(prev, k);
        if has_id(prev, k) {
            let t = choose|t: int| 0 <= t < prev.len() && (#[trigger] prev[t]).thread_id@ == k;
            assert(ts[t] == prev[t]);
            assert(ts.last().thread_id@ != k);
            assert(has_id(ts, k));
        } else if ts.last().thread_id@ == k {
            assert(has_id(ts, k));
        } else {
            if has_id(ts, k) {
                let t = choose|t: int| 0 <= t < ts.len() && (#[trigger] ts[t]).thread_id@ == k;
                assert(prev[t] == ts[t]);
            }
        }
    }
}

proof fn lemma_members_total_step(cs: Seq<CommentRow>, ts: Seq<ThreadResponse>)
    requires
        cs.len() > 0,
    ensures
        members_total(cs, ts) == members_total(cs.drop_last(), ts) + id_count(ts, thread_key(cs.last())),
    decreases ts.len(),
{
    if ts.len() > 0 {
        lemma_members_total_step(cs, ts.drop_last());
    }
}

proof fn lemma_members_total_covered(cs: Seq<CommentRow>, ts: Seq<ThreadResponse>)
    requires
        distinct_ids(ts),
    ensures
        members_total(cs, ts) == covered_count(cs, ts),
    decreases cs.len(),
{
    if cs.len() == 0 {
        assert(members_total(cs, ts) == 0) by {
            lemma_members_total_empty(cs, ts);
        }
    } else {
        lemma_members_total_covered(cs.drop_last(), ts);
        lemma_members_total_step(cs, ts);
        lemma_id_count(ts, thread_key(cs.last()));
    }
}

proof fn lemma_members_total_empty(cs: Seq<CommentRow>, ts: Seq<ThreadResponse>)
    requires
        cs.len() == 0,
    ensures
        members_total(cs, ts) == 0,
    decreases ts.len(),
{
    if ts.len() > 0 {
        lemma_members_total_empty(cs, ts.drop_last());
    }
}

proof fn lemma_covered_all(cs: Seq<CommentRow>, ts: Seq<ThreadResponse>)
    requires
        forall|i: int| 0 <= i < cs.len() ==> has_id(ts, thread_key(#[trigger] cs[i])),
    ensures
        covered_count(cs, ts) == cs.len(),
    decreases cs.len(),
{
    if cs.len() > 0 {
        let prev = cs.drop_last();
        assert forall|i: int| 0 <= i < prev.len() implies has_id(ts, thread_key(#[trigger] prev[i])) by {
            assert(prev[i] == cs[i]);
        }
        lemma_covered_all(prev, ts);
        assert(has_id(ts, thread_key(cs[cs.len() - 1])));
    }
}

proof fn lemma_listed_is_members(cs: Seq<CommentRow>, ts: Seq<ThreadResponse>)
    requires
        forall|t: int|
            0 <= t < ts.len() ==> (#[trigger] ts[t]).comments@.len() == member_indices(
                cs,
                ts[t].thread_id@,
            ).len(),
    ensures
        comments_listed(ts) == members_total(cs, ts),
    decreases ts.len(),
{
    if ts.len() > 0 {
        let prev = ts.drop_last();
        assert forall|t: int| 0 <= t < prev.len() implies (#[trigger] prev[t]).comments@.len()
            == member_indices(cs, prev[t].thread_id@).len() by {
            assert(prev[t] == ts[t]);
        }
        lemma_listed_is_members(cs, prev);
        assert(ts[ts.len() - 1] == ts.last());
    }
}

/// Grouping loses and duplicates no comment: the threads list as many
/// comments as there are.
pub proof fn law_threads_list_every_comment_once(
    cs: Seq<CommentRow>,
    htmls: Seq<String>,
    threads: Seq<ThreadResponse>,
)
    requires
        threads_built(cs, htmls, threads),
    ensures
        comments_listed(threads) == cs.len(),
{
    assert(distinct_ids(threads)) by {
        assert forall|i: int, j: int| 0 <= i < j < threads.len() implies (
        #[trigger] threads[i]).thread_id@ != (#[trigger] threads[j]).thread_id@ by {
            lemma_seq_lt_trichotomy(threads[i].thread_id@, threads[j].thread_id@);
        }
    }
    assert forall|i: int| 0 <= i < cs.len() implies has_id(threads, thread_key(#[trigger] cs[i])) by {
        let t = choose|t: int|
            0 <= t < threads.len() && (#[trigger] threads[t]).thread_id@ == thread_key(cs[i]);
    }
    assert forall|t: int| 0 <= t < threads.len() implies (#[trigger] threads[t]).comments@.len()
        == member_indices(cs, threads[t].thread_id@).len() by {
    }
    lemma_listed_is_members(cs, threads);
    lemma_members_total_covered(cs, threads);
    lemma_covered_all(cs, threads);
}

/// Thread ids in strictly increasing order.
pub open spec fn sorted_keys(keys: Seq<Vec<char>>) -> bool {
    forall|i: int, j: int|
        0 <= i < j < keys.len() ==> seq_lt((#[trigger] keys[i])@, (#[trigger] keys[j])@)
}

/// Where `key` belongs among sorted `keys`: the first position whose key is
/// not below it, and whether that key equals it.
fn find_slot(keys: &Vec<Vec<char>>, key: &Vec<char>) -> (r: (usize, bool))
    requires
        sorted_keys(keys@),
    ensures
        r.0 <= keys@.len(),
        forall|q: int| 0 <= q < r.0 ==> seq_lt((#[trigger] keys@[q])@, key@),
        r.1 ==> r.0 < keys@.len() && keys@[r.0 as int]@ == key@,
        !r.1 ==> (r.0 < keys@.len() ==> seq_lt(key@, keys@[r.0 as int]@)),
{
    let mut p: usize = 0;
    while p < keys.len()
        invariant
            0 <= p <= keys@.len(),
            forall|q: int| 0 <= q < p ==> seq_lt((#[trigger] keys@[q])@, key@),
        decreases keys@.len() - p,
    {
        let order = compare_chars(&keys[p], key);
        if order == 0 {
            return (p, true);
        }
        if order == 1 {
            return (p, false);
        }
        p = p + 1;
    }
    (p, false)
}

/// Threads are listed in order of their id, each once, and hold exactly the
/// comments of that id, in the order they were given.
pub open spec fn threads_built(
    cs: Seq<CommentRow>,
    htmls: Seq<String>,
    threads: Seq<ThreadResponse>,
) -> bool {
    &&& forall|i: int, j: int|
        0 <= i < j < threads.len() ==> seq_lt(
            (#[trigger] threads[i]).thread_id@,
            (#[trigger] threads[j]).thread_id@,
        )
    &&& forall|i: int|
        0 <= i < cs.len() ==> exists|t: int|
            0 <= t < threads.len() && (#[trigger] threads[t]).thread_id@ == thread_key(
                #[trigger] cs[i],
            )
    &&& forall|t: int|
        0 <= t < threads.len() ==> {
            let idx = member_indices(cs, (#[trigger] threads[t]).thread_id@);
            &&& idx.len() > 0
            &&& threads[t].comments@.len() == idx.len()
            &&& forall|m: int|
                0 <= m < idx.len() ==> (#[trigger] threads[t].comments@[m]).inner == cs[idx[m]]
                    && threads[t].comments@[m].body_html@ == rendered_markdown(
                    cs[idx[m]].body@,
                    htmls[idx[m]]@,
                )
            &&& threads[t].path == first_path(cs, idx)
            &&& threads[t].resolved == cs[idx[0]].resolved
        }
}

fn thread_id_of(c: &CommentRow) -> (r: String)
    ensures
        r@ == thread_key(*c),
{
    match &c.thread_id {
        Some(t) => t.clone(),
        None => String::from_str("orphan:").concat(i64_to_string(c.id).as_str()),
    }
}

/// Group comments into threads by `thread_id`, ordered by thread id. Each
/// thread's path is the first path among its comments and its resolved flag
/// that of its first comment. `commonmark_htmls[i]` is comrak's rendering of
/// the body of `comments[i]`.
pub fn build_threads(comments: &Vec<CommentRow>, commonmark_htmls: &Vec<String>) -> (r: Vec<
    ThreadResponse,
>)
    requires
        commonmark_htmls@.len() == comments@.len(),
    ensures
        threads_built(comments@, commonmark_htmls@, r@),
{
    let ghost cs = comments@;
    let mut keys: Vec<Vec<char>> = Vec::new();
    let mut tids: Vec<String> = Vec::new();
    let mut members: Vec<Vec<usize>> = Vec::new();
    let mut n: usize = 0;
    while n < comments.len()
        invariant
            cs == comments@,
            0 <= n <= cs.len(),
            keys@.len() == tids@.len(),
            keys@.len() == members@.len(),
            forall|t: int| 0 <= t < keys@.len() ==> (#[trigger] keys@[t])@ == tids@[t]@,
            sorted_keys(keys@),
            forall|t: int|
                0 <= t < keys@.len() ==> (#[trigger] members@[t])@.len() == member_indices(
                    cs.take(n as int),
                    keys@[t]@,
                ).len() && members@[t]@.len() > 0 && forall|m: int|
                    0 <= m < members@[t]@.len() ==> members@[t]@[m] as int == member_indices(
                        cs.take(n as int),
                        keys@[t]@,
                    )[m],
            forall|i: int|
                0 <= i < n ==> exists|t: int|
                    0 <= t < keys@.len() && (#[trigger] keys@[t])@ == thread_key(
                        #[trigger] cs[i],
                    ),
        decreases cs.len() - n,
    {
        let c = &comments[n];
        let tid = thread_id_of(c);
        let key = chars_of(tid.as_str());
        let ghost k = key@;
        assert(cs.take(n + 1).drop_last() =~= cs.take(n as int));
        assert(cs.take(n + 1).last() == cs[n as int]);
        let (p, found) = find_slot(&keys, &key);
        if found {
            // An existing thread: append this comment.
            let ghost old_keys = keys@;
            let ghost old_members = members@;
            let mut m: Vec<usize> = Vec::new();
            members.set_and_swap(p, &mut m);
            m.push(n);
            members.set(p, m);
            assert forall|t: int| 0 <= t < keys@.len() implies (#[trigger] members@[t])@.len()
                == member_indices(cs.take(n + 1), keys@[t]@).len() && members@[t]@.len() > 0
                && forall|q: int|
                0 <= q < members@[t]@.len() ==> members@[t]@[q] as int == member_indices(
                    cs.take(n + 1),
                    keys@[t]@,
                )[q] by {
                if t != p {
                    lemma_seq_lt_trichotomy(keys@[t]@, k);
                    if t < p {
                        assert(seq_lt(keys@[t]@, keys@[p as int]@));
                    } else {
                        assert(seq_lt(keys@[p as int]@, keys@[t]@));
                    }
                    assert(keys@[t]@ != k);
                }
            }
            assert forall|i: int| 0 <= i < n + 1 implies exists|t: int|
                0 <= t < keys@.len() && (#[trigger] keys@[t])@ == thread_key(
                    #[trigger] cs[i],
                ) by {
                if i == n {
                    assert(keys@[p as int]@ == thread_key(cs[i]));
                }
            }
        } else {
            // A new thread, inserted in order.
            let ghost old_keys = keys@;
            let ghost old_members = members@;
            proof {
                lemma_member_indices_sound(cs.take(n as int), k);
                if member_indices(cs.take(n as int), k).len() > 0 {
                    let i = member_indices(cs.take(n as int), k)[0];
                    assert(thread_key(cs.take(n as int)[i]) == k);
                    assert(cs.take(n as int)[i] == cs[i]);
                    let t = choose|t: int|
                        0 <= t < old_keys.len() && (#[trigger] old_keys[t])@ == thread_key(
                            cs[i],
                        );
                    if t < p {
                        lemma_seq_lt_trichotomy(old_keys[t]@, k);
                    } else {
                        lemma_seq_lt_trichotomy(old_keys[p as int]@, k);
                        if t > p {
                            assert(seq_lt(old_keys[p as int]@, old_keys[t]@));
                            lemma_seq_lt_trichotomy(old_keys[t]@, k);
                            lemma_seq_lt_transitive(k, old_keys[p as int]@, old_keys[t]@);
                        }
                    }
                }

            }
            keys.insert(p, key);
            tids.insert(p, tid);
            let mut m: Vec<usize> = Vec::new();
            m.push(n);
            members.insert(p, m);
            assert forall|i: int, j: int|
                0 <= i < j < keys@.len() implies seq_lt(
                (#[trigger] keys@[i])@,
                (#[trigger] keys@[j])@,
            ) by {
                if j == p {
                    assert(keys@[i] == old_keys[i]);
                } else if i == p {
                    assert(keys@[j] == old_keys[j - 1]);
                    if j - 1 > p {
                        assert(seq_lt(old_keys[p as int]@, old_keys[j - 1]@));
                        lemma_seq_lt_transitive(k, old_keys[p as int]@, old_keys[j - 1]@);
                    }
                } else if i < p && j > p {
                    assert(keys@[i] == old_keys[i]);
                    assert(keys@[j] == old_keys[j - 1]);
                    if j - 1 > i {
                        assert(seq_lt(old_keys[i]@, old_keys[j - 1]@));
                    }
                } else if j < p {
                    assert(keys@[i] == old_keys[i] && keys@[j] == old_keys[j]);
                } else {
                    assert(keys@[i] == old_keys[i - 1] && keys@[j] == old_keys[j - 1]);
                    assert(seq_lt(old_keys[i - 1]@, old_keys[j - 1]@));
                }
            }
            assert forall|t: int| 0 <= t < keys@.len() implies (#[trigger] members@[t])@.len()
                == member_indices(cs.take(n + 1), keys@[t]@).len() && members@[t]@.len() > 0
                && forall|q: int|
                0 <= q < members@[t]@.len() ==> members@[t]@[q] as int == member_indices(
                    cs.take(n + 1),
                    keys@[t]@,
                )[q] by {
                if t == p {
                    assert(member_indices(cs.take(n + 1), k) =~= seq![n as int]);
                } else {
                    let ot = if t < p {
                        t
                    } else {
                        t - 1
                    };
                    assert(keys@[t] == old_keys[ot]);
                    assert(members@[t] == old_members[ot]);
                    lemma_seq_lt_trichotomy(old_keys[ot]@, k);
                    if ot < p {
                        assert(seq_lt(old_keys[ot]@, k));
                    } else if p < old_keys.len() {
                        if ot > p {
                            assert(seq_lt(old_keys[p as int]@, old_keys[ot]@));
                            lemma_seq_lt_transitive(k, old_keys[p as int]@, old_keys[ot]@);
                        }
                        assert(seq_lt(k, old_keys[ot]@));
                    }
                    assert(old_keys[ot]@ != k);
                }
            }
            assert forall|i: int| 0 <= i < n + 1 implies exists|t: int|
                0 <= t < keys@.len() && (#[trigger] keys@[t])@ == thread_key(
                    #[trigger] cs[i],
                ) by {
                if i == n {
                    assert(keys@[p as int]@ == thread_key(cs[i]));
                } else {
                    let t = choose|t: int|
                        0 <= t < old_keys.len() && (#[trigger] old_keys[t])@ == thread_key(
                            cs[i],
                        );
                    if t < p {
                        assert(keys@[t] == old_keys[t]);
                    } else {
                        assert(keys@[t + 1] == old_keys[t]);
                    }
                }
            }
        }
        n = n + 1;
    }
    assert(cs.take(cs.len() as int) =~= cs);
    // Render the threads.
    let mut out: Vec<ThreadResponse> = Vec::new();
    let mut t: usize = 0;
    while t < keys.len()
        invariant
            cs == comments@,
            commonmark_htmls@.len() == cs.len(),
            keys@.len() == tids@.len(),
            keys@.len() == members@.len(),
            forall|q: int| t <= q < keys@.len() ==> (#[trigger] keys@[q])@ == tids@[q]@,
            sorted_keys(keys@),
            forall|i: int|
                0 <= i < cs.len() ==> exists|q: int|
                    0 <= q < keys@.len() && (#[trigger] keys@[q])@ == thread_key(
                        #[trigger] cs[i],
                    ),
            forall|q: int|
                0 <= q < keys@.len() ==> (#[trigger] members@[q])@.len() == member_indices(
                    cs,
                    keys@[q]@,
                ).len() && members@[q]@.len() > 0 && forall|m: int|
                    0 <= m < members@[q]@.len() ==> members@[q]@[m] as int == member_indices(
                        cs,
                        keys@[q]@,
                    )[m],
            0 <= t <= keys@.len(),
            out@.len() == t,
            forall|q: int| 0 <= q < t ==> (#[trigger] out@[q]).thread_id@ == keys@[q]@,
            forall|q: int|
                0 <= q < t ==> {
                    let idx = member_indices(cs, (#[trigger] out@[q]).thread_id@);
                    &&& idx.len() > 0
                    &&& out@[q].comments@.len() == idx.len()
                    &&& forall|m: int|
                        0 <= m < idx.len() ==> (#[trigger] out@[q].comments@[m]).inner
                            == cs[idx[m]] && out@[q].comments@[m].body_html@ == rendered_markdown(
                            cs[idx[m]].body@,
                            commonmark_htmls@[idx[m]]@,
                        )
                    &&& out@[q].path == first_path(cs, idx)
                    &&& out@[q].resolved == cs[idx[0]].resolved
                },
        decreases keys@.len() - t,
    {
        let ghost idx = member_indices(cs, keys@[t as int]@);
        proof {
            lemma_member_indices_sound(cs, keys@[t as int]@);
        }
        let ms = &members[t];
        let mut responses: Vec<CommentResponse> = Vec::new();
        let mut path: Option<String> = None;
        let mut j: usize = 0;
        while j < ms.len()
            invariant
                cs == comments@,
                commonmark_htmls@.len() == cs.len(),
                ms@.len() == idx.len(),
                forall|m: int| 0 <= m < ms@.len() ==> ms@[m] as int == idx[m],
                forall|m: int| 0 <= m < idx.len() ==> 0 <= #[trigger] idx[m] < cs.len(),
                0 <= j <= ms@.len(),
                responses@.len() == j,
                forall|m: int|
                    0 <= m < j ==> (#[trigger] responses@[m]).inner == cs[idx[m]]
                        && responses@[m].body_html@ == rendered_markdown(
                        cs[idx[m]].body@,
                        commonmark_htmls@[idx[m]]@,
                    ),
                path == first_path(cs, idx.take(j as int)),
            decreases ms@.len() - j,
        {
            let i = ms[j];
            assert(idx[j as int] == i as int);
            let c = &comments[i];
            let html = render_markdown(c.body.as_str(), commonmark_htmls[i].as_str());
            responses.push(CommentResponse { inner: c.duplicate(), body_html: html });
            assert(idx.take(j + 1).drop_last() =~= idx.take(j as int));
            assert(idx.take(j + 1).last() == i as int);
            if path.is_none() {
                path = match &c.path {
                    Some(p) => Some(p.clone()),
                    None => None,
                };
            }
            j = j + 1;
        }
        assert(idx.take(idx.len() as int) =~= idx);
        let first = ms[0];
        let resolved = comments[first].resolved;
        let mut tid = String::new();
        tids.set_and_swap(t, &mut tid);
        out.push(ThreadResponse { thread_id: tid, path, resolved, comments: responses });
        t = t + 1;
    }
    assert forall|i: int| 0 <= i < cs.len() implies exists|q: int|
        0 <= q < out@.len() && (#[trigger] out@[q]).thread_id@ == thread_key(#[trigger] cs[i]) by {
        let q = choose|q: int|
            0 <= q < keys@.len() && (#[trigger] keys@[q])@ == thread_key(cs[i]);
        assert(out@[q].thread_id@ == keys@[q]@);
    }
    assert forall|i: int, j: int| 0 <= i < j < out@.len() implies seq_lt(
        (#[trigger] out@[i]).thread_id@,
        (#[trigger] out@[j]).thread_id@,
    ) by {
        assert(seq_lt(keys@[i]@, keys@[j]@));
    }
    out
}

/// A check run as the detail view shows it.
pub fn check_run_response(row: &CheckRunRow) -> (r: CheckRunResponse)
    ensures
        r.name == row.name,
        r.status == row.status,
        r.conclusion == row.conclusion,
{
    CheckRunResponse {
        name: row.name.clone(),
        status: row.status.clone(),
        conclusion: match &row.conclusion {
            Some(c) => Some(c.clone()),
            None => None,
        },
    }
}

/// A review as the detail view shows it, without an avatar (none is cached).
pub fn review_response(row: &ReviewRow) -> (r: ReviewResponse)
    ensures
        r.id == row.id,
        r.reviewer == row.reviewer,
        r.reviewer_avatar_url is None,
        r.state == row.state,
        r.body == row.body,
        r.submitted_at == row.submitted_at,
        r.html_url == row.html_url,
{
    ReviewResponse {
        id: row.id,
        reviewer: row.reviewer.clone(),
        reviewer_avatar_url: None,
        state: row.state.clone(),
        body: row.body.clone(),
        submitted_at: row.submitted_at.clone(),
        html_url: row.html_url.clone(),
    }
}

/// What the inbox is told when the user opens a pull request: no new
/// activity since this visit, with the author and status of a fetch that just
/// ran, else those of the cached row.
pub fn viewed_pr_info(
    fetched: Option<PrFetchResult>,
    pr: &PullRequestRow,
    full_repo: &str,
    number: i64,
    teams: Option<Vec<String>>,
) -> (r: PrInfoUpdatedData)
    ensures
        r.pr_id == number,
        r.repository@ == full_repo@,
        r.author == match fetched {
            Some(f) => f.author,
            None => pr.author,
        },
        r.pr_status == match fetched {
            Some(f) => f.pr_status,
            None => pr_status_of(pr.merged_at is Some, pr.state@ == "closed"@, pr.draft),
        },
        r.ci_status == pr.ci_status,
        r.new_commits == Some(0i64),
        r.new_comments matches Some(c) && c@.len() == 0,
        r.new_reviews matches Some(v) && v@.len() == 0,
        r.teams == teams,
{
    let (author, pr_status) = match fetched {
        Some(f) => (f.author, f.pr_status),
        None => (pr.author.clone(), derive_pr_status_from_row(pr)),
    };
    let new_comments: Vec<PrNewComment> = Vec::new();
    let new_reviews: Vec<ReviewSummary> = Vec::new();
    PrInfoUpdatedData {
        pr_id: number,
        repository: String::from_str(full_repo),
        author,
        pr_status,
        ci_status: match &pr.ci_status {
            Some(c) => Some(c.clone()),
            None => None,
        },
        new_commits: Some(0),
        new_comments: Some(new_comments),
        new_reviews: Some(new_reviews),
        teams,
    }
}

} // verus!
