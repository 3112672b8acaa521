//! Request handling rules of the inbox endpoints: query parsing, pagination,
//! which view to read, and the viewport set that prefetch requests replace.
use std::collections::HashMap;
use vstd::prelude::*;

use crate::rows::{FilterParams, InboxItem};
use crate::text::{chars_of, split_on, split_ranges, str_equals, string_from_range, trim, trim_range};

verus! {

/// Query parameters of `GET /api/inbox`.
pub struct InboxQuery {
    pub status: Option<String>,
    pub page: Option<u32>,
    pub per_page: Option<u32>,
    pub repo: Option<String>,
    pub team: Option<String>,
    pub author: Option<String>,
    /// Comma-separated pull request statuses to show exclusively.
    pub state_include: Option<String>,
    /// Comma-separated pull request statuses to hide.
    pub state_exclude: Option<String>,
}

/// One page of inbox rows.
pub struct PaginatedInbox {
    pub items: Vec<InboxItem>,
    pub total: i64,
    pub page: u32,
    pub per_page: u32,
}

/// Query parameters of `GET /api/inbox/options`.
pub struct OptionsQuery {
    pub status: Option<String>,
}

/// The filter options offered for a view, with notification counts.
pub struct InboxOptions {
    pub repos: Vec<String>,
    pub teams: Vec<String>,
    pub authors: Vec<String>,
    pub repo_counts: HashMap<String, i64>,
    pub team_counts: HashMap<String, i64>,
    pub author_counts: HashMap<String, i64>,
}

/// Body of `POST /api/inbox/prefetch`: the rows visible in the client.
pub struct PrefetchRequest {
    pub items: Vec<PrefetchItem>,
}

/// A visible pull request row.
pub struct PrefetchItem {
    /// `owner/repo`.
    pub repository: String,
    pub pr_number: i64,
}

/// The trimmed, non-empty pieces among `pieces`, in order.
pub open spec fn nonempty_trimmed(pieces: Seq<Seq<char>>) -> Seq<Seq<char>>
    decreases pieces.len(),
{
    if pieces.len() == 0 {
        Seq::empty()
    } else {
        let prev = nonempty_trimmed(pieces.drop_last());
        if trim(pieces.last()).len() > 0 {
            prev.push(trim(pieces.last()))
        } else {
            prev
        }
    }
}

/// The entries of a comma-separated value: trimmed, empty ones dropped.
pub open spec fn csv_items(value: Option<String>) -> Seq<Seq<char>> {
    match value {
        Some(v) => nonempty_trimmed(split_on(v@, ',')),
        None => Seq::empty(),
    }
}

/// Split a comma-separated query value into a list, dropping empty entries.
pub fn parse_csv(value: Option<String>) -> (r: Vec<String>)
    ensures
        r@.len() == csv_items(value).len(),
        forall|i: int| 0 <= i < r@.len() ==> (#[trigger] r@[i])@ == csv_items(value)[i],
{
    let v = match &value {
        Some(v) => chars_of(v.as_str()),
        None => {
            return Vec::new();
        },
    };
    let ghost whole = v@.subrange(0, v@.len() as int);
    assert(whole =~= value->0@);
    let pieces = split_ranges(&v, 0, v.len(), ',');
    let ghost ps = split_on(whole, ',');
    let mut out: Vec<String> = Vec::new();
    let mut i: usize = 0;
    while i < pieces.len()
        invariant
            whole == value->0@,
            ps == split_on(whole, ','),
            pieces@.len() == ps.len(),
            forall|k: int|
                0 <= k < pieces@.len() ==> 0 <= (#[trigger] pieces@[k]).0 <= pieces@[k].1 <= v@.len()
                    && v@.subrange(pieces@[k].0 as int, pieces@[k].1 as int) == ps[k],
            0 <= i <= pieces@.len(),
            out@.len() == nonempty_trimmed(ps.take(i as int)).len(),
            forall|k: int|
                0 <= k < out@.len() ==> (#[trigger] out@[k])@ == nonempty_trimmed(
                    ps.take(i as int),
                )[k],
        decreases pieces@.len() - i,
    {
        assert(ps.take(i + 1).drop_last() =~= ps.take(i as int));
        assert(ps.take(i + 1).last() == ps[i as int]);
        let (a, b) = pieces[i];
        let (ta, tb) = trim_range(&v, a, b);
        if tb > ta {
            out.push(string_from_range(&v, ta, tb));
        }
        i = i + 1;
    }
    assert(ps.take(ps.len() as int) =~= ps);
    out
}

/// A page of the inbox: 1-based page number, page size, and row offset.
pub struct Page {
    pub page: u32,
    pub per_page: u32,
    pub offset: u32,
}

/// The page number asked for: 1 when absent, at least 1.
pub open spec fn page_number(page: Option<u32>) -> int {
    match page {
        Some(p) => if p < 1 {
            1
        } else {
            p as int
        },
        None => 1,
    }
}

/// The page size asked for: 25 when absent, between 1 and 100.
pub open spec fn page_size(per_page: Option<u32>) -> int {
    match per_page {
        Some(n) => if n < 1 {
            1
        } else if n > 100 {
            100
        } else {
            n as int
        },
        None => 25,
    }
}

/// Normalize the paging parameters and compute the row offset.
pub fn paginate(page: Option<u32>, per_page: Option<u32>) -> (r: Page)
    requires
        (page_number(page) - 1) * page_size(per_page) <= u32::MAX,
    ensures
        r.page == page_number(page),
        r.per_page == page_size(per_page),
        r.offset == (page_number(page) - 1) * page_size(per_page),
{
    let p: u32 = match page {
        Some(p) => if p < 1 {
            1
        } else {
            p
        },
        None => 1,
    };
    let n: u32 = match per_page {
        Some(n) => if n < 1 {
            1
        } else if n > 100 {
            100
        } else {
            n
        },
        None => 25,
    };
    Page { page: p, per_page: n, offset: (p - 1) * n }
}

/// Whether the row offset of the asked-for page fits in a `u32`, as
/// `paginate` needs.
pub fn page_in_range(page: Option<u32>, per_page: Option<u32>) -> (r: bool)
    ensures
        r == ((page_number(page) - 1) * page_size(per_page) <= u32::MAX),
{
    let p: u64 = match page {
        Some(p) => if p < 1 {
            1
        } else {
            p as u64
        },
        None => 1,
    };
    let n: u64 = match per_page {
        Some(n) => if n < 1 {
            1
        } else if n > 100 {
            100
        } else {
            n as u64
        },
        None => 25,
    };
    assert((p - 1) * n <= 0xffff_ffffu64 * 100) by (nonlinear_arith)
        requires
            1 <= p <= 0xffff_ffffu64,
            1 <= n <= 100,
    ;
    (p - 1) * n <= 0xffff_ffffu64
}

/// `?status=archived` selects the archive; anything else the inbox.
pub fn wants_archived(status: &Option<String>) -> (r: bool)
    ensures
        r == (status is Some && status->0@ == "archived"@),
{
    match status {
        Some(s) => str_equals(s.as_str(), "archived"),
        None => false,
    }
}

/// The filters of an inbox query.
pub fn filters_of(query: InboxQuery) -> (r: FilterParams)
    ensures
        r.repo == query.repo,
        r.team == query.team,
        r.author == query.author,
        r.state_include@.len() == csv_items(query.state_include).len(),
        forall|i: int|
            0 <= i < r.state_include@.len() ==> (#[trigger] r.state_include@[i])@ == csv_items(
                query.state_include,
            )[i],
        r.state_exclude@.len() == csv_items(query.state_exclude).len(),
        forall|i: int|
            0 <= i < r.state_exclude@.len() ==> (#[trigger] r.state_exclude@[i])@ == csv_items(
                query.state_exclude,
            )[i],
{
    FilterParams {
        repo: query.repo,
        team: query.team,
        author: query.author,
        state_include: parse_csv(query.state_include),
        state_exclude: parse_csv(query.state_exclude),
    }
}

/// The viewport set a prefetch request replaces the old one with; an empty
/// request leaves the viewport as it was (None).
pub fn viewport_of(items: &Vec<PrefetchItem>) -> (r: Option<Vec<(String, i64)>>)
    ensures
        items@.len() == 0 <==> r is None,
        r matches Some(v) ==> v@.len() == items@.len() && forall|i: int|
            0 <= i < v@.len() ==> (#[trigger] v@[i]).0 == items@[i].repository && v@[i].1
                == items@[i].pr_number,
{
    if items.len() == 0 {
        return None;
    }
    let mut out: Vec<(String, i64)> = Vec::new();
    let mut i: usize = 0;
    while i < items.len()
        invariant
            0 <= i <= items@.len(),
            out@.len() == i,
            forall|k: int|
                0 <= k < i ==> (#[trigger] out@[k]).0 == items@[k].repository && out@[k].1
                    == items@[k].pr_number,
        decreases items@.len() - i,
    {
        out.push((items[i].repository.clone(), items[i].pr_number));
        i = i + 1;
    }
    Some(out)
}

/// Paging: pages are numbered from 1, hold between 1 and 100 rows (25 when
/// unasked), a size in that range is taken as asked, and consecutive pages
/// start one page size apart.
pub proof fn law_pages_are_clamped_and_contiguous(page: Option<u32>, per_page: Option<u32>)
    ensures
        page_number(page) >= 1,
        1 <= page_size(per_page) <= 100,
        per_page is None ==> page_size(per_page) == 25,
        (per_page matches Some(n) && 1 <= n <= 100) ==> page_size(per_page) == per_page->0,
        (page matches Some(p) && p >= 1) ==> page_number(page) == page->0,
        (page matches Some(p) && 1 <= p < u32::MAX) ==> (page_number(Some((page->0 + 1) as u32)) - 1)
            * page_size(per_page) == (page_number(page) - 1) * page_size(per_page) + page_size(
            per_page,
        ),
{
    if let Some(p) = page {
        let n = page_size(per_page);
        let q: int = p as int;
        assert(q * n == (q - 1) * n + n) by (nonlinear_arith);
    }
}

} // verus!
