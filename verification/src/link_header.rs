//! Pagination links: the `rel="next"` URL of an HTTP `Link` header.
use vstd::prelude::*;

use crate::text::{chars_of, range_equals, split_on, split_ranges, string_from_range, trim, trim_range};

verus! {

/// The `rel` parameter that marks the next page.
pub open spec fn next_rel() -> Seq<char> {
    "rel=\"next\""@
}

/// A `<...>` URL segment.
pub open spec fn is_url_segment(seg: Seq<char>) -> bool {
    seg.len() > 0 && seg[0] == '<' && seg.last() == '>'
}

/// The URL of the last `<...>` segment among `segs` (each trimmed first).
pub open spec fn segment_url(segs: Seq<Seq<char>>) -> Option<Seq<char>>
    decreases segs.len(),
{
    if segs.len() == 0 {
        None
    } else {
        let t = trim(segs.last());
        if is_url_segment(t) {
            Some(t.subrange(1, t.len() - 1))
        } else {
            segment_url(segs.drop_last())
        }
    }
}

/// Some segment (trimmed) is exactly `rel="next"`.
pub open spec fn has_next_rel(segs: Seq<Seq<char>>) -> bool {
    exists|j: int| 0 <= j < segs.len() && trim(#[trigger] segs[j]) == next_rel()
}

/// The URL of the first link-value among `parts` that carries `rel="next"`,
/// if that value has a URL.
pub open spec fn next_link_in(parts: Seq<Seq<char>>) -> Option<Seq<char>>
    decreases parts.len(),
{
    if parts.len() == 0 {
        None
    } else {
        let segs = split_on(trim(parts[0]), ';');
        if has_next_rel(segs) {
            segment_url(segs)
        } else {
            next_link_in(parts.drop_first())
        }
    }
}

/// The `rel="next"` URL of a `Link` header value: the header is split into
/// comma-separated link-values, each into semicolon-separated segments.
pub open spec fn next_link(link: Seq<char>) -> Option<Seq<char>> {
    next_link_in(split_on(link, ','))
}

/// Parse the URL with `rel="next"` from an HTTP `Link` header value.
/// Returns `None` if no next-page link is present.
pub fn parse_next_link(link: &str) -> (r: Option<String>)
    ensures
        match next_link(link@) {
            Some(u) => r is Some && r->0@ == u,
            None => r is None,
        },
{
    let v = chars_of(link);
    let rel = chars_of("rel=\"next\"");
    let parts = split_ranges(&v, 0, v.len(), ',');
    let ghost whole = v@.subrange(0, v@.len() as int);
    assert(whole =~= link@);
    let ghost all_parts = split_on(whole, ',');
    let mut k: usize = 0;
    assert(all_parts.skip(0) =~= all_parts);
    while k < parts.len()
        invariant
            v@ == link@,
            rel@ == next_rel(),
            whole == link@,
            all_parts == split_on(whole, ','),
            parts@.len() == all_parts.len(),
            forall|q: int|
                0 <= q < parts@.len() ==> 0 <= (#[trigger] parts@[q]).0 <= parts@[q].1
                    <= v@.len() && v@.subrange(parts@[q].0 as int, parts@[q].1 as int)
                    == all_parts[q],
            0 <= k <= parts@.len(),
            next_link(link@) == next_link_in(all_parts.skip(k as int)),
        decreases parts@.len() - k,
    {
        let (pa, pb) = parts[k];
        let (ta, tb) = trim_range(&v, pa, pb);
        let segs = split_ranges(&v, ta, tb, ';');
        let ghost seg_seq = split_on(v@.subrange(ta as int, tb as int), ';');
        let mut url: Option<(usize, usize)> = None;
        let mut is_next = false;
        let mut j: usize = 0;
        while j < segs.len()
            invariant
                v@ == link@,
                rel@ == next_rel(),
                0 <= ta <= tb <= v@.len(),
                seg_seq == split_on(v@.subrange(ta as int, tb as int), ';'),
                segs@.len() == seg_seq.len(),
                forall|q: int|
                    0 <= q < segs@.len() ==> ta <= (#[trigger] segs@[q]).0 <= segs@[q].1 <= tb
                        && v@.subrange(segs@[q].0 as int, segs@[q].1 as int) == seg_seq[q],
                0 <= j <= segs@.len(),
                is_next == has_next_rel(seg_seq.take(j as int)),
                match segment_url(seg_seq.take(j as int)) {
                    Some(u) => match url {
                        Some((a, b)) => a <= b <= v@.len() && v@.subrange(a as int, b as int) == u,
                        None => false,
                    },
                    None => url is None,
                },
            decreases segs@.len() - j,
        {
            let (sa, sb) = segs[j];
            let (ua, ub) = trim_range(&v, sa, sb);
            let ghost t = v@.subrange(ua as int, ub as int);
            assert(seg_seq.take(j + 1).drop_last() =~= seg_seq.take(j as int));
            assert(seg_seq.take(j + 1).last() == seg_seq[j as int]);
            if ub > ua && v[ua] == '<' && v[ub - 1] == '>' {
                assert(t.subrange(1, t.len() - 1) =~= v@.subrange(ua + 1, ub - 1));
                url = Some((ua + 1, ub - 1));
            }
            let eq = range_equals(&v, ua, ub, &rel);
            if eq {
                is_next = true;
                assert(seg_seq.take(j + 1)[j as int] == seg_seq[j as int]);
            }
            proof {
                if has_next_rel(seg_seq.take(j + 1)) && !eq {
                    let w = choose|w: int|
                        0 <= w < j + 1 && trim(#[trigger] seg_seq.take(j + 1)[w]) == next_rel();
                    assert(seg_seq.take(j as int)[w] == seg_seq.take(j + 1)[w]);
                }
                if has_next_rel(seg_seq.take(j as int)) {
                    let w = choose|w: int|
                        0 <= w < j && trim(#[trigger] seg_seq.take(j as int)[w]) == next_rel();
                    assert(seg_seq.take(j + 1)[w] == seg_seq.take(j as int)[w]);
                }
            }
            j = j + 1;
        }
        assert(seg_seq.take(segs@.len() as int) =~= seg_seq);
        assert(all_parts.skip(k as int)[0] == all_parts[k as int]);
        assert(all_parts.skip(k as int).drop_first() =~= all_parts.skip(k + 1));
        if is_next {
            return match url {
                Some((a, b)) => Some(string_from_range(&v, a, b)),
                None => None,
            };
        }
        k = k + 1;
    }
    None
}

} // verus!
