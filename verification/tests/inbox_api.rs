use gh_inbox::inbox_api::{
    filters_of, page_in_range, paginate, parse_csv, viewport_of, wants_archived, InboxQuery, PrefetchItem,
};

#[test]
fn csv_is_trimmed_and_empty_entries_dropped() {
    assert_eq!(parse_csv(Some(" open, ,draft ,".to_string())), vec!["open".to_string(), "draft".to_string()]);
    assert!(parse_csv(None).is_empty());
    assert!(parse_csv(Some(String::new())).is_empty());
    assert_eq!(parse_csv(Some("merged".to_string())), vec!["merged".to_string()]);
}

#[test]
fn paging_defaults_and_clamps() {
    let p = paginate(None, None);
    assert_eq!((p.page, p.per_page, p.offset), (1, 25, 0));
    let p = paginate(Some(0), Some(0));
    assert_eq!((p.page, p.per_page, p.offset), (1, 1, 0));
    let p = paginate(Some(3), Some(500));
    assert_eq!((p.page, p.per_page, p.offset), (3, 100, 200));
    let p = paginate(Some(2), Some(10));
    assert_eq!((p.page, p.per_page, p.offset), (2, 10, 10));
}

#[test]
fn archived_view_only_for_archived_status() {
    assert!(wants_archived(&Some("archived".to_string())));
    assert!(!wants_archived(&Some("inbox".to_string())));
    assert!(!wants_archived(&None));
}

#[test]
fn query_filters_are_parsed() {
    let q = InboxQuery {
        status: None,
        page: None,
        per_page: None,
        repo: Some("acme/api".to_string()),
        team: None,
        author: Some("bob".to_string()),
        state_include: Some("open,draft".to_string()),
        state_exclude: None,
    };
    let f = filters_of(q);
    assert_eq!(f.repo, Some("acme/api".to_string()));
    assert_eq!(f.team, None);
    assert_eq!(f.author, Some("bob".to_string()));
    assert_eq!(f.state_include, vec!["open".to_string(), "draft".to_string()]);
    assert!(f.state_exclude.is_empty());
}

#[test]
fn prefetch_replaces_viewport_with_request_items() {
    let items = vec![
        PrefetchItem { repository: "acme/api".to_string(), pr_number: 7 },
        PrefetchItem { repository: "acme/web".to_string(), pr_number: 8 },
    ];
    assert_eq!(viewport_of(&items), Some(vec![("acme/api".to_string(), 7), ("acme/web".to_string(), 8)]));
}

#[test]
fn empty_prefetch_keeps_viewport() {
    assert_eq!(viewport_of(&vec![]), None);
}

#[test]
fn page_offsets_beyond_u32_are_out_of_range() {
    assert!(page_in_range(None, None));
    assert!(page_in_range(Some(u32::MAX), Some(1)));
    assert!(!page_in_range(Some(u32::MAX), Some(2)));
    assert!(page_in_range(Some(42_949_673), Some(100)));
    assert!(!page_in_range(Some(42_949_674), Some(100)));
}
