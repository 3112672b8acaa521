use gh_inbox::teams::team_full_slugs;

/// The `(organization.login, slug)` pairs of a `/user/teams` response.
fn teams(pairs: &[(&str, &str)]) -> Vec<(String, String)> {
    pairs.iter().map(|(org, slug)| (org.to_string(), slug.to_string())).collect()
}

#[test]
fn parse_user_teams_valid() {
    // [{"slug": "platform", "organization": {"login": "acme"}},
    //  {"slug": "backend", "organization": {"login": "acme"}}]
    let result = team_full_slugs(&teams(&[("acme", "platform"), ("acme", "backend")]));
    assert_eq!(result, vec!["acme/platform", "acme/backend"]);
}

#[test]
fn parse_user_teams_empty() {
    let result = team_full_slugs(&teams(&[]));
    assert!(result.is_empty());
}
