//! The user's GitHub teams: their full slugs and how long the cached list
//! stays fresh.
use vstd::prelude::*;
use vstd::string::StringExecFns;

verus! {

/// The cached team list is refetched when older than a day.
pub const USER_TEAMS_TTL_SECS: i64 = 86_400;

/// The full slug of a team: `{org}/{team}`.
pub fn team_full_slug(org: &str, slug: &str) -> (r: String)
    ensures
        r@ == org@ + "/"@ + slug@,
{
    String::from_str(org).concat("/").concat(slug)
}

/// The full slugs of `(org, team)` pairs, in order.
pub fn team_full_slugs(teams: &Vec<(String, String)>) -> (r: Vec<String>)
    ensures
        r@.len() == teams@.len(),
        forall|i: int|
            0 <= i < r@.len() ==> (#[trigger] r@[i])@ == teams@[i].0@ + "/"@ + teams@[i].1@,
{
    let mut out: Vec<String> = Vec::new();
    let mut i: usize = 0;
    while i < teams.len()
        invariant
            0 <= i <= teams@.len(),
            out@.len() == i,
            forall|k: int|
                0 <= k < i ==> (#[trigger] out@[k])@ == teams@[k].0@ + "/"@ + teams@[k].1@,
        decreases teams@.len() - i,
    {
        out.push(team_full_slug(teams[i].0.as_str(), teams[i].1.as_str()));
        i = i + 1;
    }
    out
}

/// Whether the cached team list must be refetched: never fetched, or fetched
/// more than a day ago.
pub fn user_teams_stale(last_fetched: Option<i64>, now: i64) -> (r: bool)
    requires
        match last_fetched {
            Some(t) => i64::MIN <= now - t <= i64::MAX,
            None => true,
        },
    ensures
        r == match last_fetched {
            Some(t) => now - t > USER_TEAMS_TTL_SECS,
            None => true,
        },
{
    match last_fetched {
        Some(t) => now - t > USER_TEAMS_TTL_SECS,
        None => true,
    }
}

} // verus!
