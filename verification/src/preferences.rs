//! User preferences: which keys and values the preferences endpoint accepts.
use vstd::prelude::*;
use vstd::string::StringExecFns;

use crate::text::{join_strs, joined, str_equals};

verus! {

/// The theme used when none is stored.
pub const DEFAULT_THEME: &'static str = "system";

/// The themes the client offers.
pub open spec fn valid_themes() -> Seq<Seq<char>> {
    seq![
        "system"@,
        "light"@,
        "dark"@,
        "catppuccin-latte"@,
        "catppuccin-frappe"@,
        "catppuccin-macchiato"@,
        "catppuccin-mocha"@,
    ]
}

fn valid_theme_list() -> (r: [&'static str; 7])
    ensures
        r@.map_values(|t: &str| t@) == valid_themes(),
{
    let r: [&'static str; 7] = [
        "system",
        "light",
        "dark",
        "catppuccin-latte",
        "catppuccin-frappe",
        "catppuccin-macchiato",
        "catppuccin-mocha",
    ];
    assert(r@.map_values(|t: &str| t@) =~= valid_themes());
    r
}

/// The stored theme, or the default.
pub fn theme_or_default(stored: Option<String>) -> (r: String)
    ensures
        r@ == match stored {
            Some(t) => t@,
            None => "system"@,
        },
{
    match stored {
        Some(t) => t,
        None => String::from_str(DEFAULT_THEME),
    }
}

/// Why a preference update is refused, as the client is told.
pub open spec fn preference_error(key: Seq<char>, value: Option<Seq<char>>) -> Option<Seq<char>> {
    match value {
        None => Some("value for '"@ + key + "' must be a string"@),
        Some(v) => if key == "theme"@ {
            if valid_themes().contains(v) {
                None
            } else {
                Some("invalid theme '"@ + v + "'; valid values: "@ + joined(valid_themes(), ", "@))
            }
        } else {
            Some("unknown preference key '"@ + key + "'"@)
        },
    }
}

/// Check one preference update; `value` is None when the JSON value is not a
/// string. Only `theme` exists, with one of the valid themes.
pub fn validate_preference(key: &str, value: Option<&str>) -> (r: Result<(), String>)
    ensures
        match preference_error(key@, match value { Some(v) => Some(v@), None => None }) {
            Some(e) => r is Err && r->Err_0@ == e,
            None => r is Ok,
        },
{
    let v = match value {
        Some(v) => v,
        None => {
            return Err(
                String::from_str("value for '").concat(key).concat("' must be a string"),
            );
        },
    };
    if str_equals(key, "theme") {
        let themes = valid_theme_list();
        let mut i: usize = 0;
        while i < 7
            invariant
                themes@.map_values(|t: &str| t@) == valid_themes(),
                key@ == "theme"@,
                value == Some(v),
                0 <= i <= 7,
                forall|j: int| 0 <= j < i ==> valid_themes()[j] != v@,
            decreases 7 - i,
        {
            assert(valid_themes()[i as int] == themes@[i as int]@);
            if str_equals(themes[i], v) {
                assert(valid_themes().contains(v@));
                assert(key@ == "theme"@);
                assert(preference_error(key@, Some(v@)) is None);
                assert(value == Some(v));
                return Ok(());
            }
            i = i + 1;
        }
        assert(!valid_themes().contains(v@));
        let list = join_strs(&themes, ", ");
        Err(
            String::from_str("invalid theme '").concat(v).concat("'; valid values: ").concat(
                list.as_str(),
            ),
        )
    } else {
        Err(String::from_str("unknown preference key '").concat(key).concat("'"))
    }
}

/// Plan a preferences update: entries are applied in order until the first
/// refused one, whose error ends the update (earlier ones stay written).
pub fn plan_preference_writes(entries: &Vec<(String, Option<String>)>) -> (r: (
    Vec<(String, String)>,
    Option<String>,
))
    ensures
        r.0@.len() <= entries@.len(),
        forall|i: int|
            0 <= i < r.0@.len() ==> (#[trigger] r.0@[i]).0 == entries@[i].0 && entries@[i].1
                == Some(r.0@[i].1) && preference_error(entries@[i].0@, Some(r.0@[i].1@)) is None,
        match r.1 {
            Some(e) => r.0@.len() < entries@.len() && preference_error(
                entries@[r.0@.len() as int].0@,
                match entries@[r.0@.len() as int].1 {
                    Some(v) => Some(v@),
                    None => None,
                },
            ) == Some(e@),
            None => r.0@.len() == entries@.len(),
        },
{
    let mut writes: Vec<(String, String)> = Vec::new();
    let mut i: usize = 0;
    while i < entries.len()
        invariant
            0 <= i <= entries@.len(),
            writes@.len() == i,
            forall|k: int|
                0 <= k < i ==> (#[trigger] writes@[k]).0 == entries@[k].0 && entries@[k].1
                    == Some(writes@[k].1) && preference_error(entries@[k].0@, Some(writes@[k].1@))
                    is None,
        decreases entries@.len() - i,
    {
        let (key, value) = &entries[i];
        let v = match value {
            Some(v) => Some(v.as_str()),
            None => None,
        };
        match validate_preference(key.as_str(), v) {
            Ok(()) => {
                match value {
                    Some(val) => {
                        writes.push((key.clone(), val.clone()));
                    },
                    None => {
                        assert(false);
                    },
                }
            },
            Err(e) => {
                return (writes, Some(e));
            },
        }
        i = i + 1;
    }
    (writes, None)
}

} // verus!
