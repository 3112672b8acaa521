use gh_inbox::preferences::{plan_preference_writes, theme_or_default, validate_preference, DEFAULT_THEME};

#[test]
fn theme_defaults_to_system() {
    assert_eq!(DEFAULT_THEME, "system");
    assert_eq!(theme_or_default(None), "system");
    assert_eq!(theme_or_default(Some("dark".to_string())), "dark");
}

#[test]
fn valid_theme_is_accepted() {
    assert!(validate_preference("theme", Some("catppuccin-mocha")).is_ok());
    assert!(validate_preference("theme", Some("light")).is_ok());
}

#[test]
fn invalid_theme_lists_valid_values() {
    assert_eq!(
        validate_preference("theme", Some("neon")),
        Err("invalid theme 'neon'; valid values: system, light, dark, catppuccin-latte, catppuccin-frappe, catppuccin-macchiato, catppuccin-mocha".to_string())
    );
}

#[test]
fn unknown_key_is_refused() {
    assert_eq!(validate_preference("font", Some("mono")), Err("unknown preference key 'font'".to_string()));
}

#[test]
fn non_string_value_is_refused() {
    assert_eq!(validate_preference("theme", None), Err("value for 'theme' must be a string".to_string()));
}

#[test]
fn writes_stop_at_first_refused_entry() {
    let entries = vec![
        ("theme".to_string(), Some("dark".to_string())),
        ("font".to_string(), Some("mono".to_string())),
        ("theme".to_string(), Some("light".to_string())),
    ];
    let (writes, err) = plan_preference_writes(&entries);
    assert_eq!(writes, vec![("theme".to_string(), "dark".to_string())]);
    assert_eq!(err, Some("unknown preference key 'font'".to_string()));
    let (writes, err) = plan_preference_writes(&vec![("theme".to_string(), Some("light".to_string()))]);
    assert_eq!(writes.len(), 1);
    assert_eq!(err, None);
}
