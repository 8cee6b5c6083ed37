use switch_theme::config::{
    delete_builtin_override, delete_custom_theme, save_builtin_override, save_custom_theme,
    save_selected_theme, BuiltinOverride, Config, CustomTheme, ResolvedThemeSource,
};
use switch_theme::theme;

fn test_custom(name: &str, slug: &str) -> CustomTheme {
    CustomTheme {
        name: name.to_string(),
        slug: slug.to_string(),
        foreground: "#FFFFFF".to_string(),
        background: "#101010".to_string(),
        cursor: "#DDDDDD".to_string(),
        selection: "#333333".to_string(),
        ansi: std::array::from_fn(|i| format!("#{:02X}{:02X}{:02X}", i * 17, i * 17, i * 17)),
        description: String::new(),
        author: "test".to_string(),
        kind: "custom".to_string(),
        mood: Vec::new(),
        accent: None,
        success: None,
        warning: None,
        error: None,
    }
}

fn test_override(name: &str, slug: &str) -> BuiltinOverride {
    BuiltinOverride {
        name: name.to_string(),
        slug: slug.to_string(),
        foreground: "#FFFFFF".to_string(),
        background: "#111111".to_string(),
        cursor: "#EEEEEE".to_string(),
        selection: "#333333".to_string(),
        ansi: std::array::from_fn(|_| "#444444".to_string()),
        description: String::new(),
        author: String::new(),
        kind: String::new(),
        mood: Vec::new(),
        accent: None,
        success: None,
        warning: None,
        error: None,
    }
}

#[test]
fn save_custom_theme_upserts_by_slug() {
    let mut config = Config::default_config();

    save_custom_theme(&mut config, test_custom("Ocean", "ocean"));

    let mut v2 = test_custom("Ocean v2", "ocean");
    v2.foreground = "#FFD786".to_string();
    v2.background = "#237227".to_string();
    save_custom_theme(&mut config, v2);

    assert_eq!(config.custom_themes.len(), 1);
    assert_eq!(config.custom_themes[0].name, "Ocean v2");
    assert_eq!(config.theme, "ocean");
}

#[test]
fn delete_custom_theme_removes_and_resets_active_if_needed() {
    let mut config = Config::default_config();
    save_custom_theme(&mut config, test_custom("Ocean", "ocean"));

    let deleted = delete_custom_theme(&mut config, "ocean");
    assert!(deleted);

    assert!(config
        .custom_themes
        .iter()
        .all(|theme| theme.slug != "ocean"));
    assert_ne!(config.theme, "ocean");
}

#[test]
fn save_builtin_override_upserts_and_resolves() {
    let mut config = Config::default_config();

    save_builtin_override(&mut config, test_override("Tokyo Night Reworked", "tokyo-night"));

    let resolved = config
        .resolved_themes()
        .into_iter()
        .find(|theme| theme.slug == "tokyo-night")
        .unwrap();

    assert_eq!(resolved.name, "Tokyo Night Reworked");
    assert_eq!(resolved.source, ResolvedThemeSource::BuiltInOverride);
}

#[test]
fn default_config_uses_the_first_theme() {
    let config = Config::default_config();
    assert_eq!(config.theme, "tokyo-night");
    assert!(config.custom_themes.is_empty());
    assert!(config.builtin_overrides.is_empty());
}

#[test]
fn resolved_list_is_builtins_then_customs() {
    let mut config = Config::default_config();
    save_custom_theme(&mut config, test_custom("Zeta", "zeta"));
    save_custom_theme(&mut config, test_custom("Alpha", "alpha"));
    let resolved = config.resolved_themes();
    assert_eq!(resolved.len(), 15);
    for (r, t) in resolved.iter().zip(theme::themes()) {
        assert_eq!(r.slug, t.slug);
        assert_eq!(r.source, ResolvedThemeSource::BuiltIn);
        assert_eq!(r.accent, None);
    }
    assert_eq!(resolved[13].slug, "zeta");
    assert_eq!(resolved[14].slug, "alpha");
    assert_eq!(resolved[14].source, ResolvedThemeSource::Custom);
    assert_eq!(resolved[14].author, "test");
}

#[test]
fn saving_a_theme_again_moves_it_to_the_end() {
    let mut config = Config::default_config();
    save_custom_theme(&mut config, test_custom("A", "a"));
    save_custom_theme(&mut config, test_custom("B", "b"));
    save_custom_theme(&mut config, test_custom("A again", "a"));
    let slugs: Vec<&str> = config.custom_themes.iter().map(|t| t.slug.as_str()).collect();
    assert_eq!(slugs, vec!["b", "a"]);
    assert_eq!(config.custom_themes[1].name, "A again");
    assert_eq!(config.theme, "a");
}

#[test]
fn delete_missing_theme_reports_false_and_keeps_config() {
    let mut config = Config::default_config();
    save_custom_theme(&mut config, test_custom("Ocean", "ocean"));
    save_selected_theme(&mut config, &theme::find_theme("nord").unwrap());
    assert!(!delete_custom_theme(&mut config, "lake"));
    assert_eq!(config.custom_themes.len(), 1);
    assert_eq!(config.theme, "nord");
    // Deleting a theme that is not the active one keeps the active one.
    assert!(delete_custom_theme(&mut config, "ocean"));
    assert_eq!(config.theme, "nord");
}

#[test]
fn deleting_an_override_restores_the_builtin() {
    let mut config = Config::default_config();
    save_builtin_override(&mut config, test_override("Nord Warm", "nord"));
    save_selected_theme(&mut config, &theme::find_theme("dracula").unwrap());
    assert_eq!(config.resolved_theme_by_query("nord").unwrap().name, "Nord Warm");
    assert!(delete_builtin_override(&mut config, "nord"));
    assert!(!delete_builtin_override(&mut config, "nord"));
    let nord = config.resolved_theme_by_query("Nord").unwrap();
    assert_eq!(nord.name, "Nord");
    assert_eq!(nord.source, ResolvedThemeSource::BuiltIn);
    assert_eq!(config.theme, "dracula");
}

#[test]
fn lookups_by_slug_and_query() {
    let mut config = Config::default_config();
    save_custom_theme(&mut config, test_custom("My Theme", "my-theme"));
    assert_eq!(config.custom_theme_by_slug("my-theme").unwrap().name, "My Theme");
    assert!(config.custom_theme_by_slug("My Theme").is_none());
    assert!(config.builtin_override_by_slug("nord").is_none());
    let found = config.resolved_theme_by_query("  MY theme ").unwrap();
    assert_eq!(found.slug, "my-theme");
    assert_eq!(found.source, ResolvedThemeSource::Custom);
    assert_eq!(config.resolved_theme_by_query("rose fern").unwrap().slug, "rose-fern");
    assert!(config.resolved_theme_by_query("nothing-like-it").is_none());
}

#[test]
fn saved_custom_theme_is_last_in_the_resolved_list() {
    let mut config = Config::default_config();
    save_custom_theme(&mut config, test_custom("Ocean", "ocean"));
    save_custom_theme(&mut config, test_custom("Lake", "lake"));
    save_custom_theme(&mut config, test_custom("Ocean again", "ocean"));
    let resolved = config.resolved_themes();
    assert_eq!(resolved.len(), 15);
    let last = &resolved[14];
    assert_eq!(last.name, "Ocean again");
    assert_eq!(last.source, ResolvedThemeSource::Custom);
    assert_eq!(resolved.iter().filter(|t| t.slug == "ocean").count(), 1);
}

#[test]
fn set_then_apply_finds_the_same_theme() {
    let mut config = Config::default_config();
    save_custom_theme(&mut config, test_custom("My Sea", "my-sea"));
    for query in ["Dracula", "solarized light", "my sea", "MY-SEA"] {
        let found = config.resolved_theme_by_query(query).unwrap();
        config.theme = found.slug.clone();
        let again = config.resolved_theme_by_query(&config.theme).unwrap();
        assert_eq!(again.slug, found.slug);
        assert_eq!(again.name, found.name);
    }
}

#[test]
fn an_override_named_like_another_theme_answers_first() {
    let mut config = Config::default_config();
    save_builtin_override(&mut config, test_override("Dracula", "tokyo-night"));
    let found = config.resolved_theme_by_query("dracula").unwrap();
    assert_eq!(found.slug, "tokyo-night");
    assert_eq!(found.source, ResolvedThemeSource::BuiltInOverride);
}
