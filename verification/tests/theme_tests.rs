use switch_theme::theme::{default_theme, find_theme, themes};

#[test]
fn finds_theme_by_slug_or_name() {
    assert_eq!(find_theme("tokyo-night").unwrap().name, "Tokyo Night");
    assert_eq!(find_theme("Tokyo Night").unwrap().slug, "tokyo-night");
    assert_eq!(
        find_theme("catppuccin mocha").unwrap().slug,
        "catppuccin-mocha"
    );
    assert_eq!(find_theme("cedar clay").unwrap().slug, "cedar-clay");
    assert_eq!(find_theme("mint-lagoon").unwrap().name, "Mint Lagoon");
    assert_eq!(find_theme("Harbor Harvest").unwrap().slug, "harbor-harvest");
    assert_eq!(find_theme("forest depths").unwrap().slug, "forest-depths");
    assert_eq!(find_theme("rose fern").unwrap().slug, "rose-fern");
}

#[test]
fn returns_none_for_unknown_theme() {
    assert!(find_theme("made-up-theme").is_none());
}

#[test]
fn all_themes_have_metadata() {
    for t in themes() {
        assert!(!t.description.is_empty(), "{} missing description", t.name);
        assert!(!t.author.is_empty(), "{} missing author", t.name);
        assert!(!t.kind.is_empty(), "{} missing kind", t.name);
        assert!(!t.mood.is_empty(), "{} missing mood", t.name);
    }
}

#[test]
fn every_theme_is_found_by_slug_and_name() {
    for t in themes() {
        assert_eq!(find_theme(t.slug), Some(t));
        assert_eq!(find_theme(t.name), Some(t));
        assert_eq!(find_theme(&t.name.to_uppercase()), Some(t));
    }
}

#[test]
fn queries_are_compared_as_slugs() {
    assert_eq!(find_theme("  ONE___dark!! ").unwrap().slug, "one-dark");
    assert!(find_theme("").is_none());
    assert!(find_theme("---").is_none());
}

#[test]
fn default_theme_is_first_and_accessors_pick_palette_entries() {
    let t = default_theme();
    assert_eq!(t, themes()[0]);
    assert_eq!(themes().len(), 13);
    assert_eq!(t.accent(), "#e0af68");
    assert_eq!(t.warning(), "#e0af68");
    assert_eq!(t.dim(), "#414868");
    assert_eq!(t.border(), "#414868");
    assert_eq!(t.success(), "#9ece6a");
    assert_eq!(t.error(), "#f7768e");
}
