use switch_theme::colors::{hex_to_rgb, rgb_to_hex};
use switch_theme::config::{Config, CustomTheme};
use switch_theme::tui::library::LibFilter;
use switch_theme::tui::wizard::generate_custom_theme;
use switch_theme::tui::{
    build_theme_entries, current_index, save_selected_entry, slugify, Action, AppMode, AppState,
    CreatorFocus, CreatorState, EntryError, KeyInput, ThemeEntry, ThemeSource,
};

fn mix(a: (u8, u8, u8), b: (u8, u8, u8), ratio_b: f32) -> (u8, u8, u8) {
    let ratio_a = 1.0 - ratio_b;
    (
        (a.0 as f32 * ratio_a + b.0 as f32 * ratio_b).round() as u8,
        (a.1 as f32 * ratio_a + b.1 as f32 * ratio_b).round() as u8,
        (a.2 as f32 * ratio_a + b.2 as f32 * ratio_b).round() as u8,
    )
}

fn lighten(color: (u8, u8, u8), amount: f32) -> (u8, u8, u8) {
    mix(color, (255, 255, 255), amount)
}

fn scale(color: (u8, u8, u8), factor: f32) -> (u8, u8, u8) {
    (
        (color.0 as f32 * factor).round().clamp(0.0, 255.0) as u8,
        (color.1 as f32 * factor).round().clamp(0.0, 255.0) as u8,
        (color.2 as f32 * factor).round().clamp(0.0, 255.0) as u8,
    )
}

fn derive_ansi(background: &str, foreground: &str, cursor: &str, selection: &str) -> [String; 16] {
    let bg = hex_to_rgb(background);
    let fg = hex_to_rgb(foreground);
    let cs = hex_to_rgb(cursor);
    let sel = hex_to_rgb(selection);
    [
        rgb_to_hex(scale(bg, 0.55)),
        rgb_to_hex(mix(cs, fg, 0.4)),
        rgb_to_hex(mix(sel, fg, 0.35)),
        rgb_to_hex(mix(fg, cs, 0.15)),
        rgb_to_hex(cs),
        rgb_to_hex(mix(cs, sel, 0.6)),
        rgb_to_hex(sel),
        rgb_to_hex(scale(fg, 0.8)),
        rgb_to_hex(scale(bg, 0.8)),
        rgb_to_hex(lighten(mix(cs, fg, 0.4), 0.15)),
        rgb_to_hex(lighten(mix(sel, fg, 0.35), 0.15)),
        rgb_to_hex(lighten(mix(fg, cs, 0.15), 0.15)),
        rgb_to_hex(lighten(cs, 0.2)),
        rgb_to_hex(lighten(mix(cs, sel, 0.6), 0.2)),
        rgb_to_hex(lighten(sel, 0.2)),
        rgb_to_hex(lighten(fg, 0.14)),
    ]
}

fn generate(name: &str, background: &str, foreground: &str, cursor: &str, selection: &str) -> CustomTheme {
    let ansi = derive_ansi(background, foreground, cursor, selection);
    generate_custom_theme(name, background, foreground, cursor, selection, ansi)
}

#[test]
fn tui_generated_theme_is_deterministic_for_same_input() {
    let a = generate("Forest Rose", "#237227", "#FFD786", "#FFF2CD", "#502B1A");
    let b = generate("Forest Rose", "#237227", "#FFD786", "#FFF2CD", "#502B1A");

    assert_eq!(a, b);
}

#[test]
fn tui_slugify_normalizes_words() {
    assert_eq!(slugify("  Forest   Rose  Theme "), "forest-rose-theme");
}

#[test]
fn mod_generated_theme_is_deterministic_for_same_input() {
    let a = generate("Forest Rose", "#237227", "#FFD786", "#FFF2CD", "#502B1A");
    let b = generate("Forest Rose", "#237227", "#FFD786", "#FFF2CD", "#502B1A");
    assert_eq!(a, b);
}

#[test]
fn mod_slugify_normalizes_words() {
    assert_eq!(slugify("  Forest   Rose  Theme "), "forest-rose-theme");
}

#[test]
fn generated_theme_fields() {
    let g = generate("Forest Rose", "237227", " #ffd786", "#FFF2CD", "#502b1a");
    assert_eq!(g.slug, "forest-rose");
    assert_eq!(g.background, "#237227");
    assert_eq!(g.foreground, "#FFD786");
    assert_eq!(g.selection, "#502B1A");
    assert_eq!(g.ansi[4], "#FFF2CD");
    assert_eq!(g.ansi[6], "#502B1A");
    assert_eq!(g.author, "you");
    assert_eq!(g.kind, "custom");
    assert!(g.mood.is_empty());
}

#[test]
fn slugify_edge_cases() {
    assert_eq!(slugify(""), "");
    assert_eq!(slugify("!!!"), "");
    assert_eq!(slugify("Café Noir"), "caf-noir");
    assert_eq!(slugify("a--b__c"), "a-b-c");
    assert_eq!(slugify(&slugify("  Mixed CASE  words ")), slugify("  Mixed CASE  words "));
}

fn key(ch: char) -> KeyInput {
    KeyInput::Char { ch, plain: true }
}

fn state() -> AppState {
    AppState::new(&Config::default_config())
}

#[test]
fn new_state_selects_active_theme() {
    let mut config = Config::default_config();
    config.theme = "nord".to_string();
    let s = AppState::new(&config);
    assert_eq!(s.mode, AppMode::Home);
    assert_eq!(s.themes[s.selected].slug, "nord");
    assert_eq!(s.lib_filtered_indices.len(), 13);
    assert_eq!(s.status, "Ready.");
    config.theme = "gone".to_string();
    assert_eq!(AppState::new(&config).selected, 0);
}

#[test]
fn home_keys() {
    let mut s = state();
    assert!(matches!(s.home_key(KeyInput::Up), Action::Stay));
    assert_eq!(s.home_selected, 3);
    assert!(matches!(s.home_key(key('j')), Action::Stay));
    assert_eq!(s.home_selected, 0);
    s.home_key(KeyInput::Enter);
    assert_eq!(s.mode, AppMode::Library);
    assert_eq!(s.status, "Library opened.");
    let mut s = state();
    s.home_key(key('e'));
    assert_eq!(s.mode, AppMode::Creator);
    assert_eq!(s.editing_slug.as_deref(), Some("tokyo-night"));
    assert_eq!(s.creator.name, "Tokyo Night fork");
    assert_eq!(s.creator.accent, "#e0af68");
    assert_eq!(s.creator.error, "#f7768e");
    assert!(matches!(state().home_key(KeyInput::Esc), Action::Quit));
}

#[test]
fn library_filters_and_search() {
    let mut s = state();
    s.mode = AppMode::Library;
    s.library_key(key('f'));
    assert_eq!(s.lib_filter, LibFilter::Dark);
    assert_eq!(s.lib_filtered_indices.len(), 10);
    s.library_key(KeyInput::Tab);
    assert_eq!(s.lib_filter, LibFilter::Light);
    assert_eq!(s.lib_filtered_indices, vec![4, 9, 10]);
    s.library_key(key('/'));
    assert!(s.lib_search_active);
    for ch in "MINT".chars() {
        s.library_key(key(ch));
    }
    assert_eq!(s.lib_search_query, "MINT");
    assert_eq!(s.lib_filtered_indices, vec![9]);
    s.library_key(KeyInput::Backspace);
    assert_eq!(s.lib_search_query, "MIN");
    s.library_key(KeyInput::Enter);
    assert!(!s.lib_search_active);
    for _ in 0..4 {
        s.library_key(key('f'));
    }
    assert_eq!(s.lib_filter, LibFilter::All);
    assert_eq!(LibFilter::Custom.label(), "custom");
    assert_eq!(LibFilter::Custom.next(), LibFilter::All);
}

#[test]
fn library_navigation_wraps_through_filtered_entries() {
    let mut s = state();
    s.mode = AppMode::Library;
    s.library_key(key('f'));
    s.library_key(key('f'));
    // Light themes are 4, 9 and 10; the selection (0) is not among them.
    match s.library_key(KeyInput::Down) {
        Action::Preview(i) => assert_eq!(i, 9),
        _ => panic!("expected a preview"),
    }
    s.library_key(KeyInput::Down);
    assert_eq!(s.selected, 10);
    s.library_key(KeyInput::Down);
    assert_eq!(s.selected, 4);
    s.library_key(key('k'));
    assert_eq!(s.selected, 10);
    assert_eq!(s.status, "Previewing Harbor Harvest.");
}

#[test]
fn library_delete_flow() {
    let mut config = Config::default_config();
    let mut s = AppState::new(&config);
    s.mode = AppMode::Library;
    s.library_key(key('d'));
    assert_eq!(s.status, "Cannot delete built-in theme.");
    assert!(s.pending_delete_slug.is_none());
    let custom = CustomTheme {
        name: "Ocean".to_string(),
        slug: "ocean".to_string(),
        foreground: "#FFFFFF".to_string(),
        background: "#101010".to_string(),
        cursor: "#DDDDDD".to_string(),
        selection: "#333333".to_string(),
        ansi: std::array::from_fn(|_| "#222222".to_string()),
        description: "deep blue".to_string(),
        author: "test".to_string(),
        kind: "custom".to_string(),
        mood: vec!["cool".to_string()],
        accent: None,
        success: None,
        warning: None,
        error: None,
    };
    switch_theme::config::save_custom_theme(&mut config, custom);
    s.reload_themes(&config);
    assert_eq!(s.themes[s.selected].slug, "ocean");
    assert_eq!(s.themes[s.selected].source, ThemeSource::Custom);
    s.library_key(key('d'));
    assert_eq!(s.status, "Delete 'ocean'? y/n");
    match s.library_key(key('y')) {
        Action::Delete { slug, builtin_override } => {
            assert_eq!(slug, "ocean");
            assert!(!builtin_override);
        }
        _ => panic!("expected a delete"),
    }
    let deleted = switch_theme::config::delete_custom_theme(&mut config, "ocean");
    s.after_delete("ocean", deleted, &config);
    assert_eq!(s.status, "Deleted 'ocean'.");
    assert_eq!(s.themes.len(), 13);
    assert_eq!(s.themes[s.selected].slug, "tokyo-night");
    s.library_key(key('d'));
    assert!(s.pending_delete_slug.is_none());
}

#[test]
fn library_click_selects_filtered_row() {
    let mut s = state();
    s.mode = AppMode::Library;
    s.library_key(key('f'));
    s.library_key(key('f'));
    match s.library_click(3, 6, 0, 5, 38, 20) {
        Action::Preview(i) => assert_eq!(i, 9),
        _ => panic!("expected a preview"),
    }
    assert!(matches!(s.library_click(3, 30, 0, 5, 38, 20), Action::Stay));
    assert!(matches!(s.library_click(3, 9, 0, 5, 38, 20), Action::Stay));
    assert_eq!(s.selected, 9);
}

#[test]
fn creator_editing_and_saving() {
    let mut config = Config::default_config();
    let mut s = AppState::new(&config);
    s.home_key(key('n'));
    assert_eq!(s.creator, CreatorState::default());
    assert_eq!(s.creator_focus, CreatorFocus::Name);
    // On the name field, 's' is text.
    s.creator_key(key('s'));
    assert_eq!(s.creator.name, "my-themes");
    s.creator_key(KeyInput::Backspace);
    s.creator_key(KeyInput::Enter);
    assert_eq!(s.creator_focus, CreatorFocus::Mood);
    s.creator_key(key('w'));
    s.creator_key(key('d'));
    assert_eq!(s.creator.mood, vec!["warm".to_string()]);
    s.creator_key(KeyInput::Tab);
    assert_eq!(s.creator_focus, CreatorFocus::Background);
    for _ in 0..7 {
        s.creator_key(KeyInput::Backspace);
    }
    for ch in "navy".chars() {
        s.creator_key(key(ch));
    }
    s.creator_key(KeyInput::Enter);
    assert_eq!(s.creator.error_msg.as_deref(), Some("Invalid color. Use #RRGGBB, name, or 0-255."));
    for _ in 0..4 {
        s.creator_key(KeyInput::Backspace);
    }
    for ch in "21".chars() {
        s.creator_key(key(ch));
    }
    s.creator_key(KeyInput::Enter);
    assert_eq!(s.creator.background, "#0000FF");
    assert!(s.creator.error_msg.is_none());
    assert_eq!(s.creator_focus, CreatorFocus::Foreground);
    s.creator_key(KeyInput::BackTab);
    assert_eq!(s.creator_focus, CreatorFocus::Background);
    assert!(matches!(s.creator_key(key('p')), Action::PreviewDraft));
    assert!(matches!(s.creator_key(key('r')), Action::Randomize));
    assert!(matches!(s.creator_key(key('s')), Action::SaveDraft));
    let derived: [String; 16] = std::array::from_fn(|i| format!("#0000{:02X}", i));
    let saved = s.save_draft(&mut config, &derived);
    assert_eq!(saved, Some(13));
    assert_eq!(config.theme, "my-theme");
    assert_eq!(config.custom_themes.len(), 1);
    assert_eq!(config.custom_themes[0].ansi[5], "#000005");
    assert_eq!(config.custom_themes[0].accent.as_deref(), Some("#E0AF68"));
    assert_eq!(s.mode, AppMode::Library);
    assert_eq!(s.status, "Saved my-theme.");
    assert_eq!(s.themes[13].slug, "my-theme");
}

#[test]
fn creator_blank_name_is_refused_and_esc_cancels() {
    let mut config = Config::default_config();
    let mut s = AppState::new(&config);
    s.home_key(key('1'));
    s.creator.name = "   ".to_string();
    let derived: [String; 16] = std::array::from_fn(|_| "#000000".to_string());
    assert_eq!(s.save_draft(&mut config, &derived), None);
    assert_eq!(s.creator.error_msg.as_deref(), Some("Theme name is required."));
    assert!(config.custom_themes.is_empty());
    s.creator_key(KeyInput::Esc);
    assert_eq!(s.mode, AppMode::Library);
    assert_eq!(s.status, "Creator cancelled.");
}

#[test]
fn editing_a_builtin_saves_an_override() {
    let mut config = Config::default_config();
    let mut s = AppState::new(&config);
    s.home_key(key('e'));
    s.creator_focus = CreatorFocus::AnsiToggle;
    s.creator_key(key(' '));
    assert!(!s.creator.ansi_auto);
    let derived: [String; 16] = std::array::from_fn(|_| "#000000".to_string());
    s.save_draft(&mut config, &derived);
    assert_eq!(config.builtin_overrides.len(), 1);
    assert_eq!(config.builtin_overrides[0].slug, "tokyo-night");
    assert_eq!(config.builtin_overrides[0].name, "Tokyo Night fork");
    assert_eq!(config.builtin_overrides[0].ansi[0], "#15161e");
    assert_eq!(s.themes[0].source, ThemeSource::BuiltInOverride);
    assert_eq!(s.selected, 0);
}

#[test]
fn entries_colors_fall_back_to_palette() {
    let config = Config::default_config();
    let entries = build_theme_entries(&config);
    assert_eq!(entries.len(), 13);
    assert_eq!(entries[0].success_color(), "#9ece6a");
    assert_eq!(entries[0].warning_color(), "#e0af68");
    assert_eq!(entries[0].error_color(), "#f7768e");
    let draft = CreatorState::default();
    let derived: [String; 16] = std::array::from_fn(|_| "#101010".to_string());
    let entry = draft.to_theme_entry(&derived);
    assert_eq!(entry.slug, "my-theme");
    assert_eq!(entry.success_color(), "#9ECE6A");
    assert_eq!(entry.ansi[3], "#101010");
    assert_eq!(entry.to_custom_theme().error.as_deref(), Some("#F7768E"));
}

#[test]
fn focus_cycles_through_all_fields() {
    let mut f = CreatorFocus::Name;
    for _ in 0..11 {
        assert_eq!(f.next().prev(), f);
        f = f.next();
    }
    assert_eq!(f, CreatorFocus::Name);
    assert_eq!(CreatorFocus::Name.prev(), CreatorFocus::AnsiToggle);
}

#[test]
fn library_down_then_up_returns_to_the_entry() {
    let mut s = state();
    s.mode = AppMode::Library;
    s.library_key(key('f'));
    for start in [0usize, 5, 9] {
        s.selected = s.lib_filtered_indices[start];
        s.library_key(KeyInput::Down);
        s.library_key(KeyInput::Up);
        assert_eq!(s.selected, s.lib_filtered_indices[start]);
        s.library_key(key('k'));
        s.library_key(key('j'));
        assert_eq!(s.selected, s.lib_filtered_indices[start]);
    }
}

#[test]
fn saving_a_selected_entry() {
    let mut config = Config::default_config();
    let entries = build_theme_entries(&config);
    assert!(save_selected_entry(&mut config, &entries[5]).is_ok());
    assert_eq!(config.theme, "dracula");
    assert!(config.custom_themes.is_empty());

    let mut custom = entries[2].copy();
    custom.source = ThemeSource::Custom;
    custom.slug = "my-gruvbox".to_string();
    assert!(save_selected_entry(&mut config, &custom).is_ok());
    assert_eq!(config.theme, "my-gruvbox");
    assert_eq!(config.custom_themes.len(), 1);
    assert_eq!(config.custom_themes[0].name, "Gruvbox Dark");

    let mut missing = entries[0].copy();
    missing.slug = "made-up".to_string();
    match save_selected_entry(&mut config, &missing) {
        Err(EntryError::MissingBuiltIn(slug)) => assert_eq!(slug, "made-up"),
        Ok(()) => panic!("expected an error"),
    }
    assert_eq!(config.theme, "my-gruvbox");
}

#[test]
fn entries_and_lookups() {
    let theme = switch_theme::theme::default_theme();
    let e = ThemeEntry::from_builtin(&theme);
    assert_eq!(e.slug, "tokyo-night");
    assert_eq!(e.source, ThemeSource::BuiltIn);
    assert_eq!(e.mood, vec!["dark".to_string(), "cool".to_string()]);
    let c = ThemeEntry::from_custom(&e.to_custom_theme());
    assert_eq!(c.source, ThemeSource::Custom);
    assert_eq!(c.name, "Tokyo Night");
    let entries = build_theme_entries(&Config::default_config());
    assert_eq!(current_index(&entries, "nord"), 6);
    assert_eq!(current_index(&entries, "nowhere"), 0);
    let s = state();
    assert_eq!(s.active_idx(), 0);
    assert_eq!(s.active_theme().name, "Tokyo Night");
    assert_eq!(s.focused_library_theme().map(|t| t.slug), Some("tokyo-night".to_string()));
}

#[test]
fn creator_fields_by_focus() {
    let mut d = CreatorState::default();
    assert_eq!(d.active_field_value(&CreatorFocus::Cursor), "#C0CAF5");
    assert_eq!(d.active_field_value(&CreatorFocus::Mood), "");
    assert_eq!(d.active_field_value(&CreatorFocus::AnsiToggle), "");
    d.set_active_field(CreatorFocus::Warning, "#123456".to_string());
    assert_eq!(d.warning, "#123456");
    d.set_active_field(CreatorFocus::Mood, "ignored".to_string());
    assert_eq!(d.mood, vec!["dark".to_string()]);
    let f = CreatorState::from_theme(&build_theme_entries(&Config::default_config())[12]);
    assert_eq!(f.name, "Rose Fern fork");
    assert_eq!(f.success, "#7ED4A4");
    assert!(f.ansi_auto);
}

#[test]
fn library_c_creates_a_new_theme() {
    let mut s = state();
    s.mode = AppMode::Library;
    s.creator.name = "leftover".to_string();
    s.editing_slug = Some("nord".to_string());
    assert!(matches!(s.library_key(key('c')), Action::Stay));
    assert_eq!(s.mode, AppMode::Creator);
    assert_eq!(s.creator, CreatorState::default());
    assert!(s.editing_slug.is_none());
    assert_eq!(s.status, "Theme creator launched.");
}

#[test]
fn generated_theme_sets_cursor_and_selection_entries() {
    let palette: [String; 16] = std::array::from_fn(|_| "#000000".to_string());
    let g = generate_custom_theme("Mist", "#101010", "#EEEEEE", " fff2cd", "502b1a", palette);
    assert_eq!(g.ansi[4], "#FFF2CD");
    assert_eq!(g.ansi[6], "#502B1A");
    assert_eq!(g.ansi[5], "#000000");
    assert_eq!(g.ansi[3], "#000000");
    assert_eq!(g.cursor, "#FFF2CD");
}
