use switch_theme::config::{delete_custom_theme, Config};
use switch_theme::tui::wizard::{WizardDraft, WizardState, WizardStep};
use switch_theme::tui::{Action, AppMode, KeyInput, ThemeSource};

fn key(ch: char) -> KeyInput {
    KeyInput::Char { ch, plain: true }
}

fn type_text(s: &mut WizardState, text: &str) {
    for ch in text.chars() {
        s.creator_key(key(ch));
    }
}

fn palette() -> [String; 16] {
    std::array::from_fn(|i| format!("#{:02X}0000", i))
}

#[test]
fn wizard_opens_on_the_launcher() {
    let mut config = Config::default_config();
    config.theme = "one-dark".to_string();
    let s = WizardState::new(&config);
    assert_eq!(s.mode, AppMode::Home);
    assert_eq!(s.home_selected, 0);
    assert_eq!(s.themes[s.selected].slug, "one-dark");
    assert_eq!(s.status, "SYSTEM_STATUS: OK | Active: Local_Default");
    assert_eq!(s.creator, WizardDraft::default());
}

#[test]
fn wizard_launcher_keys() {
    let config = Config::default_config();
    let mut s = WizardState::new(&config);
    s.home_key(KeyInput::Down);
    assert_eq!(s.home_selected, 1);
    s.home_key(key('j'));
    assert_eq!(s.home_selected, 0);
    s.home_key(KeyInput::Up);
    assert_eq!(s.home_selected, 1);
    s.home_key(KeyInput::Enter);
    assert_eq!(s.mode, AppMode::Library);
    assert_eq!(s.status, "Library opened.");
    let mut s = WizardState::new(&config);
    s.home_key(KeyInput::Enter);
    assert_eq!(s.mode, AppMode::Creator);
    assert_eq!(s.status, "Theme creator launched.");
    assert!(matches!(WizardState::new(&config).home_key(key('q')), Action::Quit));
    let mut s = WizardState::new(&config);
    s.home_key(key('x'));
    assert_eq!(s.mode, AppMode::Home);
}

#[test]
fn wizard_creates_a_theme_step_by_step() {
    let mut config = Config::default_config();
    let mut s = WizardState::new(&config);
    s.home_key(key('1'));
    assert_eq!(s.creator.step, WizardStep::Guide);
    s.creator_key(key('x'));
    assert_eq!(s.creator.step, WizardStep::Guide);
    s.creator_key(KeyInput::Enter);
    assert_eq!(s.creator.step, WizardStep::Background);

    type_text(&mut s, "navy");
    s.creator_key(KeyInput::Enter);
    assert_eq!(
        s.creator.error.as_deref(),
        Some("Invalid color. Use #RRGGBB, name, or ANSI index.")
    );
    assert_eq!(s.creator.step, WizardStep::Background);
    for _ in 0..4 {
        s.creator_key(KeyInput::Backspace);
    }
    type_text(&mut s, "237227");
    s.creator_key(KeyInput::Enter);
    assert_eq!(s.creator.background, "#237227");
    assert!(s.creator.error.is_none());
    assert_eq!(s.creator.step, WizardStep::Foreground);

    type_text(&mut s, " White ");
    s.creator_key(KeyInput::Tab);
    assert_eq!(s.creator.foreground, "#FFFFFF");
    type_text(&mut s, "196");
    s.creator_key(KeyInput::Enter);
    assert_eq!(s.creator.cursor, "#FF0000");
    type_text(&mut s, "#502b1a");
    s.creator_key(KeyInput::Enter);
    assert_eq!(s.creator.selection, "#502B1A");
    assert_eq!(s.creator.step, WizardStep::Name);

    type_text(&mut s, "   ");
    s.creator_key(KeyInput::Enter);
    assert_eq!(s.creator.error.as_deref(), Some("Theme name is required."));
    for _ in 0..3 {
        s.creator_key(KeyInput::Backspace);
    }
    type_text(&mut s, " Forest Rose ");
    s.creator_key(KeyInput::Enter);
    assert_eq!(s.creator.step, WizardStep::Review);
    assert!(matches!(s.creator_key(key('y')), Action::SaveDraft));

    let index = s.save_generated(&mut config, palette());
    assert_eq!(index, 13);
    assert_eq!(s.selected, 13);
    assert_eq!(config.theme, "forest-rose");
    assert_eq!(config.custom_themes.len(), 1);
    let saved = &config.custom_themes[0];
    assert_eq!(saved.name, "Forest Rose");
    assert_eq!(saved.background, "#237227");
    assert_eq!(saved.foreground, "#FFFFFF");
    assert_eq!(saved.ansi[3], "#030000");
    assert_eq!(s.mode, AppMode::Library);
    assert_eq!(s.status, "Saved forest-rose.");
    assert_eq!(s.creator, WizardDraft::default());
}

#[test]
fn wizard_creator_aborts_and_cancels() {
    let config = Config::default_config();
    let mut s = WizardState::new(&config);
    s.home_key(key('1'));
    s.creator_key(key('p'));
    s.creator_key(KeyInput::Esc);
    assert_eq!(s.mode, AppMode::Library);
    assert_eq!(s.status, "Creator aborted.");
    assert_eq!(s.creator.step, WizardStep::Guide);

    let mut s = WizardState::new(&config);
    s.home_key(key('1'));
    s.creator.step = WizardStep::Review;
    assert!(matches!(s.creator_key(key('n')), Action::Stay));
    assert_eq!(s.status, "Creator cancelled.");
    assert_eq!(s.mode, AppMode::Library);
}

#[test]
fn wizard_editing_a_builtin_saves_an_override() {
    let mut config = Config::default_config();
    let mut s = WizardState::new(&config);
    s.home_key(key('2'));
    s.library_key(KeyInput::Down);
    s.library_key(key('e'));
    assert_eq!(s.mode, AppMode::Creator);
    assert_eq!(s.creator.step, WizardStep::Background);
    assert_eq!(s.creator.name, "Catppuccin Mocha");
    assert_eq!(s.editing_slug.as_deref(), Some("catppuccin-mocha"));
    assert_eq!(s.status, "Editing theme 'catppuccin-mocha'.");
    s.creator.step = WizardStep::Review;
    assert!(matches!(s.creator_key(KeyInput::Enter), Action::SaveDraft));
    let index = s.save_generated(&mut config, palette());
    assert_eq!(index, 1);
    assert_eq!(config.builtin_overrides.len(), 1);
    assert_eq!(config.builtin_overrides[0].slug, "catppuccin-mocha");
    assert_eq!(config.theme, "catppuccin-mocha");
    assert_eq!(s.themes[1].source, ThemeSource::BuiltInOverride);
}

#[test]
fn wizard_library_keys_and_delete() {
    let mut config = Config::default_config();
    let mut s = WizardState::new(&config);
    s.home_key(key('2'));
    match s.library_key(KeyInput::Up) {
        Action::Preview(i) => assert_eq!(i, 12),
        _ => panic!("expected a preview"),
    }
    assert_eq!(s.status, "Previewing Rose Fern.");
    match s.library_key(key('a')) {
        Action::SaveAndApply(i) => assert_eq!(i, 12),
        _ => panic!("expected a save"),
    }
    assert_eq!(s.status, "Saved rose-fern.");
    s.library_key(key('d'));
    assert_eq!(s.status, "No override to delete for this built-in theme.");

    s.home_key(key('1'));
    s.mode = AppMode::Creator;
    s.creator.background = "#101010".to_string();
    s.creator.foreground = "#EEEEEE".to_string();
    s.creator.cursor = "#EEEEEE".to_string();
    s.creator.selection = "#333333".to_string();
    s.creator.name = "Dusk".to_string();
    s.creator.step = WizardStep::Review;
    s.save_generated(&mut config, palette());
    assert_eq!(s.themes[s.selected].slug, "dusk");
    s.library_key(key('d'));
    assert_eq!(s.status, "Delete 'dusk' ? Press y to confirm, n to cancel.");
    s.library_key(key('x'));
    assert_eq!(s.pending_delete_slug.as_deref(), Some("dusk"));
    s.library_key(key('n'));
    assert_eq!(s.status, "Delete cancelled.");
    s.library_key(key('d'));
    match s.library_key(key('y')) {
        Action::Delete { slug, builtin_override } => {
            assert_eq!(slug, "dusk");
            assert!(!builtin_override);
        }
        _ => panic!("expected a delete"),
    }
    let deleted = delete_custom_theme(&mut config, "dusk");
    assert_eq!(s.after_delete("dusk", deleted, &config), Some(0));
    assert_eq!(s.status, "Deleted theme customization 'dusk'.");
    assert_eq!(s.themes.len(), 13);
    assert_eq!(s.after_delete("dusk", false, &config), None);
    assert_eq!(s.status, "Theme not found; nothing deleted.");
    s.library_key(key('h'));
    assert_eq!(s.mode, AppMode::Home);
    assert_eq!(s.status, "Returned to launcher.");
}

#[test]
fn wizard_click_selects_the_row_under_the_pointer() {
    let config = Config::default_config();
    let mut s = WizardState::new(&config);
    assert!(matches!(s.library_click(2, 8, 0, 2, 40, 20), Action::Stay));
    s.home_key(key('2'));
    match s.library_click(2, 8, 0, 2, 40, 20) {
        Action::Preview(i) => assert_eq!(i, 4),
        _ => panic!("expected a preview"),
    }
    assert_eq!(s.selected, 4);
    assert_eq!(s.status, "Previewing Solarized Light.");
    assert!(matches!(s.library_click(50, 8, 0, 2, 40, 20), Action::Stay));
    assert!(matches!(s.library_click(2, 21, 0, 2, 40, 20), Action::Stay));
}

#[test]
fn wizard_library_c_creates_a_new_theme() {
    let config = Config::default_config();
    let mut s = WizardState::new(&config);
    s.home_key(key('2'));
    assert!(matches!(s.library_key(key('c')), Action::Stay));
    assert_eq!(s.mode, AppMode::Creator);
    assert_eq!(s.creator, WizardDraft::default());
    assert!(s.editing_slug.is_none());
    assert_eq!(s.status, "Theme creator launched.");
}
