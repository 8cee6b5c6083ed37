use switch_theme::apply::{reset_escape_sequence, theme_escape_sequence};
use switch_theme::cli::{execute, needs_config, Cli, Command, Outcome};
use switch_theme::config::{save_custom_theme, Config, CustomTheme};
use switch_theme::theme::find_theme;

fn run(command: Option<Command>, config: Option<Config>) -> Outcome {
    execute(Cli { command }, config)
}

fn custom(name: &str, slug: &str) -> CustomTheme {
    CustomTheme {
        name: name.to_string(),
        slug: slug.to_string(),
        foreground: "#EEEEEE".to_string(),
        background: "#121212".to_string(),
        cursor: "#FFFFFF".to_string(),
        selection: "#333333".to_string(),
        ansi: std::array::from_fn(|i| format!("#0{:X}0000", i)),
        description: String::new(),
        author: "test".to_string(),
        kind: "custom".to_string(),
        mood: Vec::new(),
        accent: None,
        success: None,
        warning: None,
        error: None,
    }
}

#[test]
fn commands_that_read_the_config() {
    assert!(needs_config(&Cli { command: Some(Command::Apply) }));
    assert!(needs_config(&Cli { command: Some(Command::SetTheme { theme: "x".to_string() }) }));
    assert!(needs_config(&Cli { command: Some(Command::List) }));
    assert!(needs_config(&Cli { command: Some(Command::Current) }));
    assert!(!needs_config(&Cli { command: Some(Command::Init) }));
    assert!(!needs_config(&Cli { command: Some(Command::Reset) }));
    assert!(!needs_config(&Cli { command: None }));
}

#[test]
fn apply_writes_the_saved_theme() {
    let mut config = Config::default_config();
    config.theme = "nord".to_string();
    match run(Some(Command::Apply), Some(config)) {
        Outcome::Write(text) => {
            assert_eq!(text, theme_escape_sequence(&find_theme("nord").unwrap()));
        }
        _ => panic!("expected a write"),
    }
    let mut config = Config::default_config();
    save_custom_theme(&mut config, custom("Night Owl", "night-owl"));
    match run(Some(Command::Apply), Some(config)) {
        Outcome::Write(text) => {
            assert!(text.starts_with("\x1b]4;0;#000000\x07\x1b]4;1;#010000\x07"));
            assert!(text.ends_with("\x1b]10;#EEEEEE\x07\x1b]11;#121212\x07\x1b]12;#FFFFFF\x07"));
        }
        _ => panic!("expected a write"),
    }
}

#[test]
fn apply_with_an_unknown_saved_theme_fails() {
    let mut config = Config::default_config();
    config.theme = "gone".to_string();
    match run(Some(Command::Apply), Some(config)) {
        Outcome::Fail(message) => assert_eq!(message, "unknown saved theme 'gone'"),
        _ => panic!("expected a failure"),
    }
}

#[test]
fn set_saves_the_found_slug() {
    let command = Command::SetTheme { theme: "Rose Fern".to_string() };
    match run(Some(command), Some(Config::default_config())) {
        Outcome::Save(config) => {
            assert_eq!(config.theme, "rose-fern");
            assert!(config.custom_themes.is_empty());
        }
        _ => panic!("expected a save"),
    }
    let command = Command::SetTheme { theme: "made-up".to_string() };
    match run(Some(command), Some(Config::default_config())) {
        Outcome::Fail(message) => assert_eq!(message, "unknown theme 'made-up'"),
        _ => panic!("expected a failure"),
    }
}

#[test]
fn list_current_init_reset_and_picker() {
    let mut config = Config::default_config();
    save_custom_theme(&mut config, custom("Night Owl", "night-owl"));
    match run(Some(Command::List), Some(config)) {
        Outcome::Print(lines) => {
            assert_eq!(lines.len(), 14);
            assert_eq!(lines[0], "Tokyo Night");
            assert_eq!(lines[12], "Rose Fern");
            assert_eq!(lines[13], "Night Owl");
        }
        _ => panic!("expected lines"),
    }
    match run(Some(Command::Current), Some(Config::default_config())) {
        Outcome::Print(lines) => assert_eq!(lines, vec!["tokyo-night".to_string()]),
        _ => panic!("expected lines"),
    }
    match run(Some(Command::Init), None) {
        Outcome::Print(lines) => assert_eq!(
            lines,
            vec!["command -v switch-theme >/dev/null 2>&1 && switch-theme apply >/dev/null 2>&1"
                .to_string()]
        ),
        _ => panic!("expected lines"),
    }
    match run(Some(Command::Reset), None) {
        Outcome::Write(text) => assert_eq!(text, reset_escape_sequence()),
        _ => panic!("expected a write"),
    }
    assert!(matches!(run(None, None), Outcome::Interactive));
}
