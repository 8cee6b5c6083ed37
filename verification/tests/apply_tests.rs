use switch_theme::apply::{custom_theme_escape_sequence, reset_escape_sequence, theme_escape_sequence};
use switch_theme::config::CustomTheme;
use switch_theme::theme;

#[test]
fn builds_theme_escape_sequence() {
    let sequence = theme_escape_sequence(&theme::default_theme());

    assert!(sequence.contains("\x1b]4;0;#15161e\x07"));
    assert!(sequence.contains("\x1b]10;#c0caf5\x07"));
    assert!(sequence.contains("\x1b]11;#1a1b26\x07"));
    assert!(sequence.contains("\x1b]12;#c0caf5\x07"));
}

#[test]
fn builds_reset_escape_sequence() {
    let sequence = reset_escape_sequence();

    assert!(sequence.contains("\x1b]104;0\x07"));
    assert!(sequence.contains("\x1b]104;15\x07"));
    assert!(sequence.contains("\x1b]110\x07"));
    assert!(sequence.contains("\x1b]111\x07"));
    assert!(sequence.contains("\x1b]112\x07"));
}

#[test]
fn theme_escape_sequence_is_exact() {
    let t = theme::default_theme();
    let mut expected = String::new();
    for (i, c) in t.ansi.iter().enumerate() {
        expected.push_str(&format!("\x1b]4;{};{}\x07", i, c));
    }
    expected.push_str("\x1b]10;#c0caf5\x07\x1b]11;#1a1b26\x07\x1b]12;#c0caf5\x07");
    assert_eq!(theme_escape_sequence(&t), expected);
}

#[test]
fn reset_escape_sequence_is_exact() {
    let mut expected = String::new();
    for i in 0..16 {
        expected.push_str(&format!("\x1b]104;{}\x07", i));
    }
    expected.push_str("\x1b]110\x07\x1b]111\x07\x1b]112\x07");
    assert_eq!(reset_escape_sequence(), expected);
}

#[test]
fn custom_theme_escape_sequence_uses_its_colors() {
    let custom = CustomTheme {
        name: "Ocean".to_string(),
        slug: "ocean".to_string(),
        foreground: "#FFFFFF".to_string(),
        background: "#101010".to_string(),
        cursor: "#DDDDDD".to_string(),
        selection: "#333333".to_string(),
        ansi: std::array::from_fn(|i| format!("#{:02X}{:02X}{:02X}", i * 17, i * 17, i * 17)),
        description: String::new(),
        author: "test".to_string(),
        kind: "custom".to_string(),
        mood: Vec::new(),
        accent: None,
        success: None,
        warning: None,
        error: None,
    };
    let sequence = custom_theme_escape_sequence(&custom);
    assert!(sequence.starts_with("\x1b]4;0;#000000\x07\x1b]4;1;#111111\x07"));
    assert!(sequence.contains("\x1b]4;15;#FFFFFF\x07"));
    assert!(sequence.ends_with("\x1b]10;#FFFFFF\x07\x1b]11;#101010\x07\x1b]12;#DDDDDD\x07"));
}
