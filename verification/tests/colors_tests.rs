use switch_theme::colors::{
    ansi256_to_hex, channels_readable, hex_to_rgb, is_valid_hex, normalize_color_input,
    normalize_hex, parse_color, parse_color_input, parse_color_readable, parse_u8, rgb_to_hex,
};
use switch_theme::contrast::{hex_channels, hex_channels_readable};

#[test]
fn normalizes_hex_text() {
    assert_eq!(normalize_hex(" ff00aa "), "#FF00AA");
    assert_eq!(normalize_hex("#abc"), "#ABC");
    assert_eq!(normalize_hex(""), "#");
    assert_eq!(normalize_hex(&normalize_hex("\t12ab34\n")), "#12AB34");
}

#[test]
fn validates_hex_text() {
    assert!(is_valid_hex("#A1b2C3"));
    assert!(!is_valid_hex("A1B2C3"));
    assert!(!is_valid_hex("#A1B2C"));
    assert!(!is_valid_hex("#A1B2CG"));
    assert!(!is_valid_hex("#A1B2C3D"));
    assert!(!is_valid_hex("#A1B2Cé"));
}

#[test]
fn rgb_hex_roundtrip() {
    for c in [(0u8, 0u8, 0u8), (255, 255, 255), (18, 52, 86), (171, 205, 239)] {
        let hex = rgb_to_hex(c);
        assert!(is_valid_hex(&hex));
        assert!(channels_readable(&hex));
        assert_eq!(hex_to_rgb(&hex), c);
    }
    assert_eq!(rgb_to_hex((0x1a, 0x1b, 0x26)), "#1A1B26");
}

#[test]
fn hex_to_rgb_reads_pairs_and_zeroes_bad_ones() {
    assert_eq!(hex_to_rgb("1a1b26"), (0x1a, 0x1b, 0x26));
    assert_eq!(hex_to_rgb(" #c0caf5 "), (0xc0, 0xca, 0xf5));
    assert_eq!(hex_to_rgb("#zz1b26"), (0, 0x1b, 0x26));
    assert_eq!(hex_to_rgb("#+f1b26"), (15, 0x1b, 0x26));
    assert!(!channels_readable("#12"));
    assert!(!channels_readable("#1é2345"));
}

#[test]
fn ansi256_palette() {
    assert_eq!(ansi256_to_hex(0), "#000000");
    assert_eq!(ansi256_to_hex(9), "#FF0000");
    assert_eq!(ansi256_to_hex(15), "#FFFFFF");
    assert_eq!(ansi256_to_hex(16), "#000000");
    assert_eq!(ansi256_to_hex(196), "#FF0000");
    assert_eq!(ansi256_to_hex(110), "#87AFD7");
    assert_eq!(ansi256_to_hex(231), "#FFFFFF");
    assert_eq!(ansi256_to_hex(232), "#080808");
    assert_eq!(ansi256_to_hex(255), "#EEEEEE");
}

#[test]
fn parses_color_inputs() {
    assert_eq!(parse_color_input("red").as_deref(), Some("#FF0000"));
    assert_eq!(parse_color_input("grey").as_deref(), Some("#808080"));
    assert_eq!(parse_color_input("gray").as_deref(), Some("#808080"));
    assert_eq!(parse_color_input("pink").as_deref(), Some("#FFC0CB"));
    assert_eq!(parse_color_input("208").as_deref(), Some("#FF8700"));
    assert_eq!(parse_color_input("+7").as_deref(), Some("#C0C0C0"));
    assert_eq!(parse_color_input("0007").as_deref(), Some("#C0C0C0"));
    assert_eq!(parse_color_input("abcdef").as_deref(), Some("#ABCDEF"));
    assert_eq!(parse_color_input("#123456").as_deref(), Some("#123456"));
    assert_eq!(parse_color_input("256"), None);
    assert_eq!(parse_color_input("Red"), None);
    assert_eq!(parse_color_input("#12345"), None);
    assert_eq!(parse_color_input(""), None);
}

#[test]
fn color_input_is_trimmed_and_lowered_first() {
    assert_eq!(normalize_color_input("  RED \n"), "red");
    assert_eq!(parse_color_input(&normalize_color_input("  Blue ")).as_deref(), Some("#0000FF"));
}

#[test]
fn parses_u8_like_std() {
    for text in ["0", "255", "256", "+12", "-1", "+", "", "00012", " 1", "1a"] {
        assert_eq!(parse_u8(text), text.parse::<u8>().ok(), "{}", text);
    }
}

#[test]
fn screen_colors_and_contrast_channels() {
    assert_eq!(parse_color("#1a1b26"), Some((0x1a, 0x1b, 0x26)));
    assert_eq!(parse_color("##1a1b26"), Some((0x1a, 0x1b, 0x26)));
    assert_eq!(parse_color("1a1b2"), None);
    assert_eq!(parse_color("#1a1bzz"), Some((0x1a, 0x1b, 0)));
    assert!(parse_color_readable("#1a1b26"));
    assert!(!parse_color_readable("aé123"));
    assert_eq!(hex_channels("#FFFFFF"), Some((255, 255, 255)));
    assert_eq!(hex_channels("000000"), Some((0, 0, 0)));
    assert_eq!(hex_channels("##000000"), None);
    assert_eq!(hex_channels("#00000g"), None);
    assert!(hex_channels_readable("#445566"));
    assert!(!hex_channels_readable("aé123"));
}

#[test]
fn six_hex_digits_are_a_color_not_an_index() {
    assert_eq!(parse_color_input("000001").as_deref(), Some("#000001"));
    assert_eq!(parse_color_input("000255").as_deref(), Some("#000255"));
    assert_eq!(parse_color_input("123456").as_deref(), Some("#123456"));
    assert_eq!(parse_color_input("ff00aa").as_deref(), Some("#FF00AA"));
    assert_eq!(parse_color_input("255").as_deref(), Some("#EEEEEE"));
    assert_eq!(parse_color_input("0001").as_deref(), Some("#800000"));
    assert_eq!(parse_color_input("1234567"), None);
}

#[test]
fn valid_hex_reads_back_as_its_normal_form() {
    for h in [" ab12cd ", "#00ff7f", "123456", "#FFFFFF", "0a0B0c"] {
        assert!(is_valid_hex(&normalize_hex(h)));
        assert!(channels_readable(h));
        assert_eq!(rgb_to_hex(hex_to_rgb(h)), normalize_hex(h));
    }
    assert_eq!(rgb_to_hex((255, 0, 128)), "#FF0080");
}
