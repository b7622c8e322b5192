use grw::config::{CustomTheme, Theme as ConfigTheme};
use grw::ui::{build_themes, initial_theme_index, parse_hex_color, Color, ColorPalette, Theme};

#[test]
fn test_parse_hex_color_forms() {
    assert_eq!(parse_hex_color("#FF8000"), Ok(Color::Rgb(255, 128, 0)));
    assert_eq!(parse_hex_color("ff8000"), Ok(Color::Rgb(255, 128, 0)));
    assert_eq!(parse_hex_color("#abc"), Ok(Color::Rgb(0xaa, 0xbb, 0xcc)));
    assert_eq!(parse_hex_color("123"), Ok(Color::Rgb(0x11, 0x22, 0x33)));
}

#[test]
fn test_parse_hex_color_errors() {
    assert_eq!(
        parse_hex_color("#12345"),
        Err("Invalid hex color format: '#12345'. Must be #RGB or #RRGGBB.".to_string())
    );
    assert_eq!(
        parse_hex_color("#gg0000"),
        Err("Invalid red component in hex color '#gg0000': invalid digit found in string".to_string())
    );
    assert_eq!(
        parse_hex_color("#00zz00"),
        Err("Invalid green component in hex color '#00zz00': invalid digit found in string".to_string())
    );
    assert_eq!(
        parse_hex_color("#0000-1"),
        Err("Invalid blue component in hex color '#0000-1': invalid digit found in string".to_string())
    );
}

#[test]
fn test_parse_hex_color_plus_sign() {
    assert_eq!(parse_hex_color("#+f0000"), Ok(Color::Rgb(15, 0, 0)));
}

#[test]
fn test_palettes() {
    let dark = ColorPalette::dark();
    assert_eq!(dark.background, Color::Black);
    let light = ColorPalette::light();
    assert_eq!(light.removed, Color::LightRed);
    let custom = Theme::Custom(light);
    assert_eq!(custom.background_color(), Color::White);
}

#[test]
fn test_build_themes_with_custom_colors() {
    let mut custom = CustomTheme::new();
    custom.background = Some("#101010".to_string());
    custom.added = Some("nonsense".to_string());
    let themes = build_themes(&Some(custom));
    assert_eq!(themes.len(), 3);
    assert_eq!(themes[2].background_color(), Color::Rgb(16, 16, 16));
    assert_eq!(themes[2].added_color(), ColorPalette::dark().added);
    assert_eq!(initial_theme_index(Some(ConfigTheme::Custom), &themes), 2);
    assert_eq!(initial_theme_index(Some(ConfigTheme::Light), &themes), 1);
    assert_eq!(initial_theme_index(None, &themes), 0);
}

#[test]
fn test_build_themes_without_valid_colors() {
    let mut custom = CustomTheme::new();
    custom.border = Some("#12".to_string());
    let themes = build_themes(&Some(custom));
    assert_eq!(themes.len(), 2);
    assert_eq!(initial_theme_index(Some(ConfigTheme::Custom), &themes), 0);
    assert_eq!(build_themes(&None).len(), 2);
}
