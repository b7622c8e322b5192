//! Colours, colour palettes, display themes and hex colour parsing.
use vstd::prelude::*;
use vstd::utf8::{encode_utf8, is_char_boundary};
use vstd::string::StringSliceAdditionalSpecFns;
use crate::config::{CustomTheme, Theme as ConfigTheme};

verus! {

/// A terminal colour, with the variants of the terminal library's colour type.
#[derive(Debug, Clone, Copy, PartialEq, Eq, Structural)]
pub enum Color {
    Reset,
    Black,
    Red,
    Green,
    Yellow,
    Blue,
    Magenta,
    Cyan,
    Gray,
    DarkGray,
    LightRed,
    LightGreen,
    LightYellow,
    LightBlue,
    LightMagenta,
    LightCyan,
    White,
    Rgb(u8, u8, u8),
    Indexed(u8),
}

/// The colours of one theme.
#[derive(Debug, Clone, Copy, PartialEq, Eq, Structural)]
pub struct ColorPalette {
    pub background: Color,
    pub foreground: Color,
    pub primary: Color,
    pub secondary: Color,
    pub error: Color,
    pub highlight: Color,
    pub border: Color,
    pub directory: Color,
    pub added: Color,
    pub removed: Color,
    pub unchanged: Color,
}

impl ColorPalette {
    pub open spec fn spec_dark() -> ColorPalette {
        ColorPalette {
            background: Color::Black,
            foreground: Color::White,
            primary: Color::Cyan,
            secondary: Color::Yellow,
            error: Color::Red,
            highlight: Color::Blue,
            border: Color::Gray,
            directory: Color::Cyan,
            added: Color::Green,
            removed: Color::Red,
            unchanged: Color::White,
        }
    }

    pub open spec fn spec_light() -> ColorPalette {
        ColorPalette {
            background: Color::White,
            foreground: Color::Black,
            primary: Color::Blue,
            secondary: Color::Yellow,
            error: Color::LightRed,
            highlight: Color::LightBlue,
            border: Color::DarkGray,
            directory: Color::Blue,
            added: Color::Green,
            removed: Color::LightRed,
            unchanged: Color::Black,
        }
    }

    /// The palette of the dark theme.
    pub fn dark() -> (p: ColorPalette)
        ensures
            p == ColorPalette::spec_dark(),
    {
        ColorPalette {
            background: Color::Black,
            foreground: Color::White,
            primary: Color::Cyan,
            secondary: Color::Yellow,
            error: Color::Red,
            highlight: Color::Blue,
            border: Color::Gray,
            directory: Color::Cyan,
            added: Color::Green,
            removed: Color::Red,
            unchanged: Color::White,
        }
    }

    /// The palette of the light theme.
    pub fn light() -> (p: ColorPalette)
        ensures
            p == ColorPalette::spec_light(),
    {
        ColorPalette {
            background: Color::White,
            foreground: Color::Black,
            primary: Color::Blue,
            secondary: Color::Yellow,
            error: Color::LightRed,
            highlight: Color::LightBlue,
            border: Color::DarkGray,
            directory: Color::Blue,
            added: Color::Green,
            removed: Color::LightRed,
            unchanged: Color::Black,
        }
    }
}

/// A display theme: one of the two built-in palettes or a custom one.
#[derive(Debug, Clone, Copy, PartialEq, Eq, Structural)]
pub enum Theme {
    Dark,
    Light,
    Custom(ColorPalette),
}

impl Theme {
    pub open spec fn spec_palette(self) -> ColorPalette {
        match self {
            Theme::Dark => ColorPalette::spec_dark(),
            Theme::Light => ColorPalette::spec_light(),
            Theme::Custom(p) => p,
        }
    }

    fn get_palette(&self) -> (p: ColorPalette)
        ensures
            p == self.spec_palette(),
    {
        match self {
            Theme::Dark => ColorPalette::dark(),
            Theme::Light => ColorPalette::light(),
            Theme::Custom(p) => *p,
        }
    }

    pub fn background_color(&self) -> (c: Color)
        ensures
            c == self.spec_palette().background,
    {
        self.get_palette().background
    }

    pub fn foreground_color(&self) -> (c: Color)
        ensures
            c == self.spec_palette().foreground,
    {
        self.get_palette().foreground
    }

    pub fn primary_color(&self) -> (c: Color)
        ensures
            c == self.spec_palette().primary,
    {
        self.get_palette().primary
    }

    pub fn secondary_color(&self) -> (c: Color)
        ensures
            c == self.spec_palette().secondary,
    {
        self.get_palette().secondary
    }

    pub fn error_color(&self) -> (c: Color)
        ensures
            c == self.spec_palette().error,
    {
        self.get_palette().error
    }

    pub fn highlight_color(&self) -> (c: Color)
        ensures
            c == self.spec_palette().highlight,
    {
        self.get_palette().highlight
    }

    pub fn border_color(&self) -> (c: Color)
        ensures
            c == self.spec_palette().border,
    {
        self.get_palette().border
    }

    pub fn directory_color(&self) -> (c: Color)
        ensures
            c == self.spec_palette().directory,
    {
        self.get_palette().directory
    }

    pub fn added_color(&self) -> (c: Color)
        ensures
            c == self.spec_palette().added,
    {
        self.get_palette().added
    }

    pub fn removed_color(&self) -> (c: Color)
        ensures
            c == self.spec_palette().removed,
    {
        self.get_palette().removed
    }

    pub fn unchanged_color(&self) -> (c: Color)
        ensures
            c == self.spec_palette().unchanged,
    {
        self.get_palette().unchanged
    }
}

/// The value of a hexadecimal digit byte.
pub open spec fn hex_digit_value(b: u8) -> Option<u8> {
    if 48 <= b <= 57 {
        Some((b - 48) as u8)
    } else if 97 <= b <= 102 {
        Some((b - 87) as u8)
    } else if 65 <= b <= 70 {
        Some((b - 55) as u8)
    } else {
        None
    }
}

/// The value of a two-byte base-16 unsigned number as `u8::from_str_radix`
/// reads it: two hex digits, or a `+` sign followed by one hex digit.
pub open spec fn hex_pair_value(b0: u8, b1: u8) -> Option<u8> {
    if b0 == 43 {
        hex_digit_value(b1)
    } else {
        match (hex_digit_value(b0), hex_digit_value(b1)) {
            (Some(h), Some(l)) => Some((16 * h + l) as u8),
            _ => None,
        }
    }
}

/// Where the hex digits start: after a leading `#`, if there is one.
pub open spec fn hex_start(bytes: Seq<u8>) -> int {
    if bytes.len() > 0 && bytes[0] == 35 {
        1
    } else {
        0
    }
}

/// The two bytes of colour component `k` (0 red, 1 green, 2 blue).
pub open spec fn component_bytes(bytes: Seq<u8>, k: int) -> (u8, u8) {
    let start = hex_start(bytes);
    if bytes.len() - start == 3 {
        (bytes[start + k], bytes[start + k])
    } else {
        (bytes[start + 2 * k], bytes[start + 2 * k + 1])
    }
}

/// Slicing the digits into components cuts the text only between characters.
pub open spec fn hex_cuts_on_chars(bytes: Seq<u8>) -> bool {
    let start = hex_start(bytes);
    let n = bytes.len() - start;
    (n == 3 ==> is_char_boundary(bytes, start + 1) && is_char_boundary(bytes, start + 2))
        && (n == 6 ==> is_char_boundary(bytes, start + 2) && is_char_boundary(bytes, start + 4))
}

pub open spec fn invalid_component_message(name: Seq<char>, s: Seq<char>) -> Seq<char> {
    "Invalid "@ + name + " component in hex color '"@ + s + "': invalid digit found in string"@
}

pub open spec fn invalid_format_message(s: Seq<char>) -> Seq<char> {
    "Invalid hex color format: '"@ + s + "'. Must be #RGB or #RRGGBB."@
}

/// What parsing the colour text `s`, whose UTF-8 bytes are `bytes`, gives:
/// `#RGB` or `#RRGGBB`, the `#` optional, or the message of the first fault.
pub open spec fn spec_parse_hex_color(s: Seq<char>, bytes: Seq<u8>) -> Result<Color, Seq<char>> {
    let n = bytes.len() - hex_start(bytes);
    if n != 6 && n != 3 {
        Err(invalid_format_message(s))
    } else {
        let r = hex_pair_value(component_bytes(bytes, 0).0, component_bytes(bytes, 0).1);
        let g = hex_pair_value(component_bytes(bytes, 1).0, component_bytes(bytes, 1).1);
        let b = hex_pair_value(component_bytes(bytes, 2).0, component_bytes(bytes, 2).1);
        if r is None {
            Err(invalid_component_message("red"@, s))
        } else if g is None {
            Err(invalid_component_message("green"@, s))
        } else if b is None {
            Err(invalid_component_message("blue"@, s))
        } else {
            Ok(Color::Rgb(r->0, g->0, b->0))
        }
    }
}

fn hex_digit(b: u8) -> (r: Option<u8>)
    ensures
        r == hex_digit_value(b),
{
    if 48 <= b && b <= 57 {
        Some(b - 48)
    } else if 97 <= b && b <= 102 {
        Some(b - 87)
    } else if 65 <= b && b <= 70 {
        Some(b - 55)
    } else {
        None
    }
}

fn hex_pair(b0: u8, b1: u8) -> (r: Option<u8>)
    ensures
        r == hex_pair_value(b0, b1),
{
    if b0 == 43 {
        hex_digit(b1)
    } else {
        match (hex_digit(b0), hex_digit(b1)) {
            (Some(h), Some(l)) => Some(16 * h + l),
            _ => None,
        }
    }
}

fn component_error(name: &str, hex_str: &str) -> (m: String)
    ensures
        m@ == invalid_component_message(name@, hex_str@),
{
    let mut m = String::from_str("Invalid ");
    m.append(name);
    m.append(" component in hex color '");
    m.append(hex_str);
    m.append("': invalid digit found in string");
    m
}

/// Parses `#RGB` or `#RRGGBB` (the `#` optional) into an RGB colour.
pub fn parse_hex_color(hex_str: &str) -> (r: Result<Color, String>)
    requires
        hex_cuts_on_chars(hex_str.spec_bytes()),
    ensures
        match spec_parse_hex_color(hex_str@, hex_str.spec_bytes()) {
            Ok(c) => r == Ok::<Color, String>(c),
            Err(m) => r is Err && r->Err_0@ == m,
        },
{
    let bytes = hex_str.as_bytes();
    let ghost bs = hex_str.spec_bytes();
    let len: usize = bytes.len();
    let start: usize = if len > 0 && bytes[0] == 35 { 1 } else { 0 };
    let n: usize = len - start;
    if n != 6 && n != 3 {
        let mut m = String::from_str("Invalid hex color format: '");
        m.append(hex_str);
        m.append("'. Must be #RGB or #RRGGBB.");
        return Err(m);
    }
    let (r0, r1, g0, g1, b0, b1) = if n == 3 {
        (bytes[start], bytes[start], bytes[start + 1], bytes[start + 1], bytes[start + 2], bytes[start + 2])
    } else {
        (bytes[start], bytes[start + 1], bytes[start + 2], bytes[start + 3], bytes[start + 4], bytes[start + 5])
    };
    assert(component_bytes(bs, 0) == (r0, r1));
    assert(component_bytes(bs, 1) == (g0, g1));
    assert(component_bytes(bs, 2) == (b0, b1));
    let red = match hex_pair(r0, r1) {
        Some(v) => v,
        None => { return Err(component_error("red", hex_str)); },
    };
    let green = match hex_pair(g0, g1) {
        Some(v) => v,
        None => { return Err(component_error("green", hex_str)); },
    };
    let blue = match hex_pair(b0, b1) {
        Some(v) => v,
        None => { return Err(component_error("blue", hex_str)); },
    };
    Ok(Color::Rgb(red, green, blue))
}

/// A configured colour text that `parse_hex_color` accepts as input.
pub open spec fn hex_text_ok(hex: Option<String>) -> bool {
    match hex {
        Some(h) => hex_cuts_on_chars(encode_utf8(h@)),
        None => true,
    }
}

/// The colour that a configured colour text gives, if it parses.
pub open spec fn parsed_color(hex: Option<String>) -> Option<Color> {
    match hex {
        Some(h) => match spec_parse_hex_color(h@, encode_utf8(h@)) {
            Ok(c) => Some(c),
            Err(_) => None,
        },
        None => None,
    }
}

/// Every colour text of the custom theme is acceptable input to `parse_hex_color`.
pub open spec fn custom_theme_texts_ok(c: CustomTheme) -> bool {
    hex_text_ok(c.background) && hex_text_ok(c.foreground) && hex_text_ok(c.primary)
        && hex_text_ok(c.secondary) && hex_text_ok(c.error) && hex_text_ok(c.highlight)
        && hex_text_ok(c.border) && hex_text_ok(c.directory) && hex_text_ok(c.added)
        && hex_text_ok(c.removed) && hex_text_ok(c.unchanged)
}

/// Whether slicing the digits of `hex_str` into components cuts it only
/// between characters, which `parse_hex_color` needs.
pub fn hex_slices_on_chars(hex_str: &str) -> (r: bool)
    ensures
        r == hex_cuts_on_chars(hex_str.spec_bytes()),
{
    let bytes = hex_str.as_bytes();
    let total: usize = hex_str.len();
    let start: usize = if total > 0 && bytes[0] == 35 { 1 } else { 0 };
    let n: usize = total - start;
    let three_ok = n != 3 || (hex_str.is_char_boundary(start + 1) && hex_str.is_char_boundary(start + 2));
    let six_ok = n != 6 || (hex_str.is_char_boundary(start + 2) && hex_str.is_char_boundary(start + 4));
    three_ok && six_ok
}

fn hex_option_ok(hex: &Option<String>) -> (r: bool)
    ensures
        r == hex_text_ok(*hex),
{
    match hex {
        Some(h) => hex_slices_on_chars(h.as_str()),
        None => true,
    }
}

/// Whether every colour text of a custom theme can be parsed without cutting
/// inside a character, which `build_themes` needs.
pub fn custom_theme_slices_on_chars(c: &CustomTheme) -> (r: bool)
    ensures
        r == custom_theme_texts_ok(*c),
{
    hex_option_ok(&c.background) && hex_option_ok(&c.foreground) && hex_option_ok(&c.primary)
        && hex_option_ok(&c.secondary) && hex_option_ok(&c.error) && hex_option_ok(&c.highlight)
        && hex_option_ok(&c.border) && hex_option_ok(&c.directory) && hex_option_ok(&c.added)
        && hex_option_ok(&c.removed) && hex_option_ok(&c.unchanged)
}

pub open spec fn overlay(base: Color, parsed: Option<Color>) -> Color {
    match parsed {
        Some(c) => c,
        None => base,
    }
}

/// The custom palette: the dark palette with every colour that parses replaced.
pub open spec fn spec_custom_palette(c: CustomTheme) -> ColorPalette {
    let d = ColorPalette::spec_dark();
    ColorPalette {
        background: overlay(d.background, parsed_color(c.background)),
        foreground: overlay(d.foreground, parsed_color(c.foreground)),
        primary: overlay(d.primary, parsed_color(c.primary)),
        secondary: overlay(d.secondary, parsed_color(c.secondary)),
        error: overlay(d.error, parsed_color(c.error)),
        highlight: overlay(d.highlight, parsed_color(c.highlight)),
        border: overlay(d.border, parsed_color(c.border)),
        directory: overlay(d.directory, parsed_color(c.directory)),
        added: overlay(d.added, parsed_color(c.added)),
        removed: overlay(d.removed, parsed_color(c.removed)),
        unchanged: overlay(d.unchanged, parsed_color(c.unchanged)),
    }
}

/// Whether at least one colour of the custom theme parses.
pub open spec fn any_custom_color(c: CustomTheme) -> bool {
    parsed_color(c.background) is Some || parsed_color(c.foreground) is Some
        || parsed_color(c.primary) is Some || parsed_color(c.secondary) is Some
        || parsed_color(c.error) is Some || parsed_color(c.highlight) is Some
        || parsed_color(c.border) is Some || parsed_color(c.directory) is Some
        || parsed_color(c.added) is Some || parsed_color(c.removed) is Some
        || parsed_color(c.unchanged) is Some
}

/// The themes offered: dark, light, and the custom one when at least one of
/// its colours parses.
pub open spec fn spec_themes(custom: Option<CustomTheme>) -> Seq<Theme> {
    match custom {
        Some(c) => if any_custom_color(c) {
            seq![Theme::Dark, Theme::Light, Theme::Custom(spec_custom_palette(c))]
        } else {
            seq![Theme::Dark, Theme::Light]
        },
        None => seq![Theme::Dark, Theme::Light],
    }
}

fn apply_color(slot: &mut Color, hex: &Option<String>, any: &mut bool)
    requires
        hex_text_ok(*hex),
    ensures
        *final(slot) == overlay(*old(slot), parsed_color(*hex)),
        *final(any) == (*old(any) || parsed_color(*hex) is Some),
{
    if let Some(h) = hex {
        match parse_hex_color(h.as_str()) {
            Ok(c) => {
                *slot = c;
                *any = true;
            },
            Err(_) => {},
        }
    }
}

/// The themes to offer, built from the configured custom theme.
pub fn build_themes(custom: &Option<CustomTheme>) -> (themes: Vec<Theme>)
    requires
        match custom {
            Some(c) => custom_theme_texts_ok(*c),
            None => true,
        },
    ensures
        themes@ == spec_themes(*custom),
{
    let mut themes: Vec<Theme> = Vec::new();
    themes.push(Theme::Dark);
    themes.push(Theme::Light);
    if let Some(c) = custom {
        let mut p = ColorPalette::dark();
        let mut any: bool = false;
        apply_color(&mut p.background, &c.background, &mut any);
        apply_color(&mut p.foreground, &c.foreground, &mut any);
        apply_color(&mut p.primary, &c.primary, &mut any);
        apply_color(&mut p.secondary, &c.secondary, &mut any);
        apply_color(&mut p.error, &c.error, &mut any);
        apply_color(&mut p.highlight, &c.highlight, &mut any);
        apply_color(&mut p.border, &c.border, &mut any);
        apply_color(&mut p.directory, &c.directory, &mut any);
        apply_color(&mut p.added, &c.added, &mut any);
        apply_color(&mut p.removed, &c.removed, &mut any);
        apply_color(&mut p.unchanged, &c.unchanged, &mut any);
        if any {
            themes.push(Theme::Custom(p));
        }
    }
    assert(themes@ =~= spec_themes(*custom));
    themes
}

/// Where the configured theme stands among `themes`.
pub open spec fn spec_initial_theme_index(configured: Option<ConfigTheme>, themes: Seq<Theme>) -> int {
    match configured {
        Some(ConfigTheme::Light) => 1,
        Some(ConfigTheme::Custom) => if exists|i: int| 0 <= i < themes.len() && themes[i] is Custom {
            themes.len() - 1
        } else {
            0
        },
        _ => 0,
    }
}

/// The index of the theme to start with: dark (also when nothing is
/// configured), light, or the last theme when a custom theme is configured
/// and present (falling back to dark when it is not).
pub fn initial_theme_index(configured: Option<ConfigTheme>, themes: &Vec<Theme>) -> (i: usize)
    ensures
        i == spec_initial_theme_index(configured, themes@),
{
    match configured {
        Some(ConfigTheme::Light) => 1,
        Some(ConfigTheme::Custom) => {
            let mut k: usize = 0;
            while k < themes.len()
                invariant
                    configured == Some(ConfigTheme::Custom),
                    k <= themes@.len(),
                    forall|j: int| 0 <= j < k ==> !(themes@[j] is Custom),
                decreases themes@.len() - k,
            {
                if let Theme::Custom(_) = themes[k] {
                    assert(themes@[k as int] is Custom);
                    return themes.len() - 1;
                }
                k = k + 1;
            }
            0
        },
        _ => 0,
    }
}

} // verus!
