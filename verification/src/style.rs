//! Colours and styles of cells, and the colours that borders and selections
//! take from the palette and the host terminal.

use vstd::prelude::*;

verus! {

/// The colour of a cell's text or background.
#[derive(Clone, Copy, Debug, PartialEq, Eq, Structural)]
pub enum Color {
    Reset,
    Black,
    Red,
    Green,
    Yellow,
    Blue,
    Magenta,
    Cyan,
    Gray,
    DarkGray,
    LightRed,
    LightGreen,
    LightYellow,
    LightBlue,
    LightMagenta,
    LightCyan,
    White,
    Rgb(u8, u8, u8),
    Indexed(u8),
}

/// Red, green and blue.
pub type Rgb = (u8, u8, u8);

/// Bold text, as a bit of a set of modifiers.
pub const BOLD: u16 = 0x001;

/// Dim text, as a bit of a set of modifiers.
pub const DIM: u16 = 0x002;

/// Every modifier there is.
pub const ALL_MODIFIERS: u16 = 0x1ff;

/// A change of a cell's look: the colours to set, and the modifiers to add and
/// to take away.
#[derive(Clone, Copy, Debug, PartialEq, Eq)]
pub struct Style {
    pub fg: Option<Color>,
    pub bg: Option<Color>,
    pub underline_color: Option<Color>,
    pub add_modifier: u16,
    pub sub_modifier: u16,
}

impl Style {
    /// The style that changes nothing.
    pub open spec fn spec_new() -> Style {
        Style { fg: None, bg: None, underline_color: None, add_modifier: 0, sub_modifier: 0 }
    }

    /// The style that changes nothing.
    pub fn new() -> (style: Style)
        ensures
            style == Style::spec_new(),
    {
        Style { fg: None, bg: None, underline_color: None, add_modifier: 0, sub_modifier: 0 }
    }

    /// The style that sets everything back.
    pub open spec fn spec_reset() -> Style {
        Style {
            fg: Some(Color::Reset),
            bg: Some(Color::Reset),
            underline_color: Some(Color::Reset),
            add_modifier: 0,
            sub_modifier: ALL_MODIFIERS,
        }
    }

    /// The style that sets everything back.
    pub fn reset() -> (style: Style)
        ensures
            style == Style::spec_reset(),
    {
        Style {
            fg: Some(Color::Reset),
            bg: Some(Color::Reset),
            underline_color: Some(Color::Reset),
            add_modifier: 0,
            sub_modifier: ALL_MODIFIERS,
        }
    }

    /// This style with the given text colour.
    pub fn fg(self, color: Color) -> (style: Style)
        ensures
            style == (Style { fg: Some(color), ..self }),
    {
        Style { fg: Some(color), ..self }
    }

    /// This style with the given background.
    pub fn bg(self, color: Color) -> (style: Style)
        ensures
            style == (Style { bg: Some(color), ..self }),
    {
        Style { bg: Some(color), ..self }
    }

    /// This style with the given modifiers added, and no longer taken away.
    pub fn add_modifier(self, modifier: u16) -> (style: Style)
        ensures
            style == (Style {
                add_modifier: self.add_modifier | modifier,
                sub_modifier: self.sub_modifier & !modifier,
                ..self
            }),
    {
        Style {
            add_modifier: self.add_modifier | modifier,
            sub_modifier: self.sub_modifier & !modifier,
            ..self
        }
    }
}

/// The colours of the user interface.
#[derive(Clone, Copy, Debug, PartialEq, Eq, Structural)]
pub struct Palette {
    pub accent: Color,
    pub overlay0: Color,
    pub overlay1: Color,
    pub panel_bg: Color,
    pub surface_dim: Color,
    /// The text colour that stands out from panels.
    pub panel_contrast_fg: Color,
}

/// A colour of the host terminal.
#[derive(Clone, Copy, Debug, PartialEq, Eq, Structural)]
pub struct RgbColor {
    pub r: u8,
    pub g: u8,
    pub b: u8,
}

/// What the host terminal says of its colours.
#[derive(Clone, Copy, Debug, PartialEq, Eq)]
pub struct TerminalTheme {
    pub foreground: Option<RgbColor>,
    pub background: Option<RgbColor>,
}

/// A border colour of the configuration: its text, and the colour that the
/// text stands for where it is a literal.
#[derive(Debug)]
pub struct BorderColorConfig {
    pub raw: String,
    pub parsed: Option<Color>,
}

/// `color` is what the configuration, an answer of `resolve_token` and an answer
/// of `parse_color` make the colour of a border.
pub open spec fn border_color_is<T: Fn(&str) -> Option<Color>, L: Fn(&str) -> Color>(
    config: BorderColorConfig,
    resolve_token: T,
    parse_color: L,
    color: Color,
) -> bool {
    &&& config.parsed matches Some(parsed) ==> color == parsed
    &&& config.parsed is None ==> exists|raw: &str, token: Option<Color>|
        {
            &&& raw@ == config.raw@
            &&& #[trigger] call_ensures(resolve_token, (raw,), token)
            &&& match token {
                Some(found) => color == found,
                None => call_ensures(parse_color, (raw,), color),
            }
        }
}

/// The colour of a border: the literal that was parsed when the configuration
/// was read, else the palette's colour of that name, else the text read as a
/// literal. `resolve_token` looks a name up in the palette and `parse_color`
/// reads a literal.
pub fn resolve_border_color<T: Fn(&str) -> Option<Color>, L: Fn(&str) -> Color>(
    config: &BorderColorConfig,
    resolve_token: T,
    parse_color: L,
) -> (color: Color)
    requires
        forall|raw: &str| raw@ == config.raw@ ==> call_requires(resolve_token, (raw,)),
        forall|raw: &str| raw@ == config.raw@ ==> call_requires(parse_color, (raw,)),
    ensures
        border_color_is(*config, resolve_token, parse_color, color),
{
    if let Some(color) = config.parsed {
        return color;
    }
    let raw: &str = config.raw.as_str();
    match resolve_token(raw) {
        Some(color) => color,
        None => parse_color(raw),
    }
}

/// The numbers of the colours that have fixed ones.
pub open spec fn rgb_of(color: Color) -> Option<Rgb> {
    match color {
        Color::Reset => None,
        Color::Black => Some((0, 0, 0)),
        Color::Red => Some((128, 0, 0)),
        Color::Green => Some((0, 128, 0)),
        Color::Yellow => Some((128, 128, 0)),
        Color::Blue => Some((0, 0, 128)),
        Color::Magenta => Some((128, 0, 128)),
        Color::Cyan => Some((0, 128, 128)),
        Color::Gray => Some((192, 192, 192)),
        Color::DarkGray => Some((128, 128, 128)),
        Color::LightRed => Some((255, 0, 0)),
        Color::LightGreen => Some((0, 255, 0)),
        Color::LightYellow => Some((255, 255, 0)),
        Color::LightBlue => Some((0, 0, 255)),
        Color::LightMagenta => Some((255, 0, 255)),
        Color::LightCyan => Some((0, 255, 255)),
        Color::White => Some((255, 255, 255)),
        Color::Rgb(r, g, b) => Some((r, g, b)),
        Color::Indexed(_) => None,
    }
}

/// The red, green and blue of a colour: none of the terminal's default and of
/// indexed colours.
pub fn color_to_rgb(color: Color) -> (rgb: Option<Rgb>)
    ensures
        rgb == rgb_of(color),
{
    match color {
        Color::Reset => None,
        Color::Black => Some((0, 0, 0)),
        Color::Red => Some((128, 0, 0)),
        Color::Green => Some((0, 128, 0)),
        Color::Yellow => Some((128, 128, 0)),
        Color::Blue => Some((0, 0, 128)),
        Color::Magenta => Some((128, 0, 128)),
        Color::Cyan => Some((0, 128, 128)),
        Color::Gray => Some((192, 192, 192)),
        Color::DarkGray => Some((128, 128, 128)),
        Color::LightRed => Some((255, 0, 0)),
        Color::LightGreen => Some((0, 255, 0)),
        Color::LightYellow => Some((255, 255, 0)),
        Color::LightBlue => Some((0, 0, 255)),
        Color::LightMagenta => Some((255, 0, 255)),
        Color::LightCyan => Some((0, 255, 255)),
        Color::White => Some((255, 255, 255)),
        Color::Rgb(r, g, b) => Some((r, g, b)),
        Color::Indexed(_) => None,
    }
}

/// The red, green and blue of a colour of the host terminal.
pub fn terminal_theme_to_rgb(color: RgbColor) -> (rgb: Rgb)
    ensures
        rgb == (color.r, color.g, color.b),
{
    (color.r, color.g, color.b)
}

/// 28 percent of the way from `base` to `target`, rounded to the nearest.
pub open spec fn mixed_channel(base: u8, target: u8) -> u8 {
    ((base * 72 + target * 28 + 50) / 100) as u8
}

/// 28 percent of the way from `base` to `target`, channel by channel.
pub open spec fn mixed(base: Rgb, target: Rgb) -> Rgb {
    (
        mixed_channel(base.0, target.0),
        mixed_channel(base.1, target.1),
        mixed_channel(base.2, target.2),
    )
}

fn mix_channel(base: u8, target: u8) -> (channel: u8)
    ensures
        channel == mixed_channel(base, target),
{
    ((base as u32 * 72 + target as u32 * 28 + 50) / 100) as u8
}

/// The colour 28 percent of the way from `base` to `target`.
pub fn mix_rgb(base: Rgb, target: Rgb) -> (rgb: Rgb)
    ensures
        rgb == mixed(base, target),
{
    (
        mix_channel(base.0, target.0),
        mix_channel(base.1, target.1),
        mix_channel(base.2, target.2),
    )
}

/// The background of selected text on a host background of that colour, moved
/// away from it: towards white on a dark one, towards black on a light one.
pub open spec fn selected_over(background: Rgb, dark: bool) -> Color {
    let rgb = mixed(background, if dark { (255, 255, 255) } else { (0, 0, 0) });
    Color::Rgb(rgb.0, rgb.1, rgb.2)
}

/// The background of selected text on a host background that is dark or light.
pub fn selection_bg_over(background: Rgb, dark: bool) -> (color: Color)
    ensures
        color == selected_over(background, dark),
{
    let target = if dark {
        (255, 255, 255)
    } else {
        (0, 0, 0)
    };
    let selected = mix_rgb(background, target);
    Color::Rgb(selected.0, selected.1, selected.2)
}

/// The palette's own background of selected text.
pub open spec fn palette_background(p: Palette) -> Color {
    if p.panel_bg == Color::Reset {
        p.surface_dim
    } else {
        p.panel_bg
    }
}

/// The background of selected text where the host's is not known: that of
/// panels, unless panels have none.
pub fn selection_palette_background(p: &Palette) -> (color: Color)
    ensures
        color == palette_background(*p),
{
    if p.panel_bg == Color::Reset {
        p.surface_dim
    } else {
        p.panel_bg
    }
}

/// `bg` is what the palette, the host's background and an answer of `is_dark`
/// make the background of selected text.
pub open spec fn selection_bg_is<F: Fn(Rgb) -> bool>(
    p: Palette,
    host_theme: TerminalTheme,
    is_dark: F,
    bg: Color,
) -> bool {
    match host_theme.background {
        Some(color) => exists|dark: bool|
            {
                &&& #[trigger] call_ensures(is_dark, ((color.r, color.g, color.b),), dark)
                &&& bg == selected_over((color.r, color.g, color.b), dark)
            },
        None => bg == palette_background(p),
    }
}

/// The background of selected text. `is_dark` tells dark colours from light
/// ones.
pub fn automatic_selection_bg<F: Fn(Rgb) -> bool>(
    p: &Palette,
    host_theme: TerminalTheme,
    is_dark: &F,
) -> (bg: Color)
    requires
        forall|rgb: Rgb| call_requires(*is_dark, (rgb,)),
    ensures
        selection_bg_is(*p, host_theme, *is_dark, bg),
{
    match host_theme.background {
        Some(color) => {
            let background = terminal_theme_to_rgb(color);
            let dark = is_dark(background);
            selection_bg_over(background, dark)
        },
        None => selection_palette_background(p),
    }
}

/// White on a dark background, black on a light one.
pub open spec fn contrasting(dark: bool) -> Color {
    if dark {
        Color::White
    } else {
        Color::Black
    }
}

/// `fg` is what an answer of `is_dark` makes the text colour on `bg`, or the
/// palette's where `bg` has no fixed numbers.
pub open spec fn selection_fg_is<F: Fn(Rgb) -> bool>(
    bg: Color,
    p: Palette,
    is_dark: F,
    fg: Color,
) -> bool {
    match rgb_of(bg) {
        Some(rgb) => exists|dark: bool|
            {
                &&& #[trigger] call_ensures(is_dark, (rgb,), dark)
                &&& fg == contrasting(dark)
            },
        None => fg == p.panel_contrast_fg,
    }
}

/// The text colour that stands out from `bg`. `is_dark` tells dark colours from
/// light ones.
pub fn selection_fg_for_bg<F: Fn(Rgb) -> bool>(bg: Color, p: &Palette, is_dark: &F) -> (fg: Color)
    requires
        forall|rgb: Rgb| call_requires(*is_dark, (rgb,)),
    ensures
        selection_fg_is(bg, *p, *is_dark, fg),
{
    match color_to_rgb(bg) {
        Some(rgb) => {
            let dark = is_dark(rgb);
            if dark {
                Color::White
            } else {
                Color::Black
            }
        },
        None => p.panel_contrast_fg,
    }
}

/// The style of selected text in those two colours, and in nothing else.
pub open spec fn selected_style(fg: Color, bg: Color) -> Style {
    Style { fg: Some(fg), bg: Some(bg), ..Style::spec_reset() }
}

/// `style` is what the palette, the host's background and answers of `is_dark`
/// make the style of selected text.
pub open spec fn selection_style_is<F: Fn(Rgb) -> bool>(
    p: Palette,
    host_theme: TerminalTheme,
    is_dark: F,
    style: Style,
) -> bool {
    exists|fg: Color, bg: Color|
        {
            &&& style == #[trigger] selected_style(fg, bg)
            &&& selection_bg_is(p, host_theme, is_dark, bg)
            &&& selection_fg_is(bg, p, is_dark, fg)
        }
}

/// The style of selected text. `is_dark` tells dark colours from light ones.
pub fn automatic_selection_style<F: Fn(Rgb) -> bool>(
    p: &Palette,
    host_theme: TerminalTheme,
    is_dark: &F,
) -> (style: Style)
    requires
        forall|rgb: Rgb| call_requires(*is_dark, (rgb,)),
    ensures
        selection_style_is(*p, host_theme, *is_dark, style),
{
    let bg = automatic_selection_bg(p, host_theme, is_dark);
    let fg = selection_fg_for_bg(bg, p, is_dark);
    let style = Style::reset().fg(fg).bg(bg);
    assert(selected_style(fg, bg) == style);
    style
}

/// Moving towards white never darkens a channel, moving towards black never
/// lightens one, and neither passes its target.
pub proof fn mixing_moves_towards_target(base: u8)
    ensures
        base <= mixed_channel(base, 255) <= 255,
        0 <= mixed_channel(base, 0) <= base,
        base < 254 ==> base < mixed_channel(base, 255),
        base > 1 ==> mixed_channel(base, 0) < base,
{
}

} // verus!
