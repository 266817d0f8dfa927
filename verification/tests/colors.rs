use panes::style::{
    automatic_selection_bg, automatic_selection_style, color_to_rgb, mix_rgb,
    resolve_border_color, selection_bg_over, selection_fg_for_bg, selection_palette_background,
    terminal_theme_to_rgb, BorderColorConfig, Color, Palette, Rgb, RgbColor, Style,
    TerminalTheme, ALL_MODIFIERS, BOLD, DIM,
};

fn relative_luminance(color: Rgb) -> f32 {
    let channel = |value: u8| {
        let value = f32::from(value) / 255.0;
        if value <= 0.03928 {
            value / 12.92
        } else {
            ((value + 0.055) / 1.055).powf(2.4)
        }
    };
    0.2126 * channel(color.0) + 0.7152 * channel(color.1) + 0.0722 * channel(color.2)
}

fn is_dark(color: Rgb) -> bool {
    relative_luminance(color) < 0.5
}

fn palette() -> Palette {
    Palette {
        accent: Color::Rgb(137, 180, 250),
        overlay0: Color::Rgb(108, 112, 134),
        overlay1: Color::Rgb(127, 132, 156),
        panel_bg: Color::Rgb(24, 24, 37),
        surface_dim: Color::Rgb(49, 50, 68),
        panel_contrast_fg: Color::Rgb(17, 17, 27),
    }
}

const GREEN: Color = Color::Rgb(166, 227, 161);
const RED: Color = Color::Rgb(243, 139, 168);
const TEXT: Color = Color::Rgb(205, 214, 244);

fn resolve_token(name: &str) -> Option<Color> {
    match name {
        "accent" => Some(palette().accent),
        "overlay0" => Some(palette().overlay0),
        "green" => Some(GREEN),
        "red" => Some(RED),
        "text" => Some(TEXT),
        _ => None,
    }
}

fn parse_color(text: &str) -> Color {
    match text {
        "#ff0000" => Color::Rgb(255, 0, 0),
        "lightred" => Color::LightRed,
        "red" => Color::Red,
        _ => Color::Reset,
    }
}

fn from_string(raw: &str) -> BorderColorConfig {
    BorderColorConfig { raw: raw.to_string(), parsed: None }
}

fn theme(background: Option<RgbColor>) -> TerminalTheme {
    TerminalTheme { foreground: None, background }
}

#[test]
fn automatic_selection_background_uses_host_background() {
    let bg = automatic_selection_bg(
        &palette(),
        TerminalTheme {
            foreground: Some(RgbColor { r: 230, g: 230, b: 230 }),
            background: Some(RgbColor { r: 12, g: 14, b: 16 }),
        },
        &is_dark,
    );

    let Color::Rgb(r, g, b) = bg else {
        panic!("selection background should resolve to rgb");
    };
    assert!(relative_luminance((r, g, b)) > relative_luminance((12, 14, 16)));
    assert_eq!(bg, Color::Rgb(80, 81, 83));
}

#[test]
fn resolve_border_color_palette_tokens() {
    let p = palette();
    let accent = from_string("accent");
    let overlay0 = from_string("overlay0");
    let green = from_string("green");
    let text = from_string("text");
    assert_eq!(resolve_border_color(&accent, resolve_token, parse_color), p.accent);
    assert_eq!(resolve_border_color(&overlay0, resolve_token, parse_color), p.overlay0);
    assert_eq!(resolve_border_color(&green, resolve_token, parse_color), GREEN);
    assert_eq!(resolve_border_color(&text, resolve_token, parse_color), TEXT);
}

#[test]
fn resolve_border_color_falls_back_to_literal() {
    // Palette token names take precedence over terminal color names.
    let red = from_string("red");
    assert_eq!(resolve_border_color(&red, resolve_token, parse_color), RED);
    // Unknown names fall through to literal color parsing.
    let hex = from_string("#ff0000");
    assert_eq!(
        resolve_border_color(&hex, resolve_token, parse_color),
        Color::Rgb(255, 0, 0)
    );
    let named = from_string("lightred");
    assert_eq!(
        resolve_border_color(&named, resolve_token, parse_color),
        Color::LightRed
    );
}

#[test]
fn parsed_literal_wins_over_everything() {
    let config = BorderColorConfig { raw: "red".to_string(), parsed: Some(Color::Indexed(7)) };
    assert_eq!(
        resolve_border_color(&config, resolve_token, parse_color),
        Color::Indexed(7)
    );
}

#[test]
fn mixing_rounds_like_floating_point() {
    for base in 0..=255u8 {
        for target in 0..=255u8 {
            let exact = f32::from(base) + (f32::from(target) - f32::from(base)) * 0.28;
            let expected = exact.round() as u8;
            let other = 255 - base;
            let exact = f32::from(other) + (f32::from(target) - f32::from(other)) * 0.28;
            assert_eq!(
                mix_rgb((base, other, base), (target, target, 255)),
                (expected, exact.round() as u8, mix_rgb((base, 0, 0), (255, 0, 0)).0)
            );
        }
    }
    assert_eq!(mix_rgb((0, 100, 255), (255, 100, 0)), (71, 100, 184));
}

#[test]
fn mixing_never_passes_its_target() {
    for base in 0..=255u8 {
        let lighter = mix_rgb((base, base, base), (255, 255, 255)).0;
        let darker = mix_rgb((base, base, base), (0, 0, 0)).0;
        assert!(darker <= base && base <= lighter);
    }
}

#[test]
fn named_colors_have_fixed_numbers() {
    for (color, rgb) in [
        (Color::Reset, None),
        (Color::Black, Some((0, 0, 0))),
        (Color::Red, Some((128, 0, 0))),
        (Color::Green, Some((0, 128, 0))),
        (Color::Yellow, Some((128, 128, 0))),
        (Color::Blue, Some((0, 0, 128))),
        (Color::Magenta, Some((128, 0, 128))),
        (Color::Cyan, Some((0, 128, 128))),
        (Color::Gray, Some((192, 192, 192))),
        (Color::DarkGray, Some((128, 128, 128))),
        (Color::LightRed, Some((255, 0, 0))),
        (Color::LightGreen, Some((0, 255, 0))),
        (Color::LightYellow, Some((255, 255, 0))),
        (Color::LightBlue, Some((0, 0, 255))),
        (Color::LightMagenta, Some((255, 0, 255))),
        (Color::LightCyan, Some((0, 255, 255))),
        (Color::White, Some((255, 255, 255))),
        (Color::Rgb(1, 2, 3), Some((1, 2, 3))),
        (Color::Indexed(200), None),
    ] {
        assert_eq!(color_to_rgb(color), rgb);
    }
    assert_eq!(terminal_theme_to_rgb(RgbColor { r: 9, g: 8, b: 7 }), (9, 8, 7));
}

#[test]
fn selection_moves_away_from_the_host_background() {
    assert_eq!(selection_bg_over((12, 14, 16), true), Color::Rgb(80, 81, 83));
    assert_eq!(selection_bg_over((240, 240, 240), false), Color::Rgb(173, 173, 173));
    let light = theme(Some(RgbColor { r: 240, g: 240, b: 240 }));
    assert_eq!(
        automatic_selection_bg(&palette(), light, &is_dark),
        Color::Rgb(173, 173, 173)
    );
}

#[test]
fn selection_without_host_background_takes_the_palette() {
    let mut p = palette();
    assert_eq!(selection_palette_background(&p), p.panel_bg);
    assert_eq!(automatic_selection_bg(&p, theme(None), &is_dark), p.panel_bg);
    p.panel_bg = Color::Reset;
    assert_eq!(selection_palette_background(&p), p.surface_dim);
    assert_eq!(automatic_selection_bg(&p, theme(None), &is_dark), p.surface_dim);
}

#[test]
fn selected_text_contrasts_with_its_background() {
    let p = palette();
    assert_eq!(selection_fg_for_bg(Color::Black, &p, &is_dark), Color::White);
    assert_eq!(selection_fg_for_bg(Color::White, &p, &is_dark), Color::Black);
    assert_eq!(selection_fg_for_bg(Color::Indexed(3), &p, &is_dark), p.panel_contrast_fg);
    assert_eq!(selection_fg_for_bg(Color::Reset, &p, &is_dark), p.panel_contrast_fg);
}

#[test]
fn selection_style_sets_everything_back() {
    let style = automatic_selection_style(
        &palette(),
        theme(Some(RgbColor { r: 12, g: 14, b: 16 })),
        &is_dark,
    );
    assert_eq!(
        style,
        Style {
            fg: Some(Color::White),
            bg: Some(Color::Rgb(80, 81, 83)),
            underline_color: Some(Color::Reset),
            add_modifier: 0,
            sub_modifier: ALL_MODIFIERS,
        }
    );
}

#[test]
fn styles_match_ratatui() {
    assert_eq!(BOLD, ratatui::style::Modifier::BOLD.bits());
    assert_eq!(DIM, ratatui::style::Modifier::DIM.bits());
    assert_eq!(ALL_MODIFIERS, ratatui::style::Modifier::all().bits());
    let native = ratatui::style::Style::reset();
    assert_eq!(native.sub_modifier.bits(), Style::reset().sub_modifier);
    assert_eq!(native.add_modifier.bits(), Style::reset().add_modifier);
    assert_eq!(native.fg, Some(ratatui::style::Color::Reset));
    assert_eq!(native.underline_color, Some(ratatui::style::Color::Reset));
    let bold = Style::reset().add_modifier(BOLD);
    let native = native.add_modifier(ratatui::style::Modifier::BOLD);
    assert_eq!(native.sub_modifier.bits(), bold.sub_modifier);
    assert_eq!(native.add_modifier.bits(), bold.add_modifier);
}
