use dracula_theme::color::Color;
use dracula_theme::palette::{
    ansi_black, ansi_blue, ansi_bright_black, ansi_bright_blue, ansi_bright_cyan,
    ansi_bright_green, ansi_bright_magenta, ansi_bright_red, ansi_bright_white,
    ansi_bright_yellow, ansi_cyan, ansi_green, ansi_magenta, ansi_red, ansi_white, ansi_yellow,
    background, background_dark, background_darker, background_light, background_lighter,
    comment, cyan, foreground, green, orange, pink, purple, red, selection, yellow,
};
use dracula_theme::style::{Selection, Shadow, Stroke, Style, WidgetVisuals, Widgets};
use dracula_theme::theme::themed;

fn rgb(r: u8, g: u8, b: u8) -> Color {
    Color { r, g, b }
}

/// A style filled with sentinel colors and distinct sentinel host values,
/// so that tests can tell overridden fields from preserved ones.
fn sample_style(dark_mode: bool) -> Style<u32> {
    let sentinel = rgb(0x01, 0x02, 0x03);
    let state = |base: u32| WidgetVisuals {
        bg_fill: sentinel,
        weak_bg_fill: sentinel,
        bg_stroke: Stroke { color: sentinel, width: base },
        fg_stroke: Stroke { color: sentinel, width: base + 1 },
        rest: base + 2,
    };
    Style {
        dark_mode,
        widgets: Widgets {
            noninteractive: state(100),
            inactive: state(200),
            hovered: state(300),
            active: state(400),
            open: state(500),
        },
        selection: Selection {
            bg_fill: sentinel,
            stroke: Stroke { color: sentinel, width: 600 },
        },
        hyperlink_color: sentinel,
        faint_bg_color: sentinel,
        extreme_bg_color: sentinel,
        code_bg_color: sentinel,
        error_fg_color: sentinel,
        warn_fg_color: sentinel,
        window_shadow: Shadow { color: sentinel, rest: 700 },
        window_fill: sentinel,
        window_stroke: Stroke { color: sentinel, width: 800 },
        panel_fill: sentinel,
        popup_shadow: Shadow { color: sentinel, rest: 900 },
        rest: 1000,
    }
}

#[test]
fn standard_palette_matches_reference() {
    assert_eq!(background(), rgb(0x28, 0x2A, 0x36));
    assert_eq!(foreground(), rgb(0xF8, 0xF8, 0xF2));
    assert_eq!(selection(), rgb(0x44, 0x47, 0x5A));
    assert_eq!(comment(), rgb(0x62, 0x72, 0xA4));
    assert_eq!(red(), rgb(0xFF, 0x55, 0x55));
    assert_eq!(orange(), rgb(0xFF, 0xB8, 0x6C));
    assert_eq!(yellow(), rgb(0xF1, 0xFA, 0x8C));
    assert_eq!(green(), rgb(0x50, 0xFA, 0x7B));
    assert_eq!(purple(), rgb(0xBD, 0x93, 0xF9));
    assert_eq!(cyan(), rgb(0x8B, 0xE9, 0xFD));
    assert_eq!(pink(), rgb(0xFF, 0x79, 0xC6));
}

#[test]
fn ansi_palette_matches_reference() {
    assert_eq!(ansi_black(), rgb(0x21, 0x22, 0x2C));
    assert_eq!(ansi_red(), rgb(0xFF, 0x55, 0x55));
    assert_eq!(ansi_green(), rgb(0x50, 0xFA, 0x7B));
    assert_eq!(ansi_yellow(), rgb(0xF1, 0xFA, 0x8C));
    assert_eq!(ansi_blue(), rgb(0xBD, 0x93, 0xF9));
    assert_eq!(ansi_magenta(), rgb(0xFF, 0x79, 0xC6));
    assert_eq!(ansi_cyan(), rgb(0x8B, 0xE9, 0xFD));
    assert_eq!(ansi_white(), rgb(0xF8, 0xF8, 0xF2));
}

#[test]
fn ansi_bright_palette_matches_reference() {
    assert_eq!(ansi_bright_black(), rgb(0x62, 0x72, 0xA4));
    assert_eq!(ansi_bright_red(), rgb(0xFF, 0x6E, 0x6E));
    assert_eq!(ansi_bright_green(), rgb(0x69, 0xFF, 0x94));
    assert_eq!(ansi_bright_yellow(), rgb(0xFF, 0xFF, 0xA5));
    assert_eq!(ansi_bright_blue(), rgb(0xD6, 0xAC, 0xFF));
    assert_eq!(ansi_bright_magenta(), rgb(0xFF, 0x92, 0xDF));
    assert_eq!(ansi_bright_cyan(), rgb(0xA4, 0xFF, 0xFF));
    assert_eq!(ansi_bright_white(), rgb(0xFF, 0xFF, 0xFF));
}

#[test]
fn background_variants_match_reference() {
    assert_eq!(background_lighter(), rgb(0x42, 0x44, 0x50));
    assert_eq!(background_light(), rgb(0x34, 0x47, 0x46));
    assert_eq!(background_dark(), rgb(0x21, 0x22, 0x2C));
    assert_eq!(background_darker(), rgb(0x19, 0x1A, 0x21));
}

#[test]
fn themed_widget_state_colors_match_mapping() {
    let t = themed(&sample_style(false));

    assert_eq!(t.widgets.noninteractive.bg_fill, background());
    assert_eq!(t.widgets.noninteractive.weak_bg_fill, background());
    assert_eq!(t.widgets.noninteractive.bg_stroke.color, background_dark());
    assert_eq!(t.widgets.noninteractive.fg_stroke.color, foreground());

    assert_eq!(t.widgets.inactive.bg_fill, background_lighter());
    assert_eq!(t.widgets.inactive.weak_bg_fill, background_light());
    assert_eq!(t.widgets.inactive.bg_stroke.color, background_dark());
    assert_eq!(t.widgets.inactive.fg_stroke.color, foreground());

    assert_eq!(t.widgets.hovered.bg_fill, background_lighter());
    assert_eq!(t.widgets.hovered.weak_bg_fill, background_lighter());
    assert_eq!(t.widgets.hovered.bg_stroke.color, background_dark());
    assert_eq!(t.widgets.hovered.fg_stroke.color, foreground());

    assert_eq!(t.widgets.active.bg_fill, background_lighter());
    assert_eq!(t.widgets.active.weak_bg_fill, background_light());
    assert_eq!(t.widgets.active.bg_stroke.color, background_dark());
    assert_eq!(t.widgets.active.fg_stroke.color, foreground());

    assert_eq!(t.widgets.open.bg_fill, background_lighter());
    assert_eq!(t.widgets.open.weak_bg_fill, background_light());
    assert_eq!(t.widgets.open.bg_stroke.color, background_dark());
    assert_eq!(t.widgets.open.fg_stroke.color, foreground());
}

#[test]
fn themed_chrome_colors_match_mapping() {
    let t = themed(&sample_style(false));

    assert_eq!(t.selection.bg_fill, selection());
    assert_eq!(t.selection.stroke.color, background_dark());
    assert_eq!(t.hyperlink_color, pink());
    assert_eq!(t.faint_bg_color, background_dark());
    assert_eq!(t.extreme_bg_color, background_darker());
    assert_eq!(t.code_bg_color, background_darker());
    assert_eq!(t.error_fg_color, red());
    assert_eq!(t.warn_fg_color, orange());
    assert_eq!(t.window_shadow.color, background_darker());
    assert_eq!(t.window_fill, background());
    assert_eq!(t.window_stroke.color, background_dark());
    assert_eq!(t.panel_fill, background_dark());
    assert_eq!(t.popup_shadow.color, background_dark());
}

#[test]
fn themed_preserves_unlisted_fields() {
    let t = themed(&sample_style(false));

    assert_eq!(t.widgets.noninteractive.bg_stroke.width, 100);
    assert_eq!(t.widgets.noninteractive.fg_stroke.width, 101);
    assert_eq!(t.widgets.noninteractive.rest, 102);
    assert_eq!(t.widgets.inactive.bg_stroke.width, 200);
    assert_eq!(t.widgets.inactive.fg_stroke.width, 201);
    assert_eq!(t.widgets.inactive.rest, 202);
    assert_eq!(t.widgets.hovered.bg_stroke.width, 300);
    assert_eq!(t.widgets.hovered.fg_stroke.width, 301);
    assert_eq!(t.widgets.hovered.rest, 302);
    assert_eq!(t.widgets.active.bg_stroke.width, 400);
    assert_eq!(t.widgets.active.fg_stroke.width, 401);
    assert_eq!(t.widgets.active.rest, 402);
    assert_eq!(t.widgets.open.bg_stroke.width, 500);
    assert_eq!(t.widgets.open.fg_stroke.width, 501);
    assert_eq!(t.widgets.open.rest, 502);
    assert_eq!(t.selection.stroke.width, 600);
    assert_eq!(t.window_shadow.rest, 700);
    assert_eq!(t.window_stroke.width, 800);
    assert_eq!(t.popup_shadow.rest, 900);
    assert_eq!(t.rest, 1000);
}

#[test]
fn themed_twice_equals_themed_once() {
    let once = themed(&sample_style(false));
    let twice = themed(&once);
    assert_eq!(twice, once);
}

#[test]
fn dark_mode_forced_on() {
    assert!(themed(&sample_style(false)).dark_mode);
    assert!(themed(&sample_style(true)).dark_mode);
}

#[test]
fn hovered_border_stroke_keeps_width_one() {
    let sentinel = rgb(0x01, 0x02, 0x03);
    let state = |w: f32| WidgetVisuals {
        bg_fill: sentinel,
        weak_bg_fill: sentinel,
        bg_stroke: Stroke { color: sentinel, width: w },
        fg_stroke: Stroke { color: sentinel, width: w },
        rest: 0.0f32,
    };
    let host_default: Style<f32> = Style {
        dark_mode: false,
        widgets: Widgets {
            noninteractive: state(2.0),
            inactive: state(2.0),
            hovered: state(1.0),
            active: state(2.0),
            open: state(2.0),
        },
        selection: Selection {
            bg_fill: sentinel,
            stroke: Stroke { color: sentinel, width: 2.0 },
        },
        hyperlink_color: sentinel,
        faint_bg_color: sentinel,
        extreme_bg_color: sentinel,
        code_bg_color: sentinel,
        error_fg_color: sentinel,
        warn_fg_color: sentinel,
        window_shadow: Shadow { color: sentinel, rest: 0.0 },
        window_fill: sentinel,
        window_stroke: Stroke { color: sentinel, width: 2.0 },
        panel_fill: sentinel,
        popup_shadow: Shadow { color: sentinel, rest: 0.0 },
        rest: 0.0,
    };
    let t = themed(&host_default);
    assert_eq!(t.widgets.hovered.bg_stroke.color, rgb(0x21, 0x22, 0x2C));
    assert_eq!(t.widgets.hovered.bg_stroke.width, 1.0);
}
