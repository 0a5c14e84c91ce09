//! The theme applicator: a pure, total transformation on the modelled style
//! record. [`spec_themed`] is the mathematical statement of the whole field
//! mapping; [`themed`] is the executable function proved to return exactly
//! it. The proof functions state the laws of the mapping: which palette
//! color each overridden field receives, that every untouched host field
//! survives verbatim, that dark mode is forced on, and that applying the
//! theme twice is the same as applying it once.

use vstd::prelude::*;

use crate::color::Color;
use crate::palette::{
    background, background_dark, background_darker, background_light, background_lighter,
    foreground, orange, pink, red, selection, spec_background, spec_background_dark,
    spec_background_darker, spec_background_light, spec_background_lighter, spec_foreground,
    spec_orange, spec_pink, spec_red, spec_selection,
};
use crate::style::{Selection, Shadow, Stroke, Style, WidgetVisuals, Widgets};

verus! {

/// The style that applying the theme to `prior` yields: dark mode on, each
/// field of the mapping set to its palette color, every stroke width, every
/// `rest` field and everything else taken from `prior` unchanged.
pub open spec fn spec_themed<H>(prior: Style<H>) -> Style<H> {
    Style {
        dark_mode: true,
        widgets: Widgets {
            noninteractive: WidgetVisuals {
                bg_fill: spec_background(),
                weak_bg_fill: spec_background(),
                bg_stroke: Stroke {
                    color: spec_background_dark(),
                    width: prior.widgets.noninteractive.bg_stroke.width,
                },
                fg_stroke: Stroke {
                    color: spec_foreground(),
                    width: prior.widgets.noninteractive.fg_stroke.width,
                },
                rest: prior.widgets.noninteractive.rest,
            },
            inactive: WidgetVisuals {
                bg_fill: spec_background_lighter(),
                weak_bg_fill: spec_background_light(),
                bg_stroke: Stroke {
                    color: spec_background_dark(),
                    width: prior.widgets.inactive.bg_stroke.width,
                },
                fg_stroke: Stroke {
                    color: spec_foreground(),
                    width: prior.widgets.inactive.fg_stroke.width,
                },
                rest: prior.widgets.inactive.rest,
            },
            hovered: WidgetVisuals {
                bg_fill: spec_background_lighter(),
                weak_bg_fill: spec_background_lighter(),
                bg_stroke: Stroke {
                    color: spec_background_dark(),
                    width: prior.widgets.hovered.bg_stroke.width,
                },
                fg_stroke: Stroke {
                    color: spec_foreground(),
                    width: prior.widgets.hovered.fg_stroke.width,
                },
                rest: prior.widgets.hovered.rest,
            },
            active: WidgetVisuals {
                bg_fill: spec_background_lighter(),
                weak_bg_fill: spec_background_light(),
                bg_stroke: Stroke {
                    color: spec_background_dark(),
                    width: prior.widgets.active.bg_stroke.width,
                },
                fg_stroke: Stroke {
                    color: spec_foreground(),
                    width: prior.widgets.active.fg_stroke.width,
                },
                rest: prior.widgets.active.rest,
            },
            open: WidgetVisuals {
                bg_fill: spec_background_lighter(),
                weak_bg_fill: spec_background_light(),
                bg_stroke: Stroke {
                    color: spec_background_dark(),
                    width: prior.widgets.open.bg_stroke.width,
                },
                fg_stroke: Stroke {
                    color: spec_foreground(),
                    width: prior.widgets.open.fg_stroke.width,
                },
                rest: prior.widgets.open.rest,
            },
        },
        selection: Selection {
            bg_fill: spec_selection(),
            stroke: Stroke {
                color: spec_background_dark(),
                width: prior.selection.stroke.width,
            },
        },
        hyperlink_color: spec_pink(),
        faint_bg_color: spec_background_dark(),
        extreme_bg_color: spec_background_darker(),
        code_bg_color: spec_background_darker(),
        error_fg_color: spec_red(),
        warn_fg_color: spec_orange(),
        window_shadow: Shadow {
            color: spec_background_darker(),
            rest: prior.window_shadow.rest,
        },
        window_fill: spec_background(),
        window_stroke: Stroke {
            color: spec_background_dark(),
            width: prior.window_stroke.width,
        },
        panel_fill: spec_background_dark(),
        popup_shadow: Shadow {
            color: spec_background_dark(),
            rest: prior.popup_shadow.rest,
        },
        rest: prior.rest,
    }
}

/// Apply the theme to a style record: returns the record with dark mode
/// forced on and the mapped fields overridden by their palette colors, all
/// other fields copied from `prior`. Total: every style is accepted.
pub fn themed<H: Copy>(prior: &Style<H>) -> (s: Style<H>)
    ensures
        s == spec_themed(*prior),
{
    Style {
        dark_mode: true,
        widgets: Widgets {
            noninteractive: WidgetVisuals {
                bg_fill: background(),
                weak_bg_fill: background(),
                bg_stroke: Stroke {
                    color: background_dark(),
                    width: prior.widgets.noninteractive.bg_stroke.width,
                },
                fg_stroke: Stroke {
                    color: foreground(),
                    width: prior.widgets.noninteractive.fg_stroke.width,
                },
                rest: prior.widgets.noninteractive.rest,
            },
            inactive: WidgetVisuals {
                bg_fill: background_lighter(),
                weak_bg_fill: background_light(),
                bg_stroke: Stroke {
                    color: background_dark(),
                    width: prior.widgets.inactive.bg_stroke.width,
                },
                fg_stroke: Stroke {
                    color: foreground(),
                    width: prior.widgets.inactive.fg_stroke.width,
                },
                rest: prior.widgets.inactive.rest,
            },
            hovered: WidgetVisuals {
                bg_fill: background_lighter(),
                weak_bg_fill: background_lighter(),
                bg_stroke: Stroke {
                    color: background_dark(),
                    width: prior.widgets.hovered.bg_stroke.width,
                },
                fg_stroke: Stroke {
                    color: foreground(),
                    width: prior.widgets.hovered.fg_stroke.width,
                },
                rest: prior.widgets.hovered.rest,
            },
            active: WidgetVisuals {
                bg_fill: background_lighter(),
                weak_bg_fill: background_light(),
                bg_stroke: Stroke {
                    color: background_dark(),
                    width: prior.widgets.active.bg_stroke.width,
                },
                fg_stroke: Stroke {
                    color: foreground(),
                    width: prior.widgets.active.fg_stroke.width,
                },
                rest: prior.widgets.active.rest,
            },
            open: WidgetVisuals {
                bg_fill: background_lighter(),
                weak_bg_fill: background_light(),
                bg_stroke: Stroke {
                    color: background_dark(),
                    width: prior.widgets.open.bg_stroke.width,
                },
                fg_stroke: Stroke {
                    color: foreground(),
                    width: prior.widgets.open.fg_stroke.width,
                },
                rest: prior.widgets.open.rest,
            },
        },
        selection: Selection {
            bg_fill: selection(),
            stroke: Stroke {
                color: background_dark(),
                width: prior.selection.stroke.width,
            },
        },
        hyperlink_color: pink(),
        faint_bg_color: background_dark(),
        extreme_bg_color: background_darker(),
        code_bg_color: background_darker(),
        error_fg_color: red(),
        warn_fg_color: orange(),
        window_shadow: Shadow {
            color: background_darker(),
            rest: prior.window_shadow.rest,
        },
        window_fill: background(),
        window_stroke: Stroke {
            color: background_dark(),
            width: prior.window_stroke.width,
        },
        panel_fill: background_dark(),
        popup_shadow: Shadow {
            color: background_dark(),
            rest: prior.popup_shadow.rest,
        },
        rest: prior.rest,
    }
}

/// The theme forces dark mode on, whatever the flag was before.
pub proof fn lemma_themed_dark_mode<H>(prior: Style<H>)
    ensures
        spec_themed(prior).dark_mode,
{
}

/// After theming, each of the five widget states carries exactly the mapped
/// palette colors: fill, weak fill, border-stroke color and
/// foreground-stroke color.
pub proof fn lemma_themed_widget_colors<H>(prior: Style<H>)
    ensures
        spec_themed(prior).widgets.noninteractive.bg_fill == spec_background(),
        spec_themed(prior).widgets.noninteractive.weak_bg_fill == spec_background(),
        spec_themed(prior).widgets.noninteractive.bg_stroke.color == spec_background_dark(),
        spec_themed(prior).widgets.noninteractive.fg_stroke.color == spec_foreground(),
        spec_themed(prior).widgets.inactive.bg_fill == spec_background_lighter(),
        spec_themed(prior).widgets.inactive.weak_bg_fill == spec_background_light(),
        spec_themed(prior).widgets.inactive.bg_stroke.color == spec_background_dark(),
        spec_themed(prior).widgets.inactive.fg_stroke.color == spec_foreground(),
        spec_themed(prior).widgets.hovered.bg_fill == spec_background_lighter(),
        spec_themed(prior).widgets.hovered.weak_bg_fill == spec_background_lighter(),
        spec_themed(prior).widgets.hovered.bg_stroke.color == spec_background_dark(),
        spec_themed(prior).widgets.hovered.fg_stroke.color == spec_foreground(),
        spec_themed(prior).widgets.active.bg_fill == spec_background_lighter(),
        spec_themed(prior).widgets.active.weak_bg_fill == spec_background_light(),
        spec_themed(prior).widgets.active.bg_stroke.color == spec_background_dark(),
        spec_themed(prior).widgets.active.fg_stroke.color == spec_foreground(),
        spec_themed(prior).widgets.open.bg_fill == spec_background_lighter(),
        spec_themed(prior).widgets.open.weak_bg_fill == spec_background_light(),
        spec_themed(prior).widgets.open.bg_stroke.color == spec_background_dark(),
        spec_themed(prior).widgets.open.fg_stroke.color == spec_foreground(),
{
}

/// After theming, the chrome fields carry exactly the mapped palette colors:
/// selection, hyperlink, the three background fills, error and warning text,
/// window, panel and popup.
pub proof fn lemma_themed_chrome_colors<H>(prior: Style<H>)
    ensures
        spec_themed(prior).selection.bg_fill == spec_selection(),
        spec_themed(prior).selection.stroke.color == spec_background_dark(),
        spec_themed(prior).hyperlink_color == spec_pink(),
        spec_themed(prior).faint_bg_color == spec_background_dark(),
        spec_themed(prior).extreme_bg_color == spec_background_darker(),
        spec_themed(prior).code_bg_color == spec_background_darker(),
        spec_themed(prior).error_fg_color == spec_red(),
        spec_themed(prior).warn_fg_color == spec_orange(),
        spec_themed(prior).window_shadow.color == spec_background_darker(),
        spec_themed(prior).window_fill == spec_background(),
        spec_themed(prior).window_stroke.color == spec_background_dark(),
        spec_themed(prior).panel_fill == spec_background_dark(),
        spec_themed(prior).popup_shadow.color == spec_background_dark(),
{
}

/// The theme is surgical: every host field outside the mapping survives
/// unchanged -- all ten stroke widths, the per-state and shadow `rest`
/// fields, and the whole remainder of the style record.
pub proof fn lemma_themed_preserves_host_fields<H>(prior: Style<H>)
    ensures
        spec_themed(prior).widgets.noninteractive.bg_stroke.width
            == prior.widgets.noninteractive.bg_stroke.width,
        spec_themed(prior).widgets.noninteractive.fg_stroke.width
            == prior.widgets.noninteractive.fg_stroke.width,
        spec_themed(prior).widgets.noninteractive.rest == prior.widgets.noninteractive.rest,
        spec_themed(prior).widgets.inactive.bg_stroke.width
            == prior.widgets.inactive.bg_stroke.width,
        spec_themed(prior).widgets.inactive.fg_stroke.width
            == prior.widgets.inactive.fg_stroke.width,
        spec_themed(prior).widgets.inactive.rest == prior.widgets.inactive.rest,
        spec_themed(prior).widgets.hovered.bg_stroke.width
            == prior.widgets.hovered.bg_stroke.width,
        spec_themed(prior).widgets.hovered.fg_stroke.width
            == prior.widgets.hovered.fg_stroke.width,
        spec_themed(prior).widgets.hovered.rest == prior.widgets.hovered.rest,
        spec_themed(prior).widgets.active.bg_stroke.width
            == prior.widgets.active.bg_stroke.width,
        spec_themed(prior).widgets.active.fg_stroke.width
            == prior.widgets.active.fg_stroke.width,
        spec_themed(prior).widgets.active.rest == prior.widgets.active.rest,
        spec_themed(prior).widgets.open.bg_stroke.width == prior.widgets.open.bg_stroke.width,
        spec_themed(prior).widgets.open.fg_stroke.width == prior.widgets.open.fg_stroke.width,
        spec_themed(prior).widgets.open.rest == prior.widgets.open.rest,
        spec_themed(prior).selection.stroke.width == prior.selection.stroke.width,
        spec_themed(prior).window_shadow.rest == prior.window_shadow.rest,
        spec_themed(prior).window_stroke.width == prior.window_stroke.width,
        spec_themed(prior).popup_shadow.rest == prior.popup_shadow.rest,
        spec_themed(prior).rest == prior.rest,
{
}

/// The theme is idempotent: applying it twice yields the same style as
/// applying it once.
pub proof fn lemma_themed_idempotent<H>(prior: Style<H>)
    ensures
        spec_themed(spec_themed(prior)) == spec_themed(prior),
{
}

} // verus!
