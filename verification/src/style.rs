//! A model of the host framework's visual-style record, as far as the theme
//! reads or writes it.
//!
//! The theme only ever overrides colors and the dark-mode flag; every other
//! sub-field of the host record (stroke widths, rounding radii, shadow
//! geometry, and whatever a future host version adds) must flow through
//! unchanged. Those untouched sub-fields are therefore held as a single
//! opaque type parameter `H`: the theming function is proved to carry every
//! `H` value over verbatim, for any `H` at all, which is exactly the
//! "override the named fields, default the rest" obligation.

use vstd::prelude::*;

use crate::color::Color;

verus! {

/// A border or text stroke: a color, plus whatever width the host supplies.
/// The theme overrides the color and never touches the width.
#[derive(Debug, PartialEq)]
pub struct Stroke<H> {
    pub color: Color,
    pub width: H,
}

/// A drop shadow: a color, plus the host's remaining shadow parameters
/// (offset, blur, spread, ...), which the theme never touches.
#[derive(Debug, PartialEq)]
pub struct Shadow<H> {
    pub color: Color,
    pub rest: H,
}

/// The visual settings of one widget interaction state.
#[derive(Debug, PartialEq)]
pub struct WidgetVisuals<H> {
    /// Fill color of widgets that always have a background.
    pub bg_fill: Color,
    /// Fill color of widgets that only optionally have a background.
    pub weak_bg_fill: Color,
    /// The surrounding border stroke.
    pub bg_stroke: Stroke<H>,
    /// The foreground (text and icon) stroke.
    pub fg_stroke: Stroke<H>,
    /// The host's remaining per-state settings (rounding, expansion, ...).
    pub rest: H,
}

/// The five widget interaction states the host distinguishes.
#[derive(Debug, PartialEq)]
pub struct Widgets<H> {
    pub noninteractive: WidgetVisuals<H>,
    pub inactive: WidgetVisuals<H>,
    pub hovered: WidgetVisuals<H>,
    pub active: WidgetVisuals<H>,
    pub open: WidgetVisuals<H>,
}

/// The appearance of selected text and selectable items.
#[derive(Debug, PartialEq)]
pub struct Selection<H> {
    pub bg_fill: Color,
    pub stroke: Stroke<H>,
}

/// The host's visual-style record. The named fields are the ones the theme
/// writes; `rest` stands for everything else the host keeps in the record,
/// preserved verbatim by the theme.
#[derive(Debug, PartialEq)]
pub struct Style<H> {
    /// Whether the style is overall dark with light text.
    pub dark_mode: bool,
    /// Per-state widget visuals.
    pub widgets: Widgets<H>,
    /// Selection appearance.
    pub selection: Selection<H>,
    /// Hyperlink text color.
    pub hyperlink_color: Color,
    /// A fill just barely different from the background (striped grids).
    pub faint_bg_color: Color,
    /// A very dark fill (text edits, scroll bars).
    pub extreme_bg_color: Color,
    /// The fill behind code-styled text.
    pub code_bg_color: Color,
    /// Error text color.
    pub error_fg_color: Color,
    /// Warning text color.
    pub warn_fg_color: Color,
    /// The shadow under windows.
    pub window_shadow: Shadow<H>,
    /// Window fill color.
    pub window_fill: Color,
    /// Window border stroke.
    pub window_stroke: Stroke<H>,
    /// Panel fill color.
    pub panel_fill: Color,
    /// The shadow under popups.
    pub popup_shadow: Shadow<H>,
    /// Everything else the host record holds, untouched by the theme.
    pub rest: H,
}

} // verus!
