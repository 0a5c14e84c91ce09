//! A single visual theme for an immediate-mode GUI toolkit: a fixed palette
//! of RGB colors and a routine that rewrites a host style record with them.
//!
//! The palette is a table of named constants in [`palette`]. The style record
//! is modelled in [`style`]: it keeps the fields the theme writes as plain
//! colors, and carries every host sub-field the theme never touches (stroke
//! widths, rounding, shadow geometry, and whatever else the host adds) as an
//! opaque type parameter. The theming itself is [`theme::themed`], a pure
//! function with a contract that pins every overridden field to its palette
//! color and every other field to its prior value.

pub mod color;
pub mod palette;
pub mod style;
pub mod theme;
