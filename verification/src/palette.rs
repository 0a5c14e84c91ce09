//! The palette: a fixed table of named colors, in three tiers. A standard
//! tier (background, foreground, selection, comment and seven accent hues),
//! a sixteen-color ANSI tier (eight normal and eight bright), and four tonal
//! variants of the background used for layering UI depth.
//!
//! Every entry reproduces a published reference value verbatim; each doc
//! comment gives the hex form. Each entry comes as a `spec` function, the
//! value itself, and an executable function proved to return exactly it.

use vstd::prelude::*;

use crate::color::Color;

verus! {

/// Background, `#282A36`.
pub open spec fn spec_background() -> Color {
    Color { r: 0x28, g: 0x2A, b: 0x36 }
}

/// Background, `#282A36`.
#[verifier::when_used_as_spec(spec_background)]
pub fn background() -> (c: Color)
    ensures
        c == spec_background(),
{
    Color { r: 0x28, g: 0x2A, b: 0x36 }
}

/// Foreground, `#F8F8F2`.
pub open spec fn spec_foreground() -> Color {
    Color { r: 0xF8, g: 0xF8, b: 0xF2 }
}

/// Foreground, `#F8F8F2`.
#[verifier::when_used_as_spec(spec_foreground)]
pub fn foreground() -> (c: Color)
    ensures
        c == spec_foreground(),
{
    Color { r: 0xF8, g: 0xF8, b: 0xF2 }
}

/// Selection, `#44475A`.
pub open spec fn spec_selection() -> Color {
    Color { r: 0x44, g: 0x47, b: 0x5A }
}

/// Selection, `#44475A`.
#[verifier::when_used_as_spec(spec_selection)]
pub fn selection() -> (c: Color)
    ensures
        c == spec_selection(),
{
    Color { r: 0x44, g: 0x47, b: 0x5A }
}

/// Comment, `#6272A4`.
pub open spec fn spec_comment() -> Color {
    Color { r: 0x62, g: 0x72, b: 0xA4 }
}

/// Comment, `#6272A4`.
#[verifier::when_used_as_spec(spec_comment)]
pub fn comment() -> (c: Color)
    ensures
        c == spec_comment(),
{
    Color { r: 0x62, g: 0x72, b: 0xA4 }
}

/// Red, `#FF5555`.
pub open spec fn spec_red() -> Color {
    Color { r: 0xFF, g: 0x55, b: 0x55 }
}

/// Red, `#FF5555`.
#[verifier::when_used_as_spec(spec_red)]
pub fn red() -> (c: Color)
    ensures
        c == spec_red(),
{
    Color { r: 0xFF, g: 0x55, b: 0x55 }
}

/// Orange, `#FFB86C`.
pub open spec fn spec_orange() -> Color {
    Color { r: 0xFF, g: 0xB8, b: 0x6C }
}

/// Orange, `#FFB86C`.
#[verifier::when_used_as_spec(spec_orange)]
pub fn orange() -> (c: Color)
    ensures
        c == spec_orange(),
{
    Color { r: 0xFF, g: 0xB8, b: 0x6C }
}

/// Yellow, `#F1FA8C`.
pub open spec fn spec_yellow() -> Color {
    Color { r: 0xF1, g: 0xFA, b: 0x8C }
}

/// Yellow, `#F1FA8C`.
#[verifier::when_used_as_spec(spec_yellow)]
pub fn yellow() -> (c: Color)
    ensures
        c == spec_yellow(),
{
    Color { r: 0xF1, g: 0xFA, b: 0x8C }
}

/// Green, `#50FA7B`.
pub open spec fn spec_green() -> Color {
    Color { r: 0x50, g: 0xFA, b: 0x7B }
}

/// Green, `#50FA7B`.
#[verifier::when_used_as_spec(spec_green)]
pub fn green() -> (c: Color)
    ensures
        c == spec_green(),
{
    Color { r: 0x50, g: 0xFA, b: 0x7B }
}

/// Purple, `#BD93F9`.
pub open spec fn spec_purple() -> Color {
    Color { r: 0xBD, g: 0x93, b: 0xF9 }
}

/// Purple, `#BD93F9`.
#[verifier::when_used_as_spec(spec_purple)]
pub fn purple() -> (c: Color)
    ensures
        c == spec_purple(),
{
    Color { r: 0xBD, g: 0x93, b: 0xF9 }
}

/// Cyan, `#8BE9FD`.
pub open spec fn spec_cyan() -> Color {
    Color { r: 0x8B, g: 0xE9, b: 0xFD }
}

/// Cyan, `#8BE9FD`.
#[verifier::when_used_as_spec(spec_cyan)]
pub fn cyan() -> (c: Color)
    ensures
        c == spec_cyan(),
{
    Color { r: 0x8B, g: 0xE9, b: 0xFD }
}

/// Pink, `#FF79C6`.
pub open spec fn spec_pink() -> Color {
    Color { r: 0xFF, g: 0x79, b: 0xC6 }
}

/// Pink, `#FF79C6`.
#[verifier::when_used_as_spec(spec_pink)]
pub fn pink() -> (c: Color)
    ensures
        c == spec_pink(),
{
    Color { r: 0xFF, g: 0x79, b: 0xC6 }
}

/// ANSI black, `#21222C`.
pub open spec fn spec_ansi_black() -> Color {
    Color { r: 0x21, g: 0x22, b: 0x2C }
}

/// ANSI black, `#21222C`.
#[verifier::when_used_as_spec(spec_ansi_black)]
pub fn ansi_black() -> (c: Color)
    ensures
        c == spec_ansi_black(),
{
    Color { r: 0x21, g: 0x22, b: 0x2C }
}

/// ANSI red, `#FF5555`.
pub open spec fn spec_ansi_red() -> Color {
    Color { r: 0xFF, g: 0x55, b: 0x55 }
}

/// ANSI red, `#FF5555`.
#[verifier::when_used_as_spec(spec_ansi_red)]
pub fn ansi_red() -> (c: Color)
    ensures
        c == spec_ansi_red(),
{
    Color { r: 0xFF, g: 0x55, b: 0x55 }
}

/// ANSI green, `#50FA7B`.
pub open spec fn spec_ansi_green() -> Color {
    Color { r: 0x50, g: 0xFA, b: 0x7B }
}

/// ANSI green, `#50FA7B`.
#[verifier::when_used_as_spec(spec_ansi_green)]
pub fn ansi_green() -> (c: Color)
    ensures
        c == spec_ansi_green(),
{
    Color { r: 0x50, g: 0xFA, b: 0x7B }
}

/// ANSI yellow, `#F1FA8C`.
pub open spec fn spec_ansi_yellow() -> Color {
    Color { r: 0xF1, g: 0xFA, b: 0x8C }
}

/// ANSI yellow, `#F1FA8C`.
#[verifier::when_used_as_spec(spec_ansi_yellow)]
pub fn ansi_yellow() -> (c: Color)
    ensures
        c == spec_ansi_yellow(),
{
    Color { r: 0xF1, g: 0xFA, b: 0x8C }
}

/// ANSI blue, `#BD93F9`.
pub open spec fn spec_ansi_blue() -> Color {
    Color { r: 0xBD, g: 0x93, b: 0xF9 }
}

/// ANSI blue, `#BD93F9`.
#[verifier::when_used_as_spec(spec_ansi_blue)]
pub fn ansi_blue() -> (c: Color)
    ensures
        c == spec_ansi_blue(),
{
    Color { r: 0xBD, g: 0x93, b: 0xF9 }
}

/// ANSI magenta, `#FF79C6`.
pub open spec fn spec_ansi_magenta() -> Color {
    Color { r: 0xFF, g: 0x79, b: 0xC6 }
}

/// ANSI magenta, `#FF79C6`.
#[verifier::when_used_as_spec(spec_ansi_magenta)]
pub fn ansi_magenta() -> (c: Color)
    ensures
        c == spec_ansi_magenta(),
{
    Color { r: 0xFF, g: 0x79, b: 0xC6 }
}

/// ANSI cyan, `#8BE9FD`.
pub open spec fn spec_ansi_cyan() -> Color {
    Color { r: 0x8B, g: 0xE9, b: 0xFD }
}

/// ANSI cyan, `#8BE9FD`.
#[verifier::when_used_as_spec(spec_ansi_cyan)]
pub fn ansi_cyan() -> (c: Color)
    ensures
        c == spec_ansi_cyan(),
{
    Color { r: 0x8B, g: 0xE9, b: 0xFD }
}

/// ANSI white, `#F8F8F2`.
pub open spec fn spec_ansi_white() -> Color {
    Color { r: 0xF8, g: 0xF8, b: 0xF2 }
}

/// ANSI white, `#F8F8F2`.
#[verifier::when_used_as_spec(spec_ansi_white)]
pub fn ansi_white() -> (c: Color)
    ensures
        c == spec_ansi_white(),
{
    Color { r: 0xF8, g: 0xF8, b: 0xF2 }
}

/// ANSI bright black, `#6272A4`.
pub open spec fn spec_ansi_bright_black() -> Color {
    Color { r: 0x62, g: 0x72, b: 0xA4 }
}

/// ANSI bright black, `#6272A4`.
#[verifier::when_used_as_spec(spec_ansi_bright_black)]
pub fn ansi_bright_black() -> (c: Color)
    ensures
        c == spec_ansi_bright_black(),
{
    Color { r: 0x62, g: 0x72, b: 0xA4 }
}

/// ANSI bright red, `#FF6E6E`.
pub open spec fn spec_ansi_bright_red() -> Color {
    Color { r: 0xFF, g: 0x6E, b: 0x6E }
}

/// ANSI bright red, `#FF6E6E`.
#[verifier::when_used_as_spec(spec_ansi_bright_red)]
pub fn ansi_bright_red() -> (c: Color)
    ensures
        c == spec_ansi_bright_red(),
{
    Color { r: 0xFF, g: 0x6E, b: 0x6E }
}

/// ANSI bright green, `#69FF94`.
pub open spec fn spec_ansi_bright_green() -> Color {
    Color { r: 0x69, g: 0xFF, b: 0x94 }
}

/// ANSI bright green, `#69FF94`.
#[verifier::when_used_as_spec(spec_ansi_bright_green)]
pub fn ansi_bright_green() -> (c: Color)
    ensures
        c == spec_ansi_bright_green(),
{
    Color { r: 0x69, g: 0xFF, b: 0x94 }
}

/// ANSI bright yellow, `#FFFFA5`.
pub open spec fn spec_ansi_bright_yellow() -> Color {
    Color { r: 0xFF, g: 0xFF, b: 0xA5 }
}

/// ANSI bright yellow, `#FFFFA5`.
#[verifier::when_used_as_spec(spec_ansi_bright_yellow)]
pub fn ansi_bright_yellow() -> (c: Color)
    ensures
        c == spec_ansi_bright_yellow(),
{
    Color { r: 0xFF, g: 0xFF, b: 0xA5 }
}

/// ANSI bright blue, `#D6ACFF`.
pub open spec fn spec_ansi_bright_blue() -> Color {
    Color { r: 0xD6, g: 0xAC, b: 0xFF }
}

/// ANSI bright blue, `#D6ACFF`.
#[verifier::when_used_as_spec(spec_ansi_bright_blue)]
pub fn ansi_bright_blue() -> (c: Color)
    ensures
        c == spec_ansi_bright_blue(),
{
    Color { r: 0xD6, g: 0xAC, b: 0xFF }
}

/// ANSI bright magenta, `#FF92DF`.
pub open spec fn spec_ansi_bright_magenta() -> Color {
    Color { r: 0xFF, g: 0x92, b: 0xDF }
}

/// ANSI bright magenta, `#FF92DF`.
#[verifier::when_used_as_spec(spec_ansi_bright_magenta)]
pub fn ansi_bright_magenta() -> (c: Color)
    ensures
        c == spec_ansi_bright_magenta(),
{
    Color { r: 0xFF, g: 0x92, b: 0xDF }
}

/// ANSI bright cyan, `#A4FFFF`.
pub open spec fn spec_ansi_bright_cyan() -> Color {
    Color { r: 0xA4, g: 0xFF, b: 0xFF }
}

/// ANSI bright cyan, `#A4FFFF`.
#[verifier::when_used_as_spec(spec_ansi_bright_cyan)]
pub fn ansi_bright_cyan() -> (c: Color)
    ensures
        c == spec_ansi_bright_cyan(),
{
    Color { r: 0xA4, g: 0xFF, b: 0xFF }
}

/// ANSI bright white, `#FFFFFF`.
pub open spec fn spec_ansi_bright_white() -> Color {
    Color { r: 0xFF, g: 0xFF, b: 0xFF }
}

/// ANSI bright white, `#FFFFFF`.
#[verifier::when_used_as_spec(spec_ansi_bright_white)]
pub fn ansi_bright_white() -> (c: Color)
    ensures
        c == spec_ansi_bright_white(),
{
    Color { r: 0xFF, g: 0xFF, b: 0xFF }
}

/// Background tonal variant, lighter, `#424450`.
pub open spec fn spec_background_lighter() -> Color {
    Color { r: 0x42, g: 0x44, b: 0x50 }
}

/// Background tonal variant, lighter, `#424450`.
#[verifier::when_used_as_spec(spec_background_lighter)]
pub fn background_lighter() -> (c: Color)
    ensures
        c == spec_background_lighter(),
{
    Color { r: 0x42, g: 0x44, b: 0x50 }
}

/// Background tonal variant, light, `#344746`.
pub open spec fn spec_background_light() -> Color {
    Color { r: 0x34, g: 0x47, b: 0x46 }
}

/// Background tonal variant, light, `#344746`.
#[verifier::when_used_as_spec(spec_background_light)]
pub fn background_light() -> (c: Color)
    ensures
        c == spec_background_light(),
{
    Color { r: 0x34, g: 0x47, b: 0x46 }
}

/// Background tonal variant, dark, `#21222C`.
pub open spec fn spec_background_dark() -> Color {
    Color { r: 0x21, g: 0x22, b: 0x2C }
}

/// Background tonal variant, dark, `#21222C`.
#[verifier::when_used_as_spec(spec_background_dark)]
pub fn background_dark() -> (c: Color)
    ensures
        c == spec_background_dark(),
{
    Color { r: 0x21, g: 0x22, b: 0x2C }
}

/// Background tonal variant, darker, `#191A21`.
pub open spec fn spec_background_darker() -> Color {
    Color { r: 0x19, g: 0x1A, b: 0x21 }
}

/// Background tonal variant, darker, `#191A21`.
#[verifier::when_used_as_spec(spec_background_darker)]
pub fn background_darker() -> (c: Color)
    ensures
        c == spec_background_darker(),
{
    Color { r: 0x19, g: 0x1A, b: 0x21 }
}

} // verus!
