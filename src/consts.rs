//! Screen layout and palette.
use vstd::prelude::*;

use crate::color::Color;

verus! {

pub const WIDTH: u16 = 480;
pub const HEIGHT: u16 = 272;

pub const SEVEN_SEG_LEFT: u16 = 1;
pub const SEVEN_SEG_WIDTH: u16 = 194;
/// Set by the rectangle that holds the seven-segment font.
pub const SEVEN_SEG_HEIGHT: u16 = 56;
pub const SEVEN_SEG_TOP: u16 = 15;
pub const SEVEN_SEG_VSPACE: u16 = 65;

pub const BUTTON_WIDTH: u16 = 51;
pub const BUTTON_HEIGHT: u16 = 49;
pub const DOUBLE_BUTTON_HEIGHT: u16 = 2 * BUTTON_HEIGHT + (KEY_Y_SPACING - BUTTON_HEIGHT);
pub const CORNER_RADIUS: u32 = 6;
pub const BUTTON_STROKE_WIDTH: u32 = 2;
pub const MINUS_WIDTH: u16 = 12;

pub const KEY_X_OFFSET: u16 = 257;
pub const KEY_X_SPACING: u16 = 57;
pub const KEY_Y_OFFSET: u16 = 2;
pub const KEY_Y_SPACING: u16 = 55;

/// Capacity of the region table, sized for the fixed layout.
pub const MAXKEYS: usize = 30;

pub open spec fn spec_light_blue() -> Color {
    (Color { r: 8, g: 28, b: 31 })
}

#[verifier::when_used_as_spec(spec_light_blue)]
pub fn light_blue() -> (c: Color)
    ensures
        c == (Color { r: 8, g: 28, b: 31 }),
{
    Color::new(200, 220, 255)
}

pub open spec fn spec_orange() -> Color {
    (Color { r: 31, g: 37, b: 0 })
}

#[verifier::when_used_as_spec(spec_orange)]
pub fn orange() -> (c: Color)
    ensures
        c == (Color { r: 31, g: 37, b: 0 }),
{
    Color::new(255, 165, 0)
}

pub open spec fn spec_black() -> Color {
    (Color { r: 0, g: 0, b: 0 })
}

#[verifier::when_used_as_spec(spec_black)]
pub fn black() -> (c: Color)
    ensures
        c == (Color { r: 0, g: 0, b: 0 }),
{
    Color::new(0, 0, 0)
}

pub open spec fn spec_white() -> Color {
    (Color { r: 31, g: 63, b: 31 })
}

#[verifier::when_used_as_spec(spec_white)]
pub fn white() -> (c: Color)
    ensures
        c == (Color { r: 31, g: 63, b: 31 }),
{
    Color::new(31, 63, 31)
}

pub open spec fn spec_red() -> Color {
    (Color { r: 31, g: 0, b: 0 })
}

#[verifier::when_used_as_spec(spec_red)]
pub fn red() -> (c: Color)
    ensures
        c == (Color { r: 31, g: 0, b: 0 }),
{
    Color::new(31, 0, 0)
}

pub open spec fn spec_blue() -> Color {
    (Color { r: 0, g: 0, b: 31 })
}

#[verifier::when_used_as_spec(spec_blue)]
pub fn blue() -> (c: Color)
    ensures
        c == (Color { r: 0, g: 0, b: 31 }),
{
    Color::new(0, 0, 31)
}

pub open spec fn spec_yellow() -> Color {
    (Color { r: 31, g: 63, b: 0 })
}

#[verifier::when_used_as_spec(spec_yellow)]
pub fn yellow() -> (c: Color)
    ensures
        c == (Color { r: 31, g: 63, b: 0 }),
{
    Color::new(31, 63, 0)
}

pub open spec fn spec_cyan() -> Color {
    (Color { r: 0, g: 63, b: 31 })
}

#[verifier::when_used_as_spec(spec_cyan)]
pub fn cyan() -> (c: Color)
    ensures
        c == (Color { r: 0, g: 63, b: 31 }),
{
    Color::new(0, 63, 31)
}

pub open spec fn spec_background_color() -> Color {
    (Color { r: 10, g: 10, b: 10 })
}

/// The screen behind everything.
#[verifier::when_used_as_spec(spec_background_color)]
pub fn background_color() -> (c: Color)
    ensures
        c == (Color { r: 10, g: 10, b: 10 }),
{
    Color::new(10, 10, 10)
}

} // verus!
