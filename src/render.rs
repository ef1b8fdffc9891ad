//! Drawing operations that the widgets ask of the rendering side.
use vstd::prelude::*;

use crate::color::Color;

verus! {

/// One thing to paint. Coordinates are screen pixels.
#[derive(Clone, Copy, Debug, PartialEq, Eq)]
pub enum DrawOp {
    /// A rounded panel with the standard stroke, filled with `fill`.
    Panel { x: i32, y: i32, width: i32, height: i32, fill: Color },
    /// A solid rectangle from corner (x0, y0) to corner (x1, y1) in a packed colour.
    Block { x0: i32, y0: i32, x1: i32, y1: i32, packed: u32 },
    /// A text label in the keypad font.
    Label { x: i32, y: i32, text: &'static str, color: Color },
    /// One glyph of the seven-segment font.
    Digit { x: i32, y: i32, ch: char, color: Color },
}

} // verus!
