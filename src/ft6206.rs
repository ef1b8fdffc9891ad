//! A driver outline for the FT62xx capacitive touch controller.
use vstd::prelude::*;

verus! {

/// Bus address of the controller.
pub const FT62XX_ADDR: u16 = 0x38;

/// Largest count of touches that the controller reports.
pub const MAX_TOUCHES: usize = 10;

/// One touch point; `z` often holds the pressure.
#[allow(non_camel_case_types)]
#[derive(Clone, Copy, Debug)]
pub struct TS_Point {
    pub x: u16,
    pub y: u16,
    pub z: u16,
}

/// The controller's view of the panel.
pub struct FT62XX {
    pub touched: u8,
    pub touches: [TS_Point; 10],
}

impl FT62XX {
    /// Touch point `n`; the outline reports the origin.
    pub fn get_point(self, n: u8) -> (r: (u16, u16))
        ensures
            r == (0u16, 0u16),
    {
        (0, 0)
    }

    /// A register of the controller; the outline reads zero.
    pub fn read_register(self, reg: u8) -> (r: u8)
        ensures
            r == 0,
    {
        0
    }

    /// Writes a register of the controller; the outline writes nothing.
    pub fn write_register(self, reg: u8, val: u8) {
    }

    /// The count of touch slots, as one byte.
    pub fn touched(self) -> (r: u8)
        ensures
            r == MAX_TOUCHES,
    {
        let n = self.touches.len();
        assert(n == 10);
        assert(10usize & 0xFF == 10usize) by (bit_vector);
        (n & 0xFF) as u8
    }
}

} // verus!
