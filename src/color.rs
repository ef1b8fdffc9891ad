//! 16-bit colours with five bits of red, six of green and five of blue.
use vstd::prelude::*;

verus! {

/// Largest value of the red and blue channels.
pub const MAX_RB: u8 = 31;

/// Largest value of the green channel.
pub const MAX_G: u8 = 63;

/// A colour as its three channels, each already limited to its bit width.
#[derive(Clone, Copy, Debug, PartialEq, Eq, Structural)]
pub struct Color {
    pub r: u8,
    pub g: u8,
    pub b: u8,
}

/// The packed word handed to the display controller: blue in bits 0..5,
/// green in bits 5..11, red in bits 11..16; each channel keeps its low bits.
pub open spec fn packed_of(c: Color) -> int {
    (c.b % 32) as int + 32 * ((c.g % 64) as int) + 2048 * ((c.r % 32) as int)
}

impl Color {
    /// Channels fit their bit widths.
    pub open spec fn wf(self) -> bool {
        self.r <= MAX_RB && self.g <= MAX_G && self.b <= MAX_RB
    }

    /// A colour from raw channels; bits above each channel's width are dropped.
    pub fn new(r: u8, g: u8, b: u8) -> (c: Color)
        ensures
            c.r == r % 32,
            c.g == g % 64,
            c.b == b % 32,
            c.wf(),
    {
        let c = Color { r: r & MAX_RB, g: g & MAX_G, b: b & MAX_RB };
        assert(r & 31 == r % 32) by (bit_vector);
        assert(g & 63 == g % 64) by (bit_vector);
        assert(b & 31 == b % 32) by (bit_vector);
        c
    }

    /// The packed 16-bit word, blue in the low bits and red in the high bits.
    pub fn packed(&self) -> (w: u32)
        ensures
            w == packed_of(*self),
            w < 65536,
    {
        let b = self.b as u32 & 0x1F;
        let g = (self.g as u32 & 0x3F) << 5;
        let r = (self.r as u32 & 0x1F) << 11;
        proof {
            let (cb, cg, cr) = (self.b as u32, self.g as u32, self.r as u32);
            assert(cb < 256 && cg < 256 && cr < 256 ==> (((cb & 0x1F) | ((cg & 0x3F) << 5)) | ((cr
                & 0x1F) << 11)) == (cb % 32) + (cg % 64) * 32 + (cr % 32) * 2048) by (bit_vector);
        }
        b | g | r
    }
}

} // verus!
