//! Colors, packed in the 5-6-5 sixteen-bit layout: five bits of red, six of
//! green, five of blue, red in the most significant bits.

use vstd::prelude::*;

verus! {

/// The frame background.
pub const COLOR_BLACK: u16 = 0;

/// The stroke color of every cube edge.
pub const COLOR_RED: u16 = 0xF800;

/// The color of the vertex-highlight pixels.
pub const COLOR_WHITE: u16 = 0xFFFF;

/// Pack three channel values into one 5-6-5 word.
pub fn pack_rgb565(r: u8, g: u8, b: u8) -> (c: u16)
    requires
        r < 32,
        g < 64,
        b < 32,
    ensures
        c == r * 2048 + g * 32 + b,
{
    let rw: u16 = r as u16;
    let gw: u16 = g as u16;
    let bw: u16 = b as u16;
    let c: u16 = (rw << 11) | (gw << 5) | bw;
    assert(c == rw * 2048 + gw * 32 + bw) by (bit_vector)
        requires
            c == (rw << 11) | (gw << 5) | bw,
            rw < 32,
            gw < 64,
            bw < 32,
    ;
    c
}

} // verus!
