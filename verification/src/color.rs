//! The pixel value of a color on the visual of a connection.

use vstd::prelude::*;
use crate::xvars::XVar;

verus! {

/// The level of one channel of a color, as a number of sixteen bits whose
/// low eight are zero. Channel 0 is red, 1 is green, and any other is blue.
pub open spec fn channel_level(color: u32, channel: int) -> u64 {
    if channel == 0 {
        ((color >> 8) & 0xff00) as u64
    } else if channel == 1 {
        (color & 0xff00) as u64
    } else {
        ((color << 8) & 0xff00) as u64
    }
}

/// The bits of a pixel that a channel's level gives on a mask of `width` bits
/// that starts at bit `shift`: the level is brought from sixteen bits to
/// `width` bits and moved to its place. A mask that lies outside the pixel
/// gives nothing.
pub open spec fn channel_bits(level: u64, shift: i32, width: i32) -> u64 {
    if 0 <= shift < 64 && 0 <= width <= 16 {
        (level >> ((16 - width) as u64)) << (shift as u64)
    } else if 0 <= shift < 64 && 16 < width <= 64 {
        (level << ((width - 16) as u64)) << (shift as u64)
    } else {
        0
    }
}

/// The pixel value of a color. At a depth of 24 bits or more the color is the
/// pixel. Below that the three channels are packed by the table of the
/// visual.
pub open spec fn good_color(depth: i32, decrgb: Seq<i32>, color: i32) -> i32 {
    if depth >= 24 {
        color
    } else {
        let word = color as u32;
        let pixel = channel_bits(channel_level(word, 0), decrgb[0], decrgb[1]) | channel_bits(
            channel_level(word, 1),
            decrgb[2],
            decrgb[3],
        ) | channel_bits(channel_level(word, 2), decrgb[4], decrgb[5]);
        pixel as i32
    }
}

/// Moves the level of one channel to its place in the pixel.
fn pack_channel(level: u64, shift: i32, width: i32) -> (bits: u64)
    ensures
        bits == channel_bits(level, shift, width),
{
    if shift < 0 || shift >= 64 || width < 0 || width > 64 {
        0
    } else if width <= 16 {
        (level >> ((16 - width) as u64)) << (shift as u64)
    } else {
        (level << ((width - 16) as u64)) << (shift as u64)
    }
}

/// The pixel value that shows `color` on the visual of the connection.
pub fn mlx_int_get_good_color(xvar: &XVar, color: i32) -> (pixel: i32)
    ensures
        pixel == good_color(xvar.depth, xvar.decrgb@, color),
{
    if xvar.depth >= 24 {
        return color;
    }
    let word: u32 = color as u32;
    let red: u64 = ((word >> 8) & 0xff00) as u64;
    let green: u64 = (word & 0xff00) as u64;
    let blue: u64 = ((word << 8) & 0xff00) as u64;
    let pixel: u64 = pack_channel(red, xvar.decrgb[0], xvar.decrgb[1]) | pack_channel(
        green,
        xvar.decrgb[2],
        xvar.decrgb[3],
    ) | pack_channel(blue, xvar.decrgb[4], xvar.decrgb[5]);
    pixel as i32
}

/// The pixel value that shows `color` on the visual of the connection.
pub fn mlx_get_color_value(xvar: &XVar, color: i32) -> (pixel: i32)
    ensures
        pixel == good_color(xvar.depth, xvar.decrgb@, color),
{
    mlx_int_get_good_color(xvar, color)
}

/// On a visual of eight bits per channel with red above green above blue, the
/// packing keeps a color of 24 bits as it is.
pub proof fn lemma_good_color_keeps_rgb24(color: i32)
    requires
        0 <= color <= 0xff_ffff,
    ensures
        good_color(16, seq![16i32, 8i32, 8i32, 8i32, 0i32, 8i32], color) == color,
{
    let word = color as u32;
    let table = seq![16i32, 8i32, 8i32, 8i32, 0i32, 8i32];
    let red = channel_bits(channel_level(word, 0), table[0], table[1]);
    let green = channel_bits(channel_level(word, 1), table[2], table[3]);
    let blue = channel_bits(channel_level(word, 2), table[4], table[5]);
    assert(word == color) by (bit_vector)
        requires
            word == color as u32,
            0 <= color <= 0xff_ffff,
    ;
    assert(((red | green | blue) as i32) == color) by (bit_vector)
        requires
            word == color,
            0 <= color <= 0xff_ffff,
            red == ((((word >> 8) & 0xff00) as u64) >> 8u64) << 16u64,
            green == (((word & 0xff00) as u64) >> 8u64) << 8u64,
            blue == ((((word << 8) & 0xff00) as u64) >> 8u64) << 0u64,
    ;
}

} // verus!
