//! Packed `0xAABBGGRR` colors: extracting and packing channels, and
//! alpha blending of one color over another.

use vstd::prelude::*;

verus! {

/// The red channel of a packed color (bits 0..8).
pub open spec fn spec_red(color: u32) -> u32 {
    color & 0x0000_00FF
}

/// The green channel of a packed color (bits 8..16).
pub open spec fn spec_green(color: u32) -> u32 {
    (color & 0x0000_FF00) >> 8
}

/// The blue channel of a packed color (bits 16..24).
pub open spec fn spec_blue(color: u32) -> u32 {
    (color & 0x00FF_0000) >> 16
}

/// The alpha channel of a packed color (bits 24..32).
pub open spec fn spec_alpha(color: u32) -> u32 {
    (color & 0xFF00_0000) >> 24
}

/// Channels packed into a color: red in the low byte, then green, blue, alpha.
/// Each argument is masked to its low byte first.
pub open spec fn spec_rgba(r: u32, g: u32, b: u32, a: u32) -> u32 {
    (r & 0xFF) | ((g & 0xFF) << 8) | ((b & 0xFF) << 16) | ((a & 0xFF) << 24)
}

/// One channel of `c2` blended over the same channel of `c1` with alpha `a2`,
/// clamped to a byte: `(c1*(255 - a2) + c2*a2) / 255`, at most 255.
pub open spec fn spec_blend_channel(c1: int, c2: int, a2: int) -> int {
    let v = (c1 * (255 - a2) + c2 * a2) / 255;
    if v > 255 {
        255
    } else {
        v
    }
}

/// `color2` blended over `color1` channel by channel, weighted by the alpha
/// of `color2`; the result keeps the alpha of `color1`.
pub open spec fn spec_blend_color(color1: u32, color2: u32) -> u32 {
    spec_rgba(
        spec_blend_channel(spec_red(color1) as int, spec_red(color2) as int, spec_alpha(color2) as int) as u32,
        spec_blend_channel(spec_green(color1) as int, spec_green(color2) as int, spec_alpha(color2) as int) as u32,
        spec_blend_channel(spec_blue(color1) as int, spec_blue(color2) as int, spec_alpha(color2) as int) as u32,
        spec_alpha(color1),
    )
}

/// Extracts the red component of the packed color.
pub fn red(color: u32) -> (r: u8)
    ensures
        r == spec_red(color),
{
    proof {
        assert(color & 0x0000_00FF < 256) by (bit_vector);
    }
    (color & 0x0000_00FF) as u8
}

/// Extracts the green component of the packed color.
pub fn green(color: u32) -> (r: u8)
    ensures
        r == spec_green(color),
{
    proof {
        assert((color & 0x0000_FF00) >> 8 < 256) by (bit_vector);
    }
    ((color & 0x0000_FF00) >> 8) as u8
}

/// Extracts the blue component of the packed color.
pub fn blue(color: u32) -> (r: u8)
    ensures
        r == spec_blue(color),
{
    proof {
        assert((color & 0x00FF_0000) >> 16 < 256) by (bit_vector);
    }
    ((color & 0x00FF_0000) >> 16) as u8
}

/// Extracts the alpha component of the packed color.
pub fn alpha(color: u32) -> (r: u8)
    ensures
        r == spec_alpha(color),
{
    proof {
        assert((color & 0xFF00_0000) >> 24 < 256) by (bit_vector);
    }
    ((color & 0xFF00_0000) >> 24) as u8
}

/// Packs RGBA channel values into a color; each argument is masked to its
/// low byte.
pub fn rgba(r: u32, g: u32, b: u32, a: u32) -> (c: u32)
    ensures
        c == spec_rgba(r, g, b, a),
{
    (r & 0xFF) | ((g & 0xFF) << 8u32) | ((b & 0xFF) << 16u32) | ((a & 0xFF) << 24u32)
}

/// Packs RGB channel values into a color with an alpha of 255.
pub fn rgb(r: u32, g: u32, b: u32) -> (c: u32)
    ensures
        c == spec_rgba(r, g, b, 255),
{
    (r & 0xFF) | ((g & 0xFF) << 8u32) | ((b & 0xFF) << 16u32) | ((255u32 & 0xFF) << 24u32)
}

/// Blends the two colors together and returns the result back in the first
/// argument
pub fn blend_color_in_place(color1: &mut u32, color2: u32)
    ensures
        *final(color1) == spec_blend_color(*old(color1), color2),
{
    let c1: u32 = *color1;

    let r1: u32 = c1 & 0x0000_00FF;
    let g1: u32 = (c1 & 0x0000_FF00) >> 8;
    let b1: u32 = (c1 & 0x00FF_0000) >> 16;
    let a1: u32 = (c1 & 0xFF00_0000) >> 24;

    let r2: u32 = color2 & 0x0000_00FF;
    let g2: u32 = (color2 & 0x0000_FF00) >> 8;
    let b2: u32 = (color2 & 0x00FF_0000) >> 16;
    let a2: u32 = (color2 & 0xFF00_0000) >> 24;

    proof {
        assert(c1 & 0x0000_00FF < 256) by (bit_vector);
        assert((c1 & 0x0000_FF00) >> 8 < 256) by (bit_vector);
        assert((c1 & 0x00FF_0000) >> 16 < 256) by (bit_vector);
        assert(color2 & 0x0000_00FF < 256) by (bit_vector);
        assert((color2 & 0x0000_FF00) >> 8 < 256) by (bit_vector);
        assert((color2 & 0x00FF_0000) >> 16 < 256) by (bit_vector);
        assert((color2 & 0xFF00_0000) >> 24 < 256) by (bit_vector);
        assert(r1 * (255 - a2) + r2 * a2 <= 130050) by (nonlinear_arith)
            requires
                r1 < 256 && r2 < 256 && a2 < 256,
        ;
        assert(g1 * (255 - a2) + g2 * a2 <= 130050) by (nonlinear_arith)
            requires
                g1 < 256 && g2 < 256 && a2 < 256,
        ;
        assert(b1 * (255 - a2) + b2 * a2 <= 130050) by (nonlinear_arith)
            requires
                b1 < 256 && b2 < 256 && a2 < 256,
        ;
    }

    let mut r: u32 = (r1 * (255 - a2) + r2 * a2) / 255;
    if r > 255 {
        r = 255;
    }
    let mut g: u32 = (g1 * (255 - a2) + g2 * a2) / 255;
    if g > 255 {
        g = 255;
    }
    let mut b: u32 = (b1 * (255 - a2) + b2 * a2) / 255;
    if b > 255 {
        b = 255;
    }

    *color1 = (r & 0xFF) | ((g & 0xFF) << 8u32) | ((b & 0xFF) << 16u32) | ((a1 & 0xFF) << 24u32);
}

/// Blends the two colors together and returns the result
pub fn blend_color(color1: u32, color2: u32) -> (r: u32)
    ensures
        r == spec_blend_color(color1, color2),
{
    let mut res = color1;
    blend_color_in_place(&mut res, color2);
    res
}

} // verus!
