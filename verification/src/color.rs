//! RGBA colors with eight bits per channel, and the fragment-combine
//! and compositing operations of the pipeline.
//!
//! A color's four channels each range over `0..=255` and stand for the
//! real interval `[0, 1]`; the red, green and blue channels are scaled
//! by the alpha channel (premultiplied alpha).  A pixel of the output
//! buffer packs the four channels into one `u32` in little-endian byte
//! order: red in the lowest byte, alpha in the highest.

use vstd::prelude::*;

verus! {

/// An RGBA color, one byte per channel, premultiplied alpha.
#[derive(Clone, Copy, Debug, PartialEq, Eq, Structural)]
pub struct Color {
    pub r: u8,
    pub g: u8,
    pub b: u8,
    pub a: u8,
}

/// The product of two channels, each standing for a fraction of 255,
/// rounded to the nearest representable channel value.
pub open spec fn spec_mul255(x: int, y: int) -> int {
    (x * y + 127) / 255
}

/// Channel-wise product of two colors: `tint * of` scales each channel
/// of `of` by the matching channel of `tint`, alpha included.
pub open spec fn spec_tint(tint: Color, of: Color) -> Color {
    Color {
        r: spec_mul255(tint.r as int, of.r as int) as u8,
        g: spec_mul255(tint.g as int, of.g as int) as u8,
        b: spec_mul255(tint.b as int, of.b as int) as u8,
        a: spec_mul255(tint.a as int, of.a as int) as u8,
    }
}

/// One channel of the premultiplied-alpha "over" operator:
/// `src + dst * (1 - src_a)`, saturated at one.
pub open spec fn spec_over_channel(src: int, dst: int, src_a: int) -> int {
    let sum = src + spec_mul255(dst, 255 - src_a);
    if sum > 255 {
        255
    } else {
        sum
    }
}

/// The alpha channel of the "over" operator:
/// `dst_a + src_a * (1 - dst_a)`.  It never exceeds one, so it needs
/// no saturation (see `lemma_mul255_by_complement`).
pub open spec fn spec_over_alpha(dst_a: int, src_a: int) -> int {
    dst_a + spec_mul255(src_a, 255 - dst_a)
}

/// The premultiplied-alpha "over" operator: the fragment `src`
/// composited on top of the destination `dst`.
pub open spec fn spec_blend_over(dst: Color, src: Color) -> Color {
    Color {
        r: spec_over_channel(src.r as int, dst.r as int, src.a as int) as u8,
        g: spec_over_channel(src.g as int, dst.g as int, src.a as int) as u8,
        b: spec_over_channel(src.b as int, dst.b as int, src.a as int) as u8,
        a: spec_over_alpha(dst.a as int, src.a as int) as u8,
    }
}

/// A color packed into one `u32`, red in the lowest byte.
pub open spec fn spec_pack(c: Color) -> u32 {
    (c.r as int + c.g as int * 0x100 + c.b as int * 0x10000 + c.a as int * 0x1000000) as u32
}

/// The color held by a packed pixel, red from the lowest byte.
pub open spec fn spec_unpack(p: u32) -> Color {
    Color {
        r: (p as int % 0x100) as u8,
        g: (p as int / 0x100 % 0x100) as u8,
        b: (p as int / 0x10000 % 0x100) as u8,
        a: (p as int / 0x1000000 % 0x100) as u8,
    }
}

impl Color {
    /// Fully transparent black: the identity fragment of compositing.
    pub fn transparent() -> (c: Color)
        ensures
            c == (Color { r: 0, g: 0, b: 0, a: 0 }),
    {
        Color { r: 0, g: 0, b: 0, a: 0 }
    }
}

/// The product of two channels, rounded to the nearest channel value.
pub fn mul255(x: u8, y: u8) -> (r: u8)
    ensures
        r == spec_mul255(x as int, y as int),
{
    proof {
        assert((x as int) * (y as int) <= 255 * 255) by (nonlinear_arith)
            requires
                x as int <= 255,
                y as int <= 255,
        ;
        assert((x as int) * (y as int) >= 0) by (nonlinear_arith)
            requires
                x as int >= 0,
                y as int >= 0,
        ;
    }
    ((x as u32 * y as u32 + 127) / 255) as u8
}

/// Channel-wise product of two colors, alpha included; realizes
/// per-vertex tinting of a sampled texture color.
pub fn tint(t: Color, of: Color) -> (r: Color)
    ensures
        r == spec_tint(t, of),
{
    Color { r: mul255(t.r, of.r), g: mul255(t.g, of.g), b: mul255(t.b, of.b), a: mul255(
        t.a,
        of.a,
    ) }
}

/// One channel of the "over" operator, saturated at 255.
fn over_channel(src: u8, dst: u8, src_a: u8) -> (r: u8)
    ensures
        r == spec_over_channel(src as int, dst as int, src_a as int),
{
    let scaled = mul255(dst, 255 - src_a);
    let sum = src as u32 + scaled as u32;
    if sum > 255 {
        255
    } else {
        sum as u8
    }
}

/// Composites the fragment `src` over the destination `dst` with the
/// premultiplied-alpha "over" operator:
/// `out.rgb = src.rgb + dst.rgb * (1 - src.a)` and
/// `out.a = dst.a + src.a * (1 - dst.a)`, each channel saturated.
pub fn blend_over(dst: Color, src: Color) -> (r: Color)
    ensures
        r == spec_blend_over(dst, src),
{
    proof {
        lemma_mul255_by_complement(src.a as int, dst.a as int);
    }
    Color {
        r: over_channel(src.r, dst.r, src.a),
        g: over_channel(src.g, dst.g, src.a),
        b: over_channel(src.b, dst.b, src.a),
        a: {
            let scaled = mul255(src.a, 255 - dst.a);
            dst.a + scaled
        },
    }
}

/// Scaling a channel by the complement of another never exceeds that
/// complement, so the alpha channel of the "over" operator needs no
/// saturation: `dst_a + mul255(src_a, 255 - dst_a) <= 255`.
proof fn lemma_mul255_by_complement(x: int, a: int)
    requires
        0 <= x <= 255,
        0 <= a <= 255,
    ensures
        0 <= spec_mul255(x, 255 - a) <= 255 - a,
{
    assert(x * (255 - a) <= 255 * (255 - a)) by (nonlinear_arith)
        requires
            0 <= x <= 255,
            0 <= 255 - a,
    ;
    assert(x * (255 - a) >= 0) by (nonlinear_arith)
        requires
            x >= 0,
            255 - a >= 0,
    ;
    assert((255 * (255 - a) + 127) / 255 == 255 - a);
}

/// Packs a color into one `u32`, red in the lowest byte.
pub fn pack(c: Color) -> (p: u32)
    ensures
        p == spec_pack(c),
{
    c.r as u32 + c.g as u32 * 0x100 + c.b as u32 * 0x10000 + c.a as u32 * 0x1000000
}

/// Unpacks a color from one `u32`, red from the lowest byte.
pub fn unpack(p: u32) -> (c: Color)
    ensures
        c == spec_unpack(p),
{
    Color {
        r: (p % 0x100) as u8,
        g: (p / 0x100 % 0x100) as u8,
        b: (p / 0x10000 % 0x100) as u8,
        a: (p / 0x1000000 % 0x100) as u8,
    }
}

/// Packing inverts unpacking and unpacking inverts packing: the packed
/// pixel format loses no information.
pub proof fn lemma_pack_unpack(c: Color)
    ensures
        spec_unpack(spec_pack(c)) == c,
{
    let p = c.r as int + c.g as int * 0x100 + c.b as int * 0x10000 + c.a as int * 0x1000000;
    assert(p % 0x100 == c.r as int) by (nonlinear_arith)
        requires
            p == c.r as int + c.g as int * 0x100 + c.b as int * 0x10000 + c.a as int * 0x1000000,
            0 <= (c.r as int) < 0x100,
            0 <= (c.g as int) < 0x100,
            0 <= (c.b as int) < 0x100,
            0 <= (c.a as int) < 0x100,
    ;
    assert(p / 0x100 % 0x100 == c.g as int) by (nonlinear_arith)
        requires
            p == c.r as int + c.g as int * 0x100 + c.b as int * 0x10000 + c.a as int * 0x1000000,
            0 <= (c.r as int) < 0x100,
            0 <= (c.g as int) < 0x100,
            0 <= (c.b as int) < 0x100,
            0 <= (c.a as int) < 0x100,
    ;
    assert(p / 0x10000 % 0x100 == c.b as int) by (nonlinear_arith)
        requires
            p == c.r as int + c.g as int * 0x100 + c.b as int * 0x10000 + c.a as int * 0x1000000,
            0 <= (c.r as int) < 0x100,
            0 <= (c.g as int) < 0x100,
            0 <= (c.b as int) < 0x100,
            0 <= (c.a as int) < 0x100,
    ;
    assert(p / 0x1000000 % 0x100 == c.a as int) by (nonlinear_arith)
        requires
            p == c.r as int + c.g as int * 0x100 + c.b as int * 0x10000 + c.a as int * 0x1000000,
            0 <= (c.r as int) < 0x100,
            0 <= (c.g as int) < 0x100,
            0 <= (c.b as int) < 0x100,
            0 <= (c.a as int) < 0x100,
    ;
}

/// Compositing a fully transparent fragment over any destination
/// leaves the destination unchanged.
pub proof fn lemma_blend_transparent_identity(dst: Color)
    ensures
        spec_blend_over(dst, Color { r: 0, g: 0, b: 0, a: 0 }) == dst,
{
    assert(spec_mul255(dst.r as int, 255) == dst.r as int);
    assert(spec_mul255(dst.g as int, 255) == dst.g as int);
    assert(spec_mul255(dst.b as int, 255) == dst.b as int);
    assert(spec_mul255(dst.a as int, 255) == dst.a as int);
}

/// Compositing a fully opaque fragment over any destination replaces
/// the destination entirely.
pub proof fn lemma_blend_opaque_replaces(dst: Color, src: Color)
    requires
        src.a == 255,
    ensures
        spec_blend_over(dst, src) == (Color { r: src.r, g: src.g, b: src.b, a: 255 }),
{
    assert(spec_mul255(dst.r as int, 0) == 0);
    assert(spec_mul255(dst.g as int, 0) == 0);
    assert(spec_mul255(dst.b as int, 0) == 0);
    assert(spec_mul255(dst.a as int, 0) == 0);
}

} // verus!
