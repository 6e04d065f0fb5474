//! Texture sampling: six closed-form strategies, the product of a
//! magnification filter (nearest or bilinear) and a wrap mode (clamp,
//! repeat or mirror).
//!
//! A texture coordinate is a fixed-point number where `FX_ONE` spans
//! the whole texture.  The wrap mode transforms the coordinate into
//! `[0, 1]` before lookup; the filter then reads one texel (nearest)
//! or blends the four texels around the coordinate, weighted by its
//! fractional offset (linear).  A texture's options are static, so the
//! strategy is fixed per draw item and reused for all its fragments.

use vstd::prelude::*;

use crate::color::{spec_unpack, unpack, Color};
use crate::fx::{emod64, fdiv64, spec_emod, spec_fdiv, spec_rdiv, FX_HALF, FX_ONE};
use crate::scissor::{spec_clamp, spec_pixel_index, MAX_DIM};
use crate::texture::{SoftwareTexture, TexView, TextureFilter, TextureWrapMode};

verus! {

/// Largest magnitude of a texture coordinate the samplers accept.
pub const UV_MAX: i64 = 0x1000000000000;

/// A texture coordinate brought back into `[0, 1]` by the wrap mode:
/// clamping saturates, repeating takes the coordinate modulo one, and
/// mirroring reflects it back on every period boundary (ping-pong).
pub open spec fn spec_wrap(mode: TextureWrapMode, u: int) -> int {
    match mode {
        TextureWrapMode::ClampToEdge => spec_clamp(u, 0, FX_ONE as int),
        TextureWrapMode::Repeat => spec_emod(u, FX_ONE as int),
        TextureWrapMode::MirroredRepeat => {
            let m = spec_emod(u, 2 * FX_ONE as int);
            if m <= FX_ONE as int {
                m
            } else {
                2 * FX_ONE as int - m
            }
        },
    }
}

/// Applies a wrap mode to a fixed-point texture coordinate.
pub fn wrap(mode: TextureWrapMode, u: i64) -> (r: i64)
    requires
        -UV_MAX <= u <= UV_MAX,
    ensures
        r == spec_wrap(mode, u as int),
        0 <= r <= FX_ONE,
{
    match mode {
        TextureWrapMode::ClampToEdge => {
            if u < 0 {
                0
            } else if u > FX_ONE {
                FX_ONE
            } else {
                u
            }
        },
        TextureWrapMode::Repeat => {
            let r = emod64(u, FX_ONE);
            proof {
                vstd::arithmetic::div_mod::lemma_mod_bound(u as int, FX_ONE as int);
            }
            r
        },
        TextureWrapMode::MirroredRepeat => {
            let m = emod64(u, 2 * FX_ONE);
            proof {
                vstd::arithmetic::div_mod::lemma_mod_bound(u as int, 2 * FX_ONE as int);
            }
            if m <= FX_ONE {
                m
            } else {
                2 * FX_ONE - m
            }
        },
    }
}

/// The texel whose span contains a wrapped coordinate: the coordinate
/// scaled to texel units and truncated, saturated to the last texel so
/// that a coordinate of exactly one stays in range.
pub open spec fn spec_nearest_index(u: int, dim: int) -> int {
    let i = spec_fdiv(u * dim, FX_ONE as int);
    if i >= dim {
        dim - 1
    } else {
        i
    }
}

/// The index of the texel a wrapped coordinate falls in.
pub fn nearest_index(u: i64, dim: usize) -> (i: usize)
    requires
        0 <= u <= FX_ONE,
        1 <= dim <= MAX_DIM,
    ensures
        i == spec_nearest_index(u as int, dim as int),
        i < dim,
{
    proof {
        assert(0 <= u * dim <= 65536 * 32768) by (nonlinear_arith)
            requires
                0 <= u <= 65536,
                1 <= dim <= 32768,
        ;
        assert(u * dim / (FX_ONE as int) >= 0) by (nonlinear_arith)
            requires
                u * dim >= 0,
        ;
    }
    let i = (u * (dim as i64)) / FX_ONE;
    if i as usize >= dim {
        dim - 1
    } else {
        i as usize
    }
}

/// The low texel index of bilinear filtering: the wrapped coordinate
/// in texel units, shifted back half a texel, rounded down, saturated
/// into the texture.
pub open spec fn spec_linear_i0(u: int, dim: int) -> int {
    spec_clamp(spec_fdiv(u * dim - FX_HALF as int, FX_ONE as int), 0, dim - 1)
}

/// The high texel index of bilinear filtering: one past the low index,
/// saturated into the texture.
pub open spec fn spec_linear_i1(u: int, dim: int) -> int {
    spec_clamp(spec_fdiv(u * dim - FX_HALF as int, FX_ONE as int) + 1, 0, dim - 1)
}

/// The fractional offset of the coordinate between its two texels.
pub open spec fn spec_linear_frac(u: int, dim: int) -> int {
    spec_emod(u * dim - FX_HALF as int, FX_ONE as int)
}

/// The two texel indices and the fractional weight of bilinear
/// filtering along one axis.
fn linear_cell(u: i64, dim: usize) -> (r: (usize, usize, i64))
    requires
        0 <= u <= FX_ONE,
        1 <= dim <= MAX_DIM,
    ensures
        r.0 == spec_linear_i0(u as int, dim as int),
        r.1 == spec_linear_i1(u as int, dim as int),
        r.2 == spec_linear_frac(u as int, dim as int),
        r.0 < dim,
        r.1 < dim,
        0 <= r.2 < FX_ONE,
{
    proof {
        assert(0 <= u * dim <= 65536 * 32768) by (nonlinear_arith)
            requires
                0 <= u <= 65536,
                1 <= dim <= 32768,
        ;
    }
    let t = u * (dim as i64) - FX_HALF;
    let q = fdiv64(t, FX_ONE);
    proof {
        vstd::arithmetic::div_mod::lemma_fundamental_div_mod(t as int, FX_ONE as int);
        vstd::arithmetic::div_mod::lemma_mod_bound(t as int, FX_ONE as int);
        assert(q >= -1) by {
            assert(t >= -FX_HALF);
            assert((t as int) / (FX_ONE as int) >= -1) by (nonlinear_arith)
                requires
                    t == 65536 * (t / 65536) + t % 65536,
                    0 <= t % 65536 < 65536,
                    t >= -32768,
            ;
        }
        assert(q < dim) by {
            assert(t < dim * (FX_ONE as int)) by (nonlinear_arith)
                requires
                    u <= 65536,
                    t == u * dim - 32768,
                    dim >= 1,
            ;
            assert((t as int) / (FX_ONE as int) < dim) by (nonlinear_arith)
                requires
                    t == 65536 * (t / 65536) + t % 65536,
                    0 <= t % 65536 < 65536,
                    t < dim * 65536,
            ;
        }
    }
    let frac = t - q * FX_ONE;
    proof {
        assert(q * (FX_ONE as int) == (FX_ONE as int) * q) by (nonlinear_arith);
    }
    let i0 = if q < 0 {
        0
    } else {
        q as usize
    };
    let i1 = if q + 1 < 0 {
        0
    } else if (q + 1) as usize >= dim {
        dim - 1
    } else {
        (q + 1) as usize
    };
    (i0, i1, frac)
}

/// One bilinear term: a channel scaled by two weights.
fn weighted(c: u8, a: i64, b: i64) -> (r: i64)
    requires
        0 <= a <= FX_ONE,
        0 <= b <= FX_ONE,
    ensures
        r == c as int * a * b,
        0 <= r <= 255 * FX_ONE as int * FX_ONE as int,
{
    proof {
        assert(0 <= (c as int) * a && (c as int) * a <= 255 * 65536) by (nonlinear_arith)
            requires
                0 <= c <= 255,
                0 <= a <= 65536,
        ;
        assert(0 <= (c as int) * a * b && (c as int) * a * b <= 255 * 65536 * 65536)
            by (nonlinear_arith)
            requires
                0 <= (c as int) * a <= 255 * 65536,
                0 <= b <= 65536,
        ;
    }
    (c as i64) * a * b
}

/// One channel bilinearly interpolated between four texels, weighted
/// by the fractional offsets and rounded to the nearest channel value.
pub open spec fn spec_bilinear_channel(
    c00: int,
    c10: int,
    c01: int,
    c11: int,
    fu: int,
    fv: int,
) -> int {
    let one = FX_ONE as int;
    spec_rdiv(
        c00 * (one - fu) * (one - fv) + c10 * fu * (one - fv) + c01 * (one - fu) * fv + c11 * fu
            * fv,
        one * one,
    )
}

/// Bilinear interpolation of one channel.
fn bilinear_channel(c00: u8, c10: u8, c01: u8, c11: u8, fu: i64, fv: i64) -> (r: u8)
    requires
        0 <= fu < FX_ONE,
        0 <= fv < FX_ONE,
    ensures
        r == spec_bilinear_channel(c00 as int, c10 as int, c01 as int, c11 as int, fu as int, fv as int),
{
    let wu0 = FX_ONE - fu;
    let wv0 = FX_ONE - fv;
    let num = weighted(c00, wu0, wv0) + weighted(c10, fu, wv0) + weighted(c01, wu0, fv)
        + weighted(c11, fu, fv);
    proof {
        assert(num <= 255 * 65536 * 65536) by (nonlinear_arith)
            requires
                num == c00 as int * wu0 * wv0 + c10 as int * fu * wv0 + c01 as int * wu0 * fv
                    + c11 as int * fu * fv,
                0 <= c00 <= 255,
                0 <= c10 <= 255,
                0 <= c01 <= 255,
                0 <= c11 <= 255,
                0 <= fu,
                0 <= fv,
                wu0 == 65536 - fu,
                wv0 == 65536 - fv,
                0 <= wu0,
                0 <= wv0,
        ;
    }
    let denom: i64 = FX_ONE * FX_ONE;
    let r = (num + denom / 2) / denom;
    r as u8
}

/// The color of the texel at `(x, y)`.
pub open spec fn spec_texel(t: TexView, x: int, y: int) -> Color {
    spec_unpack(t.pixels[spec_pixel_index(x, y, t.width)])
}

/// Nearest-texel sampling of wrapped coordinates: the stored texel
/// whose span contains the coordinate, exactly.
pub open spec fn spec_sample_nearest(t: TexView, wu: int, wv: int) -> Color {
    spec_texel(t, spec_nearest_index(wu, t.width), spec_nearest_index(wv, t.height))
}

/// Bilinear sampling of wrapped coordinates: the four texels around
/// the coordinate blended channel-wise by its fractional offsets.
pub open spec fn spec_sample_linear(t: TexView, wu: int, wv: int) -> Color {
    let i0 = spec_linear_i0(wu, t.width);
    let i1 = spec_linear_i1(wu, t.width);
    let j0 = spec_linear_i0(wv, t.height);
    let j1 = spec_linear_i1(wv, t.height);
    let fu = spec_linear_frac(wu, t.width);
    let fv = spec_linear_frac(wv, t.height);
    let c00 = spec_texel(t, i0, j0);
    let c10 = spec_texel(t, i1, j0);
    let c01 = spec_texel(t, i0, j1);
    let c11 = spec_texel(t, i1, j1);
    Color {
        r: spec_bilinear_channel(
            c00.r as int,
            c10.r as int,
            c01.r as int,
            c11.r as int,
            fu,
            fv,
        ) as u8,
        g: spec_bilinear_channel(
            c00.g as int,
            c10.g as int,
            c01.g as int,
            c11.g as int,
            fu,
            fv,
        ) as u8,
        b: spec_bilinear_channel(
            c00.b as int,
            c10.b as int,
            c01.b as int,
            c11.b as int,
            fu,
            fv,
        ) as u8,
        a: spec_bilinear_channel(
            c00.a as int,
            c10.a as int,
            c01.a as int,
            c11.a as int,
            fu,
            fv,
        ) as u8,
    }
}

/// What sampling a texture returns: the coordinates wrapped by the
/// texture's wrap mode, then read by its magnification filter.
pub open spec fn spec_sample(t: TexView, u: int, v: int) -> Color {
    let wu = spec_wrap(t.options.wrap_mode, u);
    let wv = spec_wrap(t.options.wrap_mode, v);
    match t.options.magnification {
        TextureFilter::Nearest => spec_sample_nearest(t, wu, wv),
        TextureFilter::Linear => spec_sample_linear(t, wu, wv),
    }
}

/// Samples a texture at a fixed-point coordinate pair with the
/// texture's own options.  The strategy is a pure function of the
/// texture's static options, so one selection serves every fragment of
/// a draw item.
pub fn sample(tex: &SoftwareTexture, u: i64, v: i64) -> (c: Color)
    requires
        tex.wf(),
        1 <= tex@.width,
        1 <= tex@.height,
        -UV_MAX <= u <= UV_MAX,
        -UV_MAX <= v <= UV_MAX,
    ensures
        c == spec_sample(tex@, u as int, v as int),
{
    let options = tex.options();
    let wu = wrap(options.wrap_mode, u);
    let wv = wrap(options.wrap_mode, v);
    match options.magnification {
        TextureFilter::Nearest => {
            let x = nearest_index(wu, tex.width());
            let y = nearest_index(wv, tex.height());
            unpack(tex.texel(x, y))
        },
        TextureFilter::Linear => {
            let (i0, i1, fu) = linear_cell(wu, tex.width());
            let (j0, j1, fv) = linear_cell(wv, tex.height());
            let c00 = unpack(tex.texel(i0, j0));
            let c10 = unpack(tex.texel(i1, j0));
            let c01 = unpack(tex.texel(i0, j1));
            let c11 = unpack(tex.texel(i1, j1));
            Color {
                r: bilinear_channel(c00.r, c10.r, c01.r, c11.r, fu, fv),
                g: bilinear_channel(c00.g, c10.g, c01.g, c11.g, fu, fv),
                b: bilinear_channel(c00.b, c10.b, c01.b, c11.b, fu, fv),
                a: bilinear_channel(c00.a, c10.a, c01.a, c11.a, fu, fv),
            }
        },
    }
}

/// Nearest sampling at an exact texel-center coordinate returns the
/// exact stored texel, whatever the wrap mode: the coordinate
/// `(2i + 1) / (2 dim)` lies strictly between zero and one, every wrap
/// mode leaves it unchanged there, and its texel index is exactly `i`.
pub proof fn lemma_nearest_at_texel_center(t: TexView, u: int, v: int, i: int, j: int)
    requires
        t.options.magnification == TextureFilter::Nearest,
        1 <= t.width,
        1 <= t.height,
        0 <= i < t.width,
        0 <= j < t.height,
        u * (2 * t.width) == (2 * i + 1) * FX_ONE,
        v * (2 * t.height) == (2 * j + 1) * FX_ONE,
    ensures
        spec_sample(t, u, v) == spec_texel(t, i, j),
{
    lemma_center_coordinate(u, i, t.width);
    lemma_center_coordinate(v, j, t.height);
}

/// The work of `lemma_nearest_at_texel_center` along one axis: an
/// exact texel-center coordinate is already in `(0, 1)`, is left
/// unchanged by every wrap mode, and selects texel `i`.
proof fn lemma_center_coordinate(u: int, i: int, dim: int)
    requires
        1 <= dim,
        0 <= i < dim,
        u * (2 * dim) == (2 * i + 1) * FX_ONE,
    ensures
        0 < u < FX_ONE,
        forall|mode: TextureWrapMode| spec_wrap(mode, u) == u,
        spec_nearest_index(u, dim) == i,
{
    let one = FX_ONE as int;
    assert(0 < u < 65536) by (nonlinear_arith)
        requires
            u * (2 * dim) == (2 * i + 1) * 65536,
            0 <= i < dim,
            1 <= dim,
    ;
    assert forall|mode: TextureWrapMode| spec_wrap(mode, u) == u by {
        vstd::arithmetic::div_mod::lemma_small_mod(u as nat, one as nat);
        vstd::arithmetic::div_mod::lemma_small_mod(u as nat, (2 * one) as nat);
    }
    assert(u * dim == i * 65536 + 32768) by (nonlinear_arith)
        requires
            u * (2 * dim) == (2 * i + 1) * 65536,
    ;
    vstd::arithmetic::div_mod::lemma_fundamental_div_mod_converse(u * dim, one, i, 32768);
    assert(spec_nearest_index(u, dim) == i);
}

/// Repeat wrapping is periodic with period one: a coordinate one
/// period up samples exactly the same texel, so repeat wrapping at
/// `1 + e` equals repeat wrapping at `e`.
pub proof fn lemma_repeat_periodic(t: TexView, u: int, v: int)
    requires
        t.options.wrap_mode == TextureWrapMode::Repeat,
    ensures
        spec_wrap(TextureWrapMode::Repeat, u + FX_ONE) == spec_wrap(TextureWrapMode::Repeat, u),
        spec_sample(t, u + FX_ONE, v) == spec_sample(t, u, v),
{
    vstd::arithmetic::div_mod::lemma_mod_add_multiples_vanish(u, FX_ONE as int);
}

} // verus!
