//! The per-mesh rasterization pipeline.
//!
//! The vertex stage projects UI-space positions into normalized device
//! coordinates (`ndc = 2 * pos / screen_size - 1`, with the y axis
//! flipped so that screen-space y-down maps to NDC y-up).  Each
//! triangle of the indexed mesh is then scan-converted: a pixel is
//! covered when its center carries barycentric coordinates of one sign
//! (both winding orders are rendered, nothing is culled).  Vertex
//! color and texture coordinates are interpolated barycentrically,
//! the fragment color is the interpolated color times the sampled
//! texture color, and the fragment is composited into the color target
//! with the premultiplied-alpha "over" operator.  The color target is
//! a scissor wrapper, so writes outside the draw item's clip rectangle
//! are dropped; the depth buffer is threaded through for interface
//! fidelity, but all geometry is flat (z = 0) against a far plane of
//! one, so the depth test always passes and draw order alone decides
//! paint order.

use vstd::prelude::*;

use crate::color::{
    blend_over, pack, spec_blend_over, spec_pack, spec_tint, spec_unpack, tint, unpack, Color,
};
use crate::fx::{lemma_tdiv_bound, mul_i64_wide, spec_tdiv, tdiv128, tdiv64, FX_HALF, FX_ONE};
use crate::sampler::{sample, spec_sample};
use crate::scissor::{
    lemma_area_small, lemma_pixel_index, spec_clamp, spec_in_rect, spec_pixel_index, FrameBuffer,
    Scissor, MAX_DIM,
};
use crate::scissor::ClipRect;
use crate::texture::{SoftwareTexture, TexView, TextureId};

verus! {

/// Largest magnitude of a vertex position accepted by the pipeline:
/// 4096 UI points on either side of the origin.
pub const POS_MAX: i64 = 0x10000000;

/// Largest magnitude of a vertex texture coordinate: sixteen texture
/// widths on either side, ample for the `[0, 1]` range of UI meshes.
pub const UV_IN_MAX: i64 = 0x100000;

/// Interpolated texture coordinates are saturated to this magnitude.
pub const UV_CLAMP: i64 = 0x200000;

/// Smallest screen extent in UI points the pipeline accepts, as fixed
/// point: one device pixel at the largest pixel ratio.
pub const PTS_MIN: i64 = 0x1000;

/// Largest screen extent in UI points, as fixed point.
pub const PTS_MAX: i64 = 0x800000000;

/// Largest magnitude of a normalized device coordinate, as fixed
/// point, given the position and screen bounds.
pub const NDC_MAX: i64 = 0x400000000;

/// Largest magnitude of a device-pixel coordinate, as fixed point.
pub const DEVICE_MAX: i64 = 0x2000000000000;

/// Largest magnitude of an argument to the edge function.
const EDGE_ARG_MAX: i64 = 0x4000000000000;

/// Largest magnitude of an edge function value.
const EDGE_MAX: i128 = 0x80000000000000000000000000;

/// One vertex of a mesh: a UI-space position, a texture coordinate,
/// and a straight-alpha tint color, all interpolable.
#[derive(Clone, Copy, Debug, PartialEq, Eq, Structural)]
pub struct Vertex {
    pub pos_x_fx: i64,
    pub pos_y_fx: i64,
    pub u_fx: i64,
    pub v_fx: i64,
    pub color: Color,
}

impl Vertex {
    /// The vertex stays within the machine limits of the pipeline.
    pub open spec fn wf(&self) -> bool {
        &&& -POS_MAX <= self.pos_x_fx <= POS_MAX
        &&& -POS_MAX <= self.pos_y_fx <= POS_MAX
        &&& -UV_IN_MAX <= self.u_fx <= UV_IN_MAX
        &&& -UV_IN_MAX <= self.v_fx <= UV_IN_MAX
    }
}

/// The static per-frame quantities rasterization depends on: the
/// target size in device pixels, the screen size in UI points, and the
/// scissor rectangle of the draw item.
pub struct RenderCtx {
    pub w_px: int,
    pub h_px: int,
    pub w_pts_fx: int,
    pub h_pts_fx: int,
    pub sx: int,
    pub sy: int,
    pub sw: int,
    pub sh: int,
}

/// The context a scissor-wrapped target and a screen size in points
/// describe.
pub open spec fn spec_ctx_of(s: Scissor<FrameBuffer>, w_pts_fx: int, h_pts_fx: int) -> RenderCtx {
    RenderCtx {
        w_px: s.inner.spec_width(),
        h_px: s.inner.spec_height(),
        w_pts_fx: w_pts_fx,
        h_pts_fx: h_pts_fx,
        sx: s.x as int,
        sy: s.y as int,
        sw: s.width as int,
        sh: s.height as int,
    }
}

/// The x axis of the vertex stage: `ndc = 2 * pos / screen_size - 1`.
pub open spec fn spec_ndc_x(pos_fx: int, w_pts_fx: int) -> int {
    spec_tdiv(2 * pos_fx * FX_ONE, w_pts_fx) - FX_ONE
}

/// The y axis of the vertex stage, sign flipped: screen-space y grows
/// downward, NDC y grows upward.
pub open spec fn spec_ndc_y(pos_fx: int, h_pts_fx: int) -> int {
    FX_ONE - spec_tdiv(2 * pos_fx * FX_ONE, h_pts_fx)
}

/// Converts a UI-space position to normalized device coordinates.
pub fn egui_coord_to_ndc(
    pos_x_fx: i64,
    pos_y_fx: i64,
    screen_w_pts_fx: i64,
    screen_h_pts_fx: i64,
) -> (ndc: (i64, i64))
    requires
        -POS_MAX <= pos_x_fx <= POS_MAX,
        -POS_MAX <= pos_y_fx <= POS_MAX,
        PTS_MIN <= screen_w_pts_fx <= PTS_MAX,
        PTS_MIN <= screen_h_pts_fx <= PTS_MAX,
    ensures
        ndc.0 == spec_ndc_x(pos_x_fx as int, screen_w_pts_fx as int),
        ndc.1 == spec_ndc_y(pos_y_fx as int, screen_h_pts_fx as int),
        -NDC_MAX <= ndc.0 <= NDC_MAX,
        -NDC_MAX <= ndc.1 <= NDC_MAX,
{
    let nx: i64 = 2 * pos_x_fx * FX_ONE;
    let ny: i64 = 2 * pos_y_fx * FX_ONE;
    proof {
        assert(0x200000000 * (screen_w_pts_fx as int) >= 0x200000000 * 0x1000);
        assert(0x200000000 * (screen_h_pts_fx as int) >= 0x200000000 * 0x1000);
        lemma_tdiv_bound(nx as int, screen_w_pts_fx as int, 0x200000000);
        lemma_tdiv_bound(ny as int, screen_h_pts_fx as int, 0x200000000);
    }
    let qx = tdiv64(nx, screen_w_pts_fx);
    let qy = tdiv64(ny, screen_h_pts_fx);
    (qx - FX_ONE, FX_ONE - qy)
}

/// The device-pixel x coordinate of a vertex, as fixed point: the NDC
/// interval `[-1, 1]` mapped over the screen width.
pub open spec fn spec_device_x(pos_fx: int, ctx: RenderCtx) -> int {
    spec_tdiv((spec_ndc_x(pos_fx, ctx.w_pts_fx) + FX_ONE) * ctx.w_px, 2)
}

/// The device-pixel y coordinate of a vertex, as fixed point: NDC y
/// mapped back to a y-down pixel row.
pub open spec fn spec_device_y(pos_fx: int, ctx: RenderCtx) -> int {
    spec_tdiv((FX_ONE - spec_ndc_y(pos_fx, ctx.h_pts_fx)) * ctx.h_px, 2)
}

/// Maps an NDC coordinate over a screen extent in pixels.
fn viewport(ndc_plus_one: i64, dim_px: usize) -> (d: i64)
    requires
        -2 * NDC_MAX <= ndc_plus_one <= 2 * NDC_MAX,
        dim_px <= MAX_DIM,
    ensures
        d == spec_tdiv(ndc_plus_one as int * dim_px as int, 2),
        -DEVICE_MAX <= d <= DEVICE_MAX,
{
    proof {
        assert(-0x4000000000000 <= (ndc_plus_one as int) * (dim_px as int)
            <= 0x4000000000000) by (nonlinear_arith)
            requires
                -0x800000000 <= ndc_plus_one <= 0x800000000,
                0 <= dim_px <= 32768,
        ;
        lemma_tdiv_bound((ndc_plus_one as int) * (dim_px as int), 2, DEVICE_MAX as int);
    }
    tdiv64(ndc_plus_one * (dim_px as i64), 2)
}

/// The edge function: the cross product that tells on which side of
/// the directed line from `a` to `b` the point `p` lies.
pub open spec fn spec_edge(ax: int, ay: int, bx: int, by: int, px: int, py: int) -> int {
    (bx - ax) * (py - ay) - (by - ay) * (px - ax)
}

/// Evaluates the edge function.
fn edge_fx(ax: i64, ay: i64, bx: i64, by: i64, px: i64, py: i64) -> (e: i128)
    requires
        -EDGE_ARG_MAX <= ax <= EDGE_ARG_MAX,
        -EDGE_ARG_MAX <= ay <= EDGE_ARG_MAX,
        -EDGE_ARG_MAX <= bx <= EDGE_ARG_MAX,
        -EDGE_ARG_MAX <= by <= EDGE_ARG_MAX,
        -EDGE_ARG_MAX <= px <= EDGE_ARG_MAX,
        -EDGE_ARG_MAX <= py <= EDGE_ARG_MAX,
    ensures
        e == spec_edge(ax as int, ay as int, bx as int, by as int, px as int, py as int),
        -EDGE_MAX <= e <= EDGE_MAX,
{
    let p1 = mul_i64_wide(bx - ax, py - ay);
    let p2 = mul_i64_wide(by - ay, px - ax);
    proof {
        assert(-0x40000000000000000000000000 <= (bx - ax) as int * (py - ay) as int
            <= 0x40000000000000000000000000) by (nonlinear_arith)
            requires
                -0x8000000000000 <= (bx - ax) as int <= 0x8000000000000,
                -0x8000000000000 <= (py - ay) as int <= 0x8000000000000,
        ;
        assert(-0x40000000000000000000000000 <= (by - ay) as int * (px - ax) as int
            <= 0x40000000000000000000000000) by (nonlinear_arith)
            requires
                -0x8000000000000 <= (by - ay) as int <= 0x8000000000000,
                -0x8000000000000 <= (px - ax) as int <= 0x8000000000000,
        ;
    }
    p1 - p2
}

/// Is a pixel center with these edge values covered by the triangle?
/// A degenerate triangle covers nothing; otherwise the three edge
/// values must agree in sign, whichever sign, so that both winding
/// orders render.
pub open spec fn spec_covered(e0: int, e1: int, e2: int, area: int) -> bool {
    area != 0 && ((e0 >= 0 && e1 >= 0 && e2 >= 0) || (e0 <= 0 && e1 <= 0 && e2 <= 0))
}

/// Barycentric interpolation of one attribute, truncated and then
/// saturated into `[lo, hi]`.
pub open spec fn spec_interp(
    w0: int,
    w1: int,
    w2: int,
    denom: int,
    a0: int,
    a1: int,
    a2: int,
    lo: int,
    hi: int,
) -> int {
    spec_clamp(spec_tdiv(w0 * a0 + w1 * a1 + w2 * a2, denom), lo, hi)
}

/// Barycentric interpolation of one attribute.
fn interp_attr(
    w0: i128,
    w1: i128,
    w2: i128,
    denom: i128,
    a0: i64,
    a1: i64,
    a2: i64,
    lo: i64,
    hi: i64,
) -> (r: i64)
    requires
        denom > 0,
        -EDGE_MAX <= w0 <= EDGE_MAX,
        -EDGE_MAX <= w1 <= EDGE_MAX,
        -EDGE_MAX <= w2 <= EDGE_MAX,
        -UV_CLAMP <= a0 <= UV_CLAMP,
        -UV_CLAMP <= a1 <= UV_CLAMP,
        -UV_CLAMP <= a2 <= UV_CLAMP,
        lo <= hi,
    ensures
        r == spec_interp(
            w0 as int,
            w1 as int,
            w2 as int,
            denom as int,
            a0 as int,
            a1 as int,
            a2 as int,
            lo as int,
            hi as int,
        ),
        lo <= r <= hi,
{
    proof {
        assert(-0x10000000000000000000000000000000 <= w0 * (a0 as i128)
            <= 0x10000000000000000000000000000000) by (nonlinear_arith)
            requires
                -0x80000000000000000000000000 <= w0 <= 0x80000000000000000000000000,
                -0x200000 <= a0 <= 0x200000,
        ;
        assert(-0x10000000000000000000000000000000 <= w1 * (a1 as i128)
            <= 0x10000000000000000000000000000000) by (nonlinear_arith)
            requires
                -0x80000000000000000000000000 <= w1 <= 0x80000000000000000000000000,
                -0x200000 <= a1 <= 0x200000,
        ;
        assert(-0x10000000000000000000000000000000 <= w2 * (a2 as i128)
            <= 0x10000000000000000000000000000000) by (nonlinear_arith)
            requires
                -0x80000000000000000000000000 <= w2 <= 0x80000000000000000000000000,
                -0x200000 <= a2 <= 0x200000,
        ;
    }
    let num = w0 * (a0 as i128) + w1 * (a1 as i128) + w2 * (a2 as i128);
    let q = tdiv128(num, denom);
    if q < lo as i128 {
        lo
    } else if q > hi as i128 {
        hi
    } else {
        q as i64
    }
}

/// The three edge values of any point sum to the triangle's area: the
/// barycentric weights form a partition, so interpolation is affine.
pub proof fn lemma_edges_sum_to_area(
    d0x: int,
    d0y: int,
    d1x: int,
    d1y: int,
    d2x: int,
    d2y: int,
    px: int,
    py: int,
)
    ensures
        spec_edge(d1x, d1y, d2x, d2y, px, py) + spec_edge(d2x, d2y, d0x, d0y, px, py) + spec_edge(
            d0x,
            d0y,
            d1x,
            d1y,
            px,
            py,
        ) == spec_edge(d0x, d0y, d1x, d1y, d2x, d2y),
{
    let ax = d1x - d0x;
    let ay = d1y - d0y;
    let bx = d2x - d0x;
    let by = d2y - d0y;
    let qx = px - d0x;
    let qy = py - d0y;
    lemma_sum_of_edges(ax, ay, bx, by, qx, qy);
    assert(bx - ax == d2x - d1x);
    assert(by - ay == d2y - d1y);
    assert(qx - ax == px - d1x);
    assert(qy - ay == py - d1y);
    assert((bx - ax) * (qy - ay) == (d2x - d1x) * (py - d1y));
    assert((by - ay) * (qx - ax) == (d2y - d1y) * (px - d1x));
    assert(by * qx - bx * qy == (d0x - d2x) * (py - d2y) - (d0y - d2y) * (px - d2x))
        by (nonlinear_arith)
        requires
            bx == d2x - d0x,
            by == d2y - d0y,
            qx == px - d0x,
            qy == py - d0y,
    ;
    assert(ax * qy - ay * qx == (d1x - d0x) * (py - d0y) - (d1y - d0y) * (px - d0x))
        by (nonlinear_arith)
        requires
            ax == d1x - d0x,
            ay == d1y - d0y,
            qx == px - d0x,
            qy == py - d0y,
    ;
}

/// The edge-sum identity in a frame whose origin is the first vertex:
/// `a` and `b` are the other two vertices, `q` the queried point.
proof fn lemma_sum_of_edges(ax: int, ay: int, bx: int, by: int, qx: int, qy: int)
    ensures
        (bx - ax) * (qy - ay) - (by - ay) * (qx - ax) + (by * qx - bx * qy) + (ax * qy - ay * qx)
            == ax * by - ay * bx,
{
    assert((bx - ax) * (qy - ay) - (by - ay) * (qx - ax) + (by * qx - bx * qy) + (ax * qy - ay
        * qx) == ax * by - ay * bx) by (nonlinear_arith);
}

/// Barycentric interpolation of a constant attribute returns that
/// constant, saturated into the given range: the weights sum to the
/// denominator, so a flat attribute stays flat across the triangle.
pub proof fn lemma_interp_constant(w0: int, w1: int, w2: int, denom: int, a: int, lo: int, hi: int)
    requires
        denom > 0,
        w0 + w1 + w2 == denom,
    ensures
        spec_interp(w0, w1, w2, denom, a, a, a, lo, hi) == spec_clamp(a, lo, hi),
{
    assert(w0 * a + w1 * a + w2 * a == denom * a) by (nonlinear_arith)
        requires
            w0 + w1 + w2 == denom,
    ;
    if a >= 0 {
        vstd::arithmetic::div_mod::lemma_div_multiples_vanish(a, denom);
        assert(denom * a >= 0) by (nonlinear_arith)
            requires
                denom > 0,
                a >= 0,
        ;
    } else {
        vstd::arithmetic::div_mod::lemma_div_multiples_vanish(-a, denom);
        assert(denom * a < 0) by (nonlinear_arith)
            requires
                denom > 0,
                a < 0,
        ;
        assert(-(denom * a) == denom * (-a)) by (nonlinear_arith);
    }
}

/// The fragment color at a covered pixel: the barycentrically
/// interpolated vertex color times the texture sampled at the
/// interpolated texture coordinate, channel-wise, alpha included.
pub open spec fn spec_fragment(
    v0: Vertex,
    v1: Vertex,
    v2: Vertex,
    w0: int,
    w1: int,
    w2: int,
    denom: int,
    t: TexView,
) -> Color {
    let u = spec_interp(
        w0,
        w1,
        w2,
        denom,
        v0.u_fx as int,
        v1.u_fx as int,
        v2.u_fx as int,
        -UV_CLAMP as int,
        UV_CLAMP as int,
    );
    let v = spec_interp(
        w0,
        w1,
        w2,
        denom,
        v0.v_fx as int,
        v1.v_fx as int,
        v2.v_fx as int,
        -UV_CLAMP as int,
        UV_CLAMP as int,
    );
    let tint_color = Color {
        r: spec_interp(
            w0,
            w1,
            w2,
            denom,
            v0.color.r as int,
            v1.color.r as int,
            v2.color.r as int,
            0,
            255,
        ) as u8,
        g: spec_interp(
            w0,
            w1,
            w2,
            denom,
            v0.color.g as int,
            v1.color.g as int,
            v2.color.g as int,
            0,
            255,
        ) as u8,
        b: spec_interp(
            w0,
            w1,
            w2,
            denom,
            v0.color.b as int,
            v1.color.b as int,
            v2.color.b as int,
            0,
            255,
        ) as u8,
        a: spec_interp(
            w0,
            w1,
            w2,
            denom,
            v0.color.a as int,
            v1.color.a as int,
            v2.color.a as int,
            0,
            255,
        ) as u8,
    };
    spec_tint(tint_color, spec_sample(t, u, v))
}

/// Evaluates the fragment color at a covered pixel.
fn fragment(
    v0: Vertex,
    v1: Vertex,
    v2: Vertex,
    w0: i128,
    w1: i128,
    w2: i128,
    denom: i128,
    tex: &SoftwareTexture,
) -> (c: Color)
    requires
        denom > 0,
        -EDGE_MAX <= w0 <= EDGE_MAX,
        -EDGE_MAX <= w1 <= EDGE_MAX,
        -EDGE_MAX <= w2 <= EDGE_MAX,
        v0.wf(),
        v1.wf(),
        v2.wf(),
        tex.wf(),
        1 <= tex@.width,
        1 <= tex@.height,
    ensures
        c == spec_fragment(v0, v1, v2, w0 as int, w1 as int, w2 as int, denom as int, tex@),
{
    let u = interp_attr(w0, w1, w2, denom, v0.u_fx, v1.u_fx, v2.u_fx, -UV_CLAMP, UV_CLAMP);
    let v = interp_attr(w0, w1, w2, denom, v0.v_fx, v1.v_fx, v2.v_fx, -UV_CLAMP, UV_CLAMP);
    let r = interp_attr(
        w0,
        w1,
        w2,
        denom,
        v0.color.r as i64,
        v1.color.r as i64,
        v2.color.r as i64,
        0,
        255,
    );
    let g = interp_attr(
        w0,
        w1,
        w2,
        denom,
        v0.color.g as i64,
        v1.color.g as i64,
        v2.color.g as i64,
        0,
        255,
    );
    let b = interp_attr(
        w0,
        w1,
        w2,
        denom,
        v0.color.b as i64,
        v1.color.b as i64,
        v2.color.b as i64,
        0,
        255,
    );
    let a = interp_attr(
        w0,
        w1,
        w2,
        denom,
        v0.color.a as i64,
        v1.color.a as i64,
        v2.color.a as i64,
        0,
        255,
    );
    let tint_color = Color { r: r as u8, g: g as u8, b: b as u8, a: a as u8 };
    let sampled = sample(tex, u, v);
    tint(tint_color, sampled)
}

/// The value of one color pixel after a triangle pass: covered pixels
/// inside the scissor rectangle are composited over, all others keep
/// their value.
pub open spec fn spec_pixel_shaded(
    pix: u32,
    x: int,
    y: int,
    v0: Vertex,
    v1: Vertex,
    v2: Vertex,
    t: TexView,
    ctx: RenderCtx,
) -> u32 {
    let d0x = spec_device_x(v0.pos_x_fx as int, ctx);
    let d0y = spec_device_y(v0.pos_y_fx as int, ctx);
    let d1x = spec_device_x(v1.pos_x_fx as int, ctx);
    let d1y = spec_device_y(v1.pos_y_fx as int, ctx);
    let d2x = spec_device_x(v2.pos_x_fx as int, ctx);
    let d2y = spec_device_y(v2.pos_y_fx as int, ctx);
    let pcx = x * FX_ONE + FX_HALF;
    let pcy = y * FX_ONE + FX_HALF;
    let e0 = spec_edge(d1x, d1y, d2x, d2y, pcx, pcy);
    let e1 = spec_edge(d2x, d2y, d0x, d0y, pcx, pcy);
    let e2 = spec_edge(d0x, d0y, d1x, d1y, pcx, pcy);
    let area = spec_edge(d0x, d0y, d1x, d1y, d2x, d2y);
    if spec_covered(e0, e1, e2, area) && spec_in_rect(x, y, ctx.sx, ctx.sy, ctx.sw, ctx.sh) {
        let w0 = if area >= 0 { e0 } else { -e0 };
        let w1 = if area >= 0 { e1 } else { -e1 };
        let w2 = if area >= 0 { e2 } else { -e2 };
        let denom = if area >= 0 { area } else { -area };
        spec_pack(
            spec_blend_over(spec_unpack(pix), spec_fragment(v0, v1, v2, w0, w1, w2, denom, t)),
        )
    } else {
        pix
    }
}

/// Is the pixel `(x, y)` covered by the triangle?
pub open spec fn spec_covered_at(
    x: int,
    y: int,
    v0: Vertex,
    v1: Vertex,
    v2: Vertex,
    ctx: RenderCtx,
) -> bool {
    let d0x = spec_device_x(v0.pos_x_fx as int, ctx);
    let d0y = spec_device_y(v0.pos_y_fx as int, ctx);
    let d1x = spec_device_x(v1.pos_x_fx as int, ctx);
    let d1y = spec_device_y(v1.pos_y_fx as int, ctx);
    let d2x = spec_device_x(v2.pos_x_fx as int, ctx);
    let d2y = spec_device_y(v2.pos_y_fx as int, ctx);
    let pcx = x * FX_ONE + FX_HALF;
    let pcy = y * FX_ONE + FX_HALF;
    let e0 = spec_edge(d1x, d1y, d2x, d2y, pcx, pcy);
    let e1 = spec_edge(d2x, d2y, d0x, d0y, pcx, pcy);
    let e2 = spec_edge(d0x, d0y, d1x, d1y, pcx, pcy);
    let area = spec_edge(d0x, d0y, d1x, d1y, d2x, d2y);
    spec_covered(e0, e1, e2, area)
}

/// The color buffer after one triangle pass.
pub open spec fn spec_raster_tri(
    fb: Seq<u32>,
    v0: Vertex,
    v1: Vertex,
    v2: Vertex,
    t: TexView,
    ctx: RenderCtx,
) -> Seq<u32> {
    Seq::new(
        fb.len(),
        |i: int| spec_pixel_shaded(fb[i], i % ctx.w_px, i / ctx.w_px, v0, v1, v2, t, ctx),
    )
}

/// The color buffer after the first `k` pixels of a triangle pass, in
/// row-major order.
pub open spec fn spec_raster_tri_upto(
    fb: Seq<u32>,
    v0: Vertex,
    v1: Vertex,
    v2: Vertex,
    t: TexView,
    ctx: RenderCtx,
    k: int,
) -> Seq<u32> {
    Seq::new(
        fb.len(),
        |i: int|
            if i < k {
                spec_pixel_shaded(fb[i], i % ctx.w_px, i / ctx.w_px, v0, v1, v2, t, ctx)
            } else {
                fb[i]
            },
    )
}

/// The depth buffer after one triangle pass: all geometry is flat, so
/// every covered pixel takes depth zero.  The scissor rectangle wraps
/// only the color target, so depth writes are not clipped by it.
pub open spec fn spec_raster_tri_depth(
    depth: Seq<u32>,
    v0: Vertex,
    v1: Vertex,
    v2: Vertex,
    ctx: RenderCtx,
) -> Seq<u32> {
    Seq::new(
        depth.len(),
        |i: int|
            if spec_covered_at(i % ctx.w_px, i / ctx.w_px, v0, v1, v2, ctx) {
                0u32
            } else {
                depth[i]
            },
    )
}

/// The depth buffer after the first `k` pixels of a triangle pass.
pub open spec fn spec_raster_tri_depth_upto(
    depth: Seq<u32>,
    v0: Vertex,
    v1: Vertex,
    v2: Vertex,
    ctx: RenderCtx,
    k: int,
) -> Seq<u32> {
    Seq::new(
        depth.len(),
        |i: int|
            if i < k && spec_covered_at(i % ctx.w_px, i / ctx.w_px, v0, v1, v2, ctx) {
                0u32
            } else {
                depth[i]
            },
    )
}

/// Processing the pixel `(x, y)` advances both buffers' pixel prefix
/// by one.
proof fn lemma_raster_step(
    fb: Seq<u32>,
    depth: Seq<u32>,
    v0: Vertex,
    v1: Vertex,
    v2: Vertex,
    t: TexView,
    ctx: RenderCtx,
    x: int,
    y: int,
)
    requires
        fb.len() == ctx.w_px * ctx.h_px,
        depth.len() == ctx.w_px * ctx.h_px,
        0 <= x < ctx.w_px,
        0 <= y < ctx.h_px,
    ensures
        ({
            let k = spec_pixel_index(x, y, ctx.w_px);
            let covered = spec_covered_at(x, y, v0, v1, v2, ctx);
            let in_rect = spec_in_rect(x, y, ctx.sx, ctx.sy, ctx.sw, ctx.sh);
            &&& (covered && in_rect) ==> spec_raster_tri_upto(fb, v0, v1, v2, t, ctx, k).update(
                k,
                spec_pixel_shaded(fb[k], x, y, v0, v1, v2, t, ctx),
            ) =~= spec_raster_tri_upto(fb, v0, v1, v2, t, ctx, k + 1)
            &&& !(covered && in_rect) ==> spec_raster_tri_upto(fb, v0, v1, v2, t, ctx, k)
                =~= spec_raster_tri_upto(fb, v0, v1, v2, t, ctx, k + 1)
            &&& covered ==> spec_raster_tri_depth_upto(depth, v0, v1, v2, ctx, k).update(
                k,
                0u32,
            ) =~= spec_raster_tri_depth_upto(depth, v0, v1, v2, ctx, k + 1)
            &&& !covered ==> spec_raster_tri_depth_upto(depth, v0, v1, v2, ctx, k)
                =~= spec_raster_tri_depth_upto(depth, v0, v1, v2, ctx, k + 1)
        }),
{
    lemma_pixel_index(x, y, ctx.w_px, ctx.h_px);
}

/// A full pass over the target equals the triangle's pixel map.
proof fn lemma_raster_done(
    fb: Seq<u32>,
    depth: Seq<u32>,
    v0: Vertex,
    v1: Vertex,
    v2: Vertex,
    t: TexView,
    ctx: RenderCtx,
)
    requires
        fb.len() == ctx.w_px * ctx.h_px,
        depth.len() == ctx.w_px * ctx.h_px,
        ctx.h_px >= 0,
        ctx.w_px >= 0,
    ensures
        spec_raster_tri_upto(fb, v0, v1, v2, t, ctx, ctx.h_px * ctx.w_px) =~= spec_raster_tri(
            fb,
            v0,
            v1,
            v2,
            t,
            ctx,
        ),
        spec_raster_tri_depth_upto(depth, v0, v1, v2, ctx, ctx.h_px * ctx.w_px)
            =~= spec_raster_tri_depth(depth, v0, v1, v2, ctx),
{
    assert(ctx.h_px * ctx.w_px == ctx.w_px * ctx.h_px) by (nonlinear_arith);
}

/// Scan-converts one triangle into the scissor-wrapped color target
/// and the depth buffer.
#[verifier::loop_isolation(false)]
pub fn render_triangle(
    color: &mut Scissor<FrameBuffer>,
    depth: &mut FrameBuffer,
    v0: Vertex,
    v1: Vertex,
    v2: Vertex,
    tex: &SoftwareTexture,
    screen_w_pts_fx: i64,
    screen_h_pts_fx: i64,
)
    requires
        old(color).inner.wf(),
        old(depth).wf(),
        old(depth).spec_width() == old(color).inner.spec_width(),
        old(depth).spec_height() == old(color).inner.spec_height(),
        old(color).x + old(color).width <= old(color).inner.spec_width(),
        old(color).y + old(color).height <= old(color).inner.spec_height(),
        v0.wf(),
        v1.wf(),
        v2.wf(),
        tex.wf(),
        1 <= tex@.width,
        1 <= tex@.height,
        PTS_MIN <= screen_w_pts_fx <= PTS_MAX,
        PTS_MIN <= screen_h_pts_fx <= PTS_MAX,
    ensures
        final (color).inner.wf(),
        final (color).x == old(color).x,
        final (color).y == old(color).y,
        final (color).width == old(color).width,
        final (color).height == old(color).height,
        final (color).inner.spec_width() == old(color).inner.spec_width(),
        final (color).inner.spec_height() == old(color).inner.spec_height(),
        final (color).inner.view() == spec_raster_tri(
            old(color).inner.view(),
            v0,
            v1,
            v2,
            tex@,
            spec_ctx_of(*old(color), screen_w_pts_fx as int, screen_h_pts_fx as int),
        ),
        final (depth).wf(),
        final (depth).spec_width() == old(depth).spec_width(),
        final (depth).spec_height() == old(depth).spec_height(),
        final (depth).view() == spec_raster_tri_depth(
            old(depth).view(),
            v0,
            v1,
            v2,
            spec_ctx_of(*old(color), screen_w_pts_fx as int, screen_h_pts_fx as int),
        ),
{
    let ghost ctx = spec_ctx_of(*old(color), screen_w_pts_fx as int, screen_h_pts_fx as int);
    let w = color.inner.width();
    let h = color.inner.height();

    // Vertex stage: project the three vertices to device pixels.
    let ndc0 = egui_coord_to_ndc(v0.pos_x_fx, v0.pos_y_fx, screen_w_pts_fx, screen_h_pts_fx);
    let ndc1 = egui_coord_to_ndc(v1.pos_x_fx, v1.pos_y_fx, screen_w_pts_fx, screen_h_pts_fx);
    let ndc2 = egui_coord_to_ndc(v2.pos_x_fx, v2.pos_y_fx, screen_w_pts_fx, screen_h_pts_fx);
    let d0x = viewport(ndc0.0 + FX_ONE, w);
    let d0y = viewport(FX_ONE - ndc0.1, h);
    let d1x = viewport(ndc1.0 + FX_ONE, w);
    let d1y = viewport(FX_ONE - ndc1.1, h);
    let d2x = viewport(ndc2.0 + FX_ONE, w);
    let d2y = viewport(FX_ONE - ndc2.1, h);
    proof {
        assert(d0x == spec_device_x(v0.pos_x_fx as int, ctx));
        assert(d0y == spec_device_y(v0.pos_y_fx as int, ctx));
    }

    let ghost fb0 = color.inner.view();
    let ghost dep0 = depth.view();
    proof {
        assert(fb0 =~= spec_raster_tri_upto(fb0, v0, v1, v2, tex@, ctx, 0));
        assert(dep0 =~= spec_raster_tri_depth_upto(dep0, v0, v1, v2, ctx, 0));
    }

    let mut y: usize = 0;
    while y < h
        invariant
            y <= h,
            color.inner.wf(),
            color.x == old(color).x,
            color.y == old(color).y,
            color.width == old(color).width,
            color.height == old(color).height,
            color.inner.spec_width() == w,
            color.inner.spec_height() == h,
            depth.wf(),
            depth.spec_width() == w,
            depth.spec_height() == h,
            color.inner.view() == spec_raster_tri_upto(fb0, v0, v1, v2, tex@, ctx, y as int
                * w as int),
            depth.view() == spec_raster_tri_depth_upto(dep0, v0, v1, v2, ctx, y as int * w as int),
        decreases h - y,
    {
        let mut x: usize = 0;
        while x < w
            invariant
                x <= w,
                y < h,
                color.inner.wf(),
                color.x == old(color).x,
                color.y == old(color).y,
                color.width == old(color).width,
                color.height == old(color).height,
                color.inner.spec_width() == w,
                color.inner.spec_height() == h,
                depth.wf(),
                depth.spec_width() == w,
                depth.spec_height() == h,
                color.inner.view() == spec_raster_tri_upto(fb0, v0, v1, v2, tex@, ctx, y as int
                    * w as int + x as int),
                depth.view() == spec_raster_tri_depth_upto(dep0, v0, v1, v2, ctx, y as int
                    * w as int + x as int),
            decreases w - x,
        {
            let pcx = (x as i64) * FX_ONE + FX_HALF;
            let pcy = (y as i64) * FX_ONE + FX_HALF;
            let e0 = edge_fx(d1x, d1y, d2x, d2y, pcx, pcy);
            let e1 = edge_fx(d2x, d2y, d0x, d0y, pcx, pcy);
            let e2 = edge_fx(d0x, d0y, d1x, d1y, pcx, pcy);
            let area = edge_fx(d0x, d0y, d1x, d1y, d2x, d2y);
            let ghost k = spec_pixel_index(x as int, y as int, w as int);
            proof {
                lemma_pixel_index(x as int, y as int, w as int, h as int);
                lemma_raster_step(fb0, dep0, v0, v1, v2, tex@, ctx, x as int, y as int);
            }
            let covered = area != 0 && ((e0 >= 0 && e1 >= 0 && e2 >= 0) || (e0 <= 0 && e1 <= 0
                && e2 <= 0));
            if covered {
                depth.write(x, y, 0);
                let (w0, w1, w2, denom) = if area >= 0 {
                    (e0, e1, e2, area)
                } else {
                    (-e0, -e1, -e2, -area)
                };
                let frag = fragment(v0, v1, v2, w0, w1, w2, denom, tex);
                let dst = color.read(x, y);
                let blended = blend_over(unpack(dst), frag);
                color.write(x, y, pack(blended));
            }
            proof {
                assert(color.inner.view() =~= spec_raster_tri_upto(fb0, v0, v1, v2, tex@, ctx, k
                    + 1));
                assert(depth.view() =~= spec_raster_tri_depth_upto(dep0, v0, v1, v2, ctx, k + 1));
            }
            x += 1;
        }
        proof {
            assert(y as int * w as int + w as int == (y as int + 1) * w as int) by (nonlinear_arith);
        }
        y += 1;
    }
    proof {
        lemma_raster_done(fb0, dep0, v0, v1, v2, tex@, ctx);
    }
}

/// An indexed triangle mesh: every consecutive index triple names one
/// triangle, in either winding order.
pub struct Mesh {
    pub texture_id: TextureId,
    pub vertices: Vec<Vertex>,
    pub indices: Vec<u32>,
}

impl Mesh {
    /// The indices name whole triangles of existing vertices, and every
    /// vertex stays within the machine limits of the pipeline.
    pub open spec fn wf(&self) -> bool {
        &&& self.indices@.len() % 3 == 0
        &&& forall|k: int|
            0 <= k < self.indices@.len() ==> self.indices@[k] < self.vertices@.len()
        &&& forall|j: int| 0 <= j < self.vertices@.len() ==> self.vertices@[j].wf()
    }
}

/// One renderable item of a draw list.  Only triangle meshes are
/// handled by this backend; any other primitive kind is skipped.
pub enum Primitive {
    Mesh(Mesh),
    Unsupported,
}

/// A primitive paired with the clip rectangle it must be constrained
/// to, in UI points.
pub struct ClippedPrimitive {
    pub clip_rect: ClipRect,
    pub primitive: Primitive,
}

impl ClippedPrimitive {
    /// The item's mesh, if it has one, is well formed.
    pub open spec fn wf(&self) -> bool {
        match self.primitive {
            Primitive::Mesh(m) => m.wf(),
            Primitive::Unsupported => true,
        }
    }
}

/// Vertex `c` of triangle `j` of an indexed mesh.
pub open spec fn spec_tri_vertex(
    vertices: Seq<Vertex>,
    indices: Seq<u32>,
    j: int,
    c: int,
) -> Vertex {
    vertices[indices[3 * j + c] as int]
}

/// The color buffer after the first `k` triangles of a mesh.
pub open spec fn spec_raster_mesh(
    fb: Seq<u32>,
    vertices: Seq<Vertex>,
    indices: Seq<u32>,
    t: TexView,
    ctx: RenderCtx,
    k: nat,
) -> Seq<u32>
    decreases k,
{
    if k == 0 {
        fb
    } else {
        spec_raster_tri(
            spec_raster_mesh(fb, vertices, indices, t, ctx, (k - 1) as nat),
            spec_tri_vertex(vertices, indices, k - 1, 0),
            spec_tri_vertex(vertices, indices, k - 1, 1),
            spec_tri_vertex(vertices, indices, k - 1, 2),
            t,
            ctx,
        )
    }
}

/// The depth buffer after the first `k` triangles of a mesh.
pub open spec fn spec_raster_mesh_depth(
    depth: Seq<u32>,
    vertices: Seq<Vertex>,
    indices: Seq<u32>,
    ctx: RenderCtx,
    k: nat,
) -> Seq<u32>
    decreases k,
{
    if k == 0 {
        depth
    } else {
        spec_raster_tri_depth(
            spec_raster_mesh_depth(depth, vertices, indices, ctx, (k - 1) as nat),
            spec_tri_vertex(vertices, indices, k - 1, 0),
            spec_tri_vertex(vertices, indices, k - 1, 1),
            spec_tri_vertex(vertices, indices, k - 1, 2),
            ctx,
        )
    }
}

/// Scan-converts every triangle of a mesh, in index order, into the
/// scissor-wrapped color target and the depth buffer.
#[verifier::loop_isolation(false)]
pub fn render_mesh(
    color: &mut Scissor<FrameBuffer>,
    depth: &mut FrameBuffer,
    mesh: &Mesh,
    tex: &SoftwareTexture,
    screen_w_pts_fx: i64,
    screen_h_pts_fx: i64,
)
    requires
        old(color).inner.wf(),
        old(depth).wf(),
        old(depth).spec_width() == old(color).inner.spec_width(),
        old(depth).spec_height() == old(color).inner.spec_height(),
        old(color).x + old(color).width <= old(color).inner.spec_width(),
        old(color).y + old(color).height <= old(color).inner.spec_height(),
        mesh.wf(),
        tex.wf(),
        1 <= tex@.width,
        1 <= tex@.height,
        PTS_MIN <= screen_w_pts_fx <= PTS_MAX,
        PTS_MIN <= screen_h_pts_fx <= PTS_MAX,
    ensures
        final (color).inner.wf(),
        final (color).x == old(color).x,
        final (color).y == old(color).y,
        final (color).width == old(color).width,
        final (color).height == old(color).height,
        final (color).inner.spec_width() == old(color).inner.spec_width(),
        final (color).inner.spec_height() == old(color).inner.spec_height(),
        final (color).inner.view() == spec_raster_mesh(
            old(color).inner.view(),
            mesh.vertices@,
            mesh.indices@,
            tex@,
            spec_ctx_of(*old(color), screen_w_pts_fx as int, screen_h_pts_fx as int),
            (mesh.indices@.len() / 3) as nat,
        ),
        final (depth).wf(),
        final (depth).spec_width() == old(depth).spec_width(),
        final (depth).spec_height() == old(depth).spec_height(),
        final (depth).view() == spec_raster_mesh_depth(
            old(depth).view(),
            mesh.vertices@,
            mesh.indices@,
            spec_ctx_of(*old(color), screen_w_pts_fx as int, screen_h_pts_fx as int),
            (mesh.indices@.len() / 3) as nat,
        ),
{
    let ghost ctx = spec_ctx_of(*old(color), screen_w_pts_fx as int, screen_h_pts_fx as int);
    let ghost fb0 = color.inner.view();
    let ghost dep0 = depth.view();
    let n = mesh.indices.len() / 3;
    let mut t: usize = 0;
    while t < n
        invariant
            t <= n,
            color.inner.wf(),
            color.x == old(color).x,
            color.y == old(color).y,
            color.width == old(color).width,
            color.height == old(color).height,
            color.inner.spec_width() == old(color).inner.spec_width(),
            color.inner.spec_height() == old(color).inner.spec_height(),
            depth.wf(),
            depth.spec_width() == old(depth).spec_width(),
            depth.spec_height() == old(depth).spec_height(),
            color.inner.view() == spec_raster_mesh(
                fb0,
                mesh.vertices@,
                mesh.indices@,
                tex@,
                ctx,
                t as nat,
            ),
            depth.view() == spec_raster_mesh_depth(dep0, mesh.vertices@, mesh.indices@, ctx, t as nat),
        decreases n - t,
    {
        proof {
            assert(3 * (t as int) + 2 < mesh.indices@.len());
        }
        let i0 = mesh.indices[3 * t];
        let i1 = mesh.indices[3 * t + 1];
        let i2 = mesh.indices[3 * t + 2];
        let v0 = mesh.vertices[i0 as usize];
        let v1 = mesh.vertices[i1 as usize];
        let v2 = mesh.vertices[i2 as usize];
        render_triangle(color, depth, v0, v1, v2, tex, screen_w_pts_fx, screen_h_pts_fx);
        t += 1;
    }
}

} // verus!
