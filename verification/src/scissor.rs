//! The pixel target of a frame and the scissor wrapper around it.
//!
//! A [`FrameBuffer`] is a row-major grid of packed pixels.  A
//! [`Scissor`] wraps a target: reads pass through unchanged, while a
//! write is silently dropped when its coordinate falls outside the
//! scissor rectangle (inclusive minimum corner, exclusive maximum).
//! The rectangle is derived once per draw item from a UI-space clip
//! rectangle scaled by the device pixel ratio, rounded to the nearest
//! pixel, and clamped so that it never leaves the screen and never has
//! a negative extent.

use vstd::prelude::*;

use crate::fx::{mul_i64_wide, rdiv128, spec_rdiv, FX_ONE};

verus! {

/// Largest width or height of a frame buffer, in pixels.
pub const MAX_DIM: usize = 32768;

/// A rectangle in UI points, in fixed-point coordinates.
#[derive(Clone, Copy, Debug, PartialEq, Eq, Structural)]
pub struct ClipRect {
    pub min_x_fx: i64,
    pub min_y_fx: i64,
    pub max_x_fx: i64,
    pub max_y_fx: i64,
}

/// A row-major grid of packed pixels.
pub struct FrameBuffer {
    pixels: Vec<u32>,
    width: usize,
    height: usize,
}

/// Position of the pixel `(x, y)` in a row-major grid of width `w`.
pub open spec fn spec_pixel_index(x: int, y: int, w: int) -> int {
    y * w + x
}

/// A pixel index in a row-major grid names one coordinate pair: the
/// index of `(x, y)` lies in range and decomposes back into `x` and
/// `y` by division and remainder.
pub proof fn lemma_pixel_index(x: int, y: int, w: int, h: int)
    requires
        0 <= x < w,
        0 <= y < h,
    ensures
        0 <= spec_pixel_index(x, y, w) < w * h,
        spec_pixel_index(x, y, w) % w == x,
        spec_pixel_index(x, y, w) / w == y,
{
    assert(0 <= y * w + x < w * h) by (nonlinear_arith)
        requires
            0 <= x < w,
            0 <= y < h,
    ;
    assert(y * w + x == w * y + x) by (nonlinear_arith);
    vstd::arithmetic::div_mod::lemma_fundamental_div_mod_converse(y * w + x, w, y, x);
}

/// The area of a well-formed buffer stays below 2^30 pixels, so every
/// row-major index fits in a machine word.
pub proof fn lemma_area_small(w: int, h: int)
    requires
        0 <= w <= MAX_DIM,
        0 <= h <= MAX_DIM,
    ensures
        w * h <= 0x40000000,
{
    assert(w * h <= 0x40000000) by (nonlinear_arith)
        requires
            0 <= w <= 32768,
            0 <= h <= 32768,
    ;
}

impl FrameBuffer {
    /// The pixels of the buffer, row by row.
    pub closed spec fn view(&self) -> Seq<u32> {
        self.pixels@
    }

    /// Width of the buffer in pixels.
    pub closed spec fn spec_width(&self) -> int {
        self.width as int
    }

    /// Height of the buffer in pixels.
    pub closed spec fn spec_height(&self) -> int {
        self.height as int
    }

    /// The buffer holds one pixel for each coordinate of its grid, and
    /// its dimensions stay within the machine limits of the pipeline.
    pub open spec fn wf(&self) -> bool {
        &&& self.view().len() == self.spec_width() * self.spec_height()
        &&& 0 <= self.spec_width() <= MAX_DIM
        &&& 0 <= self.spec_height() <= MAX_DIM
    }

    /// Allocates a buffer of the given size with every pixel set to
    /// `fill`.
    pub fn new(width: usize, height: usize, fill: u32) -> (fb: FrameBuffer)
        requires
            width <= MAX_DIM,
            height <= MAX_DIM,
        ensures
            fb.wf(),
            fb.spec_width() == width,
            fb.spec_height() == height,
            fb.view() == Seq::new((width * height) as nat, |i: int| fill),
    {
        proof {
            assert(width * height <= MAX_DIM * MAX_DIM) by (nonlinear_arith)
                requires
                    width <= MAX_DIM,
                    height <= MAX_DIM,
            ;
        }
        let n = width * height;
        let mut pixels: Vec<u32> = Vec::new();
        let mut i: usize = 0;
        while i < n
            invariant
                i <= n,
                pixels@.len() == i,
                forall|j: int| 0 <= j < i ==> pixels@[j] == fill,
            decreases n - i,
        {
            pixels.push(fill);
            i += 1;
        }
        let fb = FrameBuffer { pixels, width, height };
        proof {
            assert(fb.view() =~= Seq::new((width * height) as nat, |i: int| fill));
        }
        fb
    }

    /// Width of the buffer in pixels.
    pub fn width(&self) -> (w: usize)
        ensures
            w == self.spec_width(),
    {
        self.width
    }

    /// Height of the buffer in pixels.
    pub fn height(&self) -> (h: usize)
        ensures
            h == self.spec_height(),
    {
        self.height
    }

    /// The pixel at `(x, y)`.
    pub fn read(&self, x: usize, y: usize) -> (p: u32)
        requires
            self.wf(),
            x < self.spec_width(),
            y < self.spec_height(),
        ensures
            p == self.view()[spec_pixel_index(x as int, y as int, self.spec_width())],
    {
        proof {
            lemma_pixel_index(x as int, y as int, self.spec_width(), self.spec_height());
            lemma_area_small(self.spec_width(), self.spec_height());
        }
        self.pixels[y * self.width + x]
    }

    /// Overwrites the pixel at `(x, y)`.
    pub fn write(&mut self, x: usize, y: usize, texel: u32)
        requires
            old(self).wf(),
            x < old(self).spec_width(),
            y < old(self).spec_height(),
        ensures
            final(self).wf(),
            final(self).spec_width() == old(self).spec_width(),
            final(self).spec_height() == old(self).spec_height(),
            final(self).view() == old(self).view().update(
                spec_pixel_index(x as int, y as int, old(self).spec_width()),
                texel,
            ),
    {
        proof {
            lemma_pixel_index(x as int, y as int, self.spec_width(), self.spec_height());
            lemma_area_small(self.spec_width(), self.spec_height());
        }
        let i = y * self.width + x;
        self.pixels.set(i, texel);
    }

    /// The whole contents as one row-major vector of packed pixels.
    pub fn into_raw(self) -> (raw: Vec<u32>)
        ensures
            raw@ == self.view(),
    {
        self.pixels
    }
}

/// Does `(px, py)` fall inside the rectangle of origin `(x, y)` and
/// size `w` by `h` (inclusive minimum, exclusive maximum)?
pub open spec fn spec_in_rect(px: int, py: int, x: int, y: int, w: int, h: int) -> bool {
    x <= px < x + w && y <= py < y + h
}

/// A UI-point coordinate scaled to device pixels and rounded to the
/// nearest integer pixel.
pub open spec fn spec_clip_px(v_fx: int, ppp_fx: int) -> int {
    spec_rdiv(v_fx * ppp_fx, FX_ONE as int * FX_ONE as int)
}

/// `v` clamped into `[lo, hi]`.
pub open spec fn spec_clamp(v: int, lo: int, hi: int) -> int {
    if v < lo {
        lo
    } else if v > hi {
        hi
    } else {
        v
    }
}

/// Minimum x of the scissor rectangle of a clip rectangle: scaled,
/// rounded, and clamped to the screen.
pub open spec fn spec_scissor_min_x(clip: ClipRect, ppp_fx: int, w: int) -> int {
    spec_clamp(spec_clip_px(clip.min_x_fx as int, ppp_fx), 0, w)
}

/// Minimum y of the scissor rectangle of a clip rectangle.
pub open spec fn spec_scissor_min_y(clip: ClipRect, ppp_fx: int, h: int) -> int {
    spec_clamp(spec_clip_px(clip.min_y_fx as int, ppp_fx), 0, h)
}

/// Maximum x of the scissor rectangle, never left of the minimum.
pub open spec fn spec_scissor_max_x(clip: ClipRect, ppp_fx: int, w: int) -> int {
    spec_clamp(spec_clip_px(clip.max_x_fx as int, ppp_fx), spec_scissor_min_x(clip, ppp_fx, w), w)
}

/// Maximum y of the scissor rectangle, never above the minimum.
pub open spec fn spec_scissor_max_y(clip: ClipRect, ppp_fx: int, h: int) -> int {
    spec_clamp(spec_clip_px(clip.max_y_fx as int, ppp_fx), spec_scissor_min_y(clip, ppp_fx, h), h)
}

/// Wrapper of a pixel target: reads are unaffected but writes are
/// clipped by the given rectangle.
pub struct Scissor<T> {
    pub inner: T,
    pub x: usize,
    pub y: usize,
    pub width: usize,
    pub height: usize,
}

impl<T> Scissor<T> {
    /// Wraps `inner` with the given scissor rectangle.
    pub fn new(inner: T, x: usize, y: usize, width: usize, height: usize) -> (s: Self)
        ensures
            s == (Scissor { inner, x, y, width, height }),
    {
        Self { inner, x, y, width, height }
    }

    /// Does `(x, y)` fall inside the scissor rectangle?
    pub fn bounds_check(&self, x: usize, y: usize) -> (r: bool)
        requires
            self.x + self.width <= usize::MAX,
            self.y + self.height <= usize::MAX,
        ensures
            r == spec_in_rect(
                x as int,
                y as int,
                self.x as int,
                self.y as int,
                self.width as int,
                self.height as int,
            ),
    {
        x >= self.x && y >= self.y && x < self.x + self.width && y < self.y + self.height
    }

    /// Derives the scissor rectangle from a clip rectangle in UI
    /// points: scale by the device pixel ratio, round each corner to
    /// the nearest pixel, clamp the minimum corner to the screen and
    /// the maximum corner between the minimum corner and the screen.
    pub fn from_clip_rect(
        inner: T,
        screen_size: [usize; 2],
        pixels_per_point_fx: i64,
        clip_rect: ClipRect,
    ) -> (s: Self)
        requires
            screen_size[0] <= MAX_DIM,
            screen_size[1] <= MAX_DIM,
        ensures
            s.inner == inner,
            s.x == spec_scissor_min_x(clip_rect, pixels_per_point_fx as int, screen_size[0] as int),
            s.y == spec_scissor_min_y(clip_rect, pixels_per_point_fx as int, screen_size[1] as int),
            s.x + s.width == spec_scissor_max_x(
                clip_rect,
                pixels_per_point_fx as int,
                screen_size[0] as int,
            ),
            s.y + s.height == spec_scissor_max_y(
                clip_rect,
                pixels_per_point_fx as int,
                screen_size[1] as int,
            ),
            s.x + s.width <= screen_size[0],
            s.y + s.height <= screen_size[1],
    {
        let width_px = screen_size[0];
        let height_px = screen_size[1];
        let one_sq: i128 = (FX_ONE as i128) * (FX_ONE as i128);

        // Transform the clip rectangle corners to device pixels and
        // round to the nearest integer pixel.
        let clip_min_x = rdiv128(mul_i64_wide(clip_rect.min_x_fx, pixels_per_point_fx), one_sq);
        let clip_min_y = rdiv128(mul_i64_wide(clip_rect.min_y_fx, pixels_per_point_fx), one_sq);
        let clip_max_x = rdiv128(mul_i64_wide(clip_rect.max_x_fx, pixels_per_point_fx), one_sq);
        let clip_max_y = rdiv128(mul_i64_wide(clip_rect.max_y_fx, pixels_per_point_fx), one_sq);

        // Clamp: the minimum corner to the screen, the maximum corner
        // between the minimum corner and the screen.
        let clip_min_x = clamp_i128(clip_min_x, 0, width_px as i128);
        let clip_min_y = clamp_i128(clip_min_y, 0, height_px as i128);
        let clip_max_x = clamp_i128(clip_max_x, clip_min_x, width_px as i128);
        let clip_max_y = clamp_i128(clip_max_y, clip_min_y, height_px as i128);

        Self::new(
            inner,
            clip_min_x as usize,
            clip_min_y as usize,
            (clip_max_x - clip_min_x) as usize,
            (clip_max_y - clip_min_y) as usize,
        )
    }
}

/// `v` clamped into `[lo, hi]`.
fn clamp_i128(v: i128, lo: i128, hi: i128) -> (r: i128)
    requires
        lo <= hi,
    ensures
        r == spec_clamp(v as int, lo as int, hi as int),
{
    if v < lo {
        lo
    } else if v > hi {
        hi
    } else {
        v
    }
}

impl Scissor<FrameBuffer> {
    /// The size of the wrapped target, unaffected by the scissor
    /// rectangle.
    pub fn size(&self) -> (s: [usize; 2])
        ensures
            s[0] == self.inner.spec_width(),
            s[1] == self.inner.spec_height(),
    {
        [self.inner.width(), self.inner.height()]
    }

    /// Reads pass through to the wrapped target unmodified.
    pub fn read(&self, x: usize, y: usize) -> (p: u32)
        requires
            self.inner.wf(),
            x < self.inner.spec_width(),
            y < self.inner.spec_height(),
        ensures
            p == self.inner.view()[spec_pixel_index(x as int, y as int, self.inner.spec_width())],
    {
        self.inner.read(x, y)
    }

    /// Writes the pixel at `(x, y)` when it falls inside the scissor
    /// rectangle, and drops the write otherwise.
    pub fn write(&mut self, x: usize, y: usize, texel: u32)
        requires
            old(self).inner.wf(),
            x < old(self).inner.spec_width(),
            y < old(self).inner.spec_height(),
            old(self).x + old(self).width <= usize::MAX,
            old(self).y + old(self).height <= usize::MAX,
        ensures
            final(self).inner.wf(),
            final(self).x == old(self).x,
            final(self).y == old(self).y,
            final(self).width == old(self).width,
            final(self).height == old(self).height,
            final(self).inner.spec_width() == old(self).inner.spec_width(),
            final(self).inner.spec_height() == old(self).inner.spec_height(),
            final(self).inner.view() == if spec_in_rect(
                x as int,
                y as int,
                old(self).x as int,
                old(self).y as int,
                old(self).width as int,
                old(self).height as int,
            ) {
                old(self).inner.view().update(
                    spec_pixel_index(x as int, y as int, old(self).inner.spec_width()),
                    texel,
                )
            } else {
                old(self).inner.view()
            },
    {
        if self.bounds_check(x, y) {
            self.inner.write(x, y, texel);
        }
    }
}

/// A clip rectangle that lies fully outside the screen yields an empty
/// scissor rectangle: zero width or zero height.
pub proof fn lemma_scissor_outside_empty(clip: ClipRect, ppp_fx: int, w: int, h: int)
    requires
        w >= 0,
        h >= 0,
        spec_clip_px(clip.max_x_fx as int, ppp_fx) <= 0 || spec_clip_px(clip.min_x_fx as int, ppp_fx)
            >= w || spec_clip_px(clip.max_y_fx as int, ppp_fx) <= 0 || spec_clip_px(
            clip.min_y_fx as int,
            ppp_fx,
        ) >= h,
    ensures
        spec_scissor_max_x(clip, ppp_fx, w) - spec_scissor_min_x(clip, ppp_fx, w) == 0
            || spec_scissor_max_y(clip, ppp_fx, h) - spec_scissor_min_y(clip, ppp_fx, h) == 0,
{
}

/// A clip rectangle whose scaled, rounded corners already lie within
/// the screen is reproduced exactly in device pixels.
pub proof fn lemma_scissor_inside_exact(clip: ClipRect, ppp_fx: int, w: int, h: int)
    requires
        0 <= spec_clip_px(clip.min_x_fx as int, ppp_fx),
        spec_clip_px(clip.min_x_fx as int, ppp_fx) <= spec_clip_px(clip.max_x_fx as int, ppp_fx),
        spec_clip_px(clip.max_x_fx as int, ppp_fx) <= w,
        0 <= spec_clip_px(clip.min_y_fx as int, ppp_fx),
        spec_clip_px(clip.min_y_fx as int, ppp_fx) <= spec_clip_px(clip.max_y_fx as int, ppp_fx),
        spec_clip_px(clip.max_y_fx as int, ppp_fx) <= h,
    ensures
        spec_scissor_min_x(clip, ppp_fx, w) == spec_clip_px(clip.min_x_fx as int, ppp_fx),
        spec_scissor_min_y(clip, ppp_fx, h) == spec_clip_px(clip.min_y_fx as int, ppp_fx),
        spec_scissor_max_x(clip, ppp_fx, w) == spec_clip_px(clip.max_x_fx as int, ppp_fx),
        spec_scissor_max_y(clip, ppp_fx, h) == spec_clip_px(clip.max_y_fx as int, ppp_fx),
{
}

/// No coordinate falls inside an empty rectangle, so an empty scissor
/// rectangle drops every write.
pub proof fn lemma_empty_rect_no_writes(x: int, y: int, w: int, h: int)
    requires
        w == 0 || h == 0,
    ensures
        forall|px: int, py: int| !spec_in_rect(px, py, x, y, w, h),
{
}

} // verus!
