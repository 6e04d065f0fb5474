//! CPU-resident textures and their incremental updates.
//!
//! A texture is a grid of packed RGBA pixels together with its
//! sampling options.  It is created from a whole image, mutated in
//! place by region patches, and replaced wholesale when a whole-image
//! delta arrives with a different size.  Creation is itself a patch: a
//! fresh buffer is filled with a sentinel color and the delta's own
//! pixels are patched over it, so creation and patching share one code
//! path.

use vstd::prelude::*;

use crate::error::PaintError;
use crate::scissor::{lemma_area_small, lemma_pixel_index, spec_pixel_index, MAX_DIM};

verus! {

/// The fill of a freshly allocated texture buffer before the creating
/// delta's own pixels are patched over it: opaque red, packed.
pub const SENTINEL_TEXEL: u32 = 0xff0000ff;

/// An opaque, unique key of a texture: either one managed by the UI
/// engine's atlas or one allocated by the user.
#[derive(Clone, Copy, Debug, PartialEq, Eq, Hash, Structural)]
pub enum TextureId {
    Managed(u64),
    User(u64),
}

/// Magnification filter of a texture.
#[derive(Clone, Copy, Debug, PartialEq, Eq, Structural)]
pub enum TextureFilter {
    Nearest,
    Linear,
}

/// How texture coordinates outside `[0, 1]` are brought back in.
#[derive(Clone, Copy, Debug, PartialEq, Eq, Structural)]
pub enum TextureWrapMode {
    ClampToEdge,
    Repeat,
    MirroredRepeat,
}

/// Sampling options of a texture, static per texture.
#[derive(Clone, Copy, Debug, PartialEq, Eq, Structural)]
pub struct TextureOptions {
    pub magnification: TextureFilter,
    pub wrap_mode: TextureWrapMode,
}

/// An image owned by the caller: a row-major grid of packed pixels.
pub struct ColorImage {
    pub width: usize,
    pub height: usize,
    pub pixels: Vec<u32>,
}

impl ColorImage {
    /// The image holds one pixel per coordinate and stays within the
    /// machine limits of the pipeline.
    pub open spec fn wf(&self) -> bool {
        &&& self.pixels@.len() == self.width * self.height
        &&& self.width <= MAX_DIM
        &&& self.height <= MAX_DIM
    }
}

/// An incremental description of how a texture changed: a whole image
/// when `pos` is `None`, a sub-region patch at offset `pos` otherwise.
pub struct ImageDelta {
    pub image: ColorImage,
    pub options: TextureOptions,
    pub pos: Option<[usize; 2]>,
}

impl ImageDelta {
    /// Is this delta a whole-image update?
    pub fn is_whole(&self) -> (r: bool)
        ensures
            r == (self.pos is None),
    {
        self.pos.is_none()
    }

    /// The delta carries a well-formed image.
    pub open spec fn wf(&self) -> bool {
        self.image.wf()
    }

    /// Horizontal offset of the patched region.
    pub open spec fn spec_off_x(&self) -> int {
        match self.pos {
            Option::Some(p) => p[0] as int,
            Option::None => 0,
        }
    }

    /// Vertical offset of the patched region.
    pub open spec fn spec_off_y(&self) -> int {
        match self.pos {
            Option::Some(p) => p[1] as int,
            Option::None => 0,
        }
    }
}

/// The mathematical value of a texture: its pixels, its size, and its
/// sampling options.
#[verifier::ext_equal]
pub struct TexView {
    pub pixels: Seq<u32>,
    pub width: int,
    pub height: int,
    pub options: TextureOptions,
}

/// `base`, a row-major grid of width `bw`, with the grid `patch` of
/// size `pw` by `ph` overwritten over it at offset `(off_x, off_y)`.
/// Pixels outside the patched region keep their value.
pub open spec fn spec_patched(
    base: Seq<u32>,
    bw: int,
    off_x: int,
    off_y: int,
    patch: Seq<u32>,
    pw: int,
    ph: int,
) -> Seq<u32> {
    Seq::new(
        base.len(),
        |i: int|
            {
                let x = i % bw;
                let y = i / bw;
                if off_x <= x < off_x + pw && off_y <= y < off_y + ph {
                    patch[spec_pixel_index(x - off_x, y - off_y, pw)]
                } else {
                    base[i]
                }
            },
    )
}

/// The prefix of a patch: rows before `y` are fully applied, and in
/// row `y` only the columns before `x` are.  `spec_patched` is the
/// limit of this at `y == ph`.
pub open spec fn spec_patched_upto(
    base: Seq<u32>,
    bw: int,
    off_x: int,
    off_y: int,
    patch: Seq<u32>,
    pw: int,
    ph: int,
    y: int,
    x: int,
) -> Seq<u32> {
    Seq::new(
        base.len(),
        |i: int|
            {
                let cx = i % bw - off_x;
                let cy = i / bw - off_y;
                if 0 <= cx < pw && 0 <= cy < ph && (cy < y || (cy == y && cx < x)) {
                    patch[spec_pixel_index(cx, cy, pw)]
                } else {
                    base[i]
                }
            },
    )
}

/// Does the delta's region fit inside a texture of the given size?
pub open spec fn spec_patch_fits(delta: ImageDelta, width: int, height: int) -> bool {
    &&& delta.spec_off_x() + delta.image.width <= width
    &&& delta.spec_off_y() + delta.image.height <= height
}

/// Does applying `delta` to a texture of view `t` succeed?  A whole
/// delta of a different size replaces the texture and always succeeds;
/// anything else must fit inside the stored bounds.
pub open spec fn spec_update_ok(t: TexView, delta: ImageDelta) -> bool {
    if delta.pos is None && (delta.image.width != t.width || delta.image.height != t.height) {
        true
    } else {
        spec_patch_fits(delta, t.width, t.height)
    }
}

/// The texture after applying `delta` to a texture of view `t`: a
/// whole delta of a different size replaces the contents wholesale,
/// anything else patches the stored grid in place.  The options are
/// taken from the delta either way.
pub open spec fn spec_tex_after_update(t: TexView, delta: ImageDelta) -> TexView {
    if delta.pos is None && (delta.image.width != t.width || delta.image.height != t.height) {
        TexView {
            pixels: delta.image.pixels@,
            width: delta.image.width as int,
            height: delta.image.height as int,
            options: delta.options,
        }
    } else {
        TexView {
            pixels: spec_patched(
                t.pixels,
                t.width,
                delta.spec_off_x(),
                delta.spec_off_y(),
                delta.image.pixels@,
                delta.image.width as int,
                delta.image.height as int,
            ),
            width: t.width,
            height: t.height,
            options: delta.options,
        }
    }
}

/// A texture held by the store: a pixel grid plus sampling options.
pub struct SoftwareTexture {
    pixels: Vec<u32>,
    width: usize,
    height: usize,
    options: TextureOptions,
}

impl View for SoftwareTexture {
    type V = TexView;

    closed spec fn view(&self) -> TexView {
        TexView {
            pixels: self.pixels@,
            width: self.width as int,
            height: self.height as int,
            options: self.options,
        }
    }
}

impl SoftwareTexture {
    /// The texture holds one pixel per coordinate and stays within the
    /// machine limits of the pipeline.
    pub open spec fn wf(&self) -> bool {
        &&& self@.pixels.len() == self@.width * self@.height
        &&& 0 <= self@.width <= MAX_DIM
        &&& 0 <= self@.height <= MAX_DIM
    }

    /// Width of the texture in texels.
    pub fn width(&self) -> (w: usize)
        ensures
            w == self@.width,
    {
        self.width
    }

    /// Height of the texture in texels.
    pub fn height(&self) -> (h: usize)
        ensures
            h == self@.height,
    {
        self.height
    }

    /// The sampling options of the texture.
    pub fn options(&self) -> (o: TextureOptions)
        ensures
            o == self@.options,
    {
        self.options
    }

    /// The texel at `(x, y)`.
    pub fn texel(&self, x: usize, y: usize) -> (p: u32)
        requires
            self.wf(),
            x < self@.width,
            y < self@.height,
        ensures
            p == self@.pixels[spec_pixel_index(x as int, y as int, self@.width)],
    {
        proof {
            lemma_pixel_index(x as int, y as int, self@.width, self@.height);
            lemma_area_small(self@.width, self@.height);
        }
        self.pixels[y * self.width + x]
    }

    /// Creates a texture from a whole image: allocate a buffer of the
    /// declared size filled with the sentinel color, then patch the
    /// image's own pixels over it.
    pub fn new(image: &ColorImage, options: TextureOptions) -> (t: SoftwareTexture)
        requires
            image.wf(),
        ensures
            t.wf(),
            t@.width == image.width,
            t@.height == image.height,
            t@.options == options,
            t@.pixels == image.pixels@,
    {
        let width = image.width;
        let height = image.height;
        proof {
            lemma_area_small(width as int, height as int);
        }
        let n = width * height;
        let mut pixels: Vec<u32> = Vec::new();
        let mut i: usize = 0;
        while i < n
            invariant
                i <= n,
                pixels@.len() == i,
            decreases n - i,
        {
            pixels.push(SENTINEL_TEXEL);
            i += 1;
        }
        let mut t = SoftwareTexture { pixels, width, height, options };
        let ghost base = t@.pixels;
        t.apply_patch(image, 0, 0, options);
        proof {
            lemma_full_patch_covers(base, image.pixels@, width as int, height as int);
            assert(t@.pixels =~= image.pixels@);
        }
        t
    }

    /// Applies an incremental update.  A whole delta whose size
    /// differs from the stored size replaces the texture wholesale;
    /// any other delta overwrites the stored pixels of its region, one
    /// for one, and fails without touching the texture when the region
    /// reaches outside the stored bounds.
    pub fn update(&mut self, delta: &ImageDelta) -> (r: Result<(), PaintError>)
        requires
            old(self).wf(),
            delta.wf(),
        ensures
            final (self).wf(),
            match r {
                Ok(()) => spec_update_ok(old(self)@, *delta) && final (self)@
                    == spec_tex_after_update(old(self)@, *delta),
                Err(e) => e == PaintError::PatchOutOfBounds && !spec_update_ok(old(self)@, *delta)
                    && final (self)@ == old(self)@,
            },
    {
        let whole = delta.is_whole();
        if whole && (delta.image.width != self.width || delta.image.height != self.height) {
            // A whole image of a new size: replace wholesale.  The
            // replacement is itself a sentinel fill plus a patch.
            let width = delta.image.width;
            let height = delta.image.height;
            proof {
                lemma_area_small(width as int, height as int);
            }
            let n = width * height;
            let mut pixels: Vec<u32> = Vec::new();
            let mut i: usize = 0;
            while i < n
                invariant
                    i <= n,
                    pixels@.len() == i,
                decreases n - i,
            {
                pixels.push(SENTINEL_TEXEL);
                i += 1;
            }
            let ghost base = pixels@;
            self.pixels = pixels;
            self.width = width;
            self.height = height;
            self.apply_patch(&delta.image, 0, 0, delta.options);
            proof {
                lemma_full_patch_covers(base, delta.image.pixels@, width as int, height as int);
                assert(self@ =~= spec_tex_after_update(old(self)@, *delta));
            }
            return Ok(());
        }
        let (off_x, off_y) = match &delta.pos {
            Option::Some(p) => (p[0], p[1]),
            Option::None => (0, 0),
        };
        if delta.image.width > self.width || off_x > self.width - delta.image.width
            || delta.image.height > self.height || off_y > self.height - delta.image.height {
            return Err(PaintError::PatchOutOfBounds);
        }
        self.apply_patch(&delta.image, off_x, off_y, delta.options);
        proof {
            assert(self@ =~= spec_tex_after_update(old(self)@, *delta));
        }
        Ok(())
    }

    /// Overwrites the region of the stored grid at `(off_x, off_y)`
    /// with the pixels of `patch`, and takes over the given options.
    fn apply_patch(&mut self, patch: &ColorImage, off_x: usize, off_y: usize, options: TextureOptions)
        requires
            old(self).wf(),
            patch.wf(),
            off_x + patch.width <= old(self)@.width,
            off_y + patch.height <= old(self)@.height,
        ensures
            final (self).wf(),
            final (self)@.width == old(self)@.width,
            final (self)@.height == old(self)@.height,
            final (self)@.options == options,
            final (self)@.pixels == spec_patched(
                old(self)@.pixels,
                old(self)@.width,
                off_x as int,
                off_y as int,
                patch.pixels@,
                patch.width as int,
                patch.height as int,
            ),
    {
        self.options = options;
        let ghost base = old(self)@.pixels;
        let ghost bw = old(self)@.width;
        let ghost bh = old(self)@.height;
        let ghost pw = patch.width as int;
        let ghost ph = patch.height as int;
        let mut y: usize = 0;
        proof {
            assert(self@.pixels =~= spec_patched_upto(base, bw, off_x as int, off_y as int,
                patch.pixels@, pw, ph, 0, 0));
        }
        while y < patch.height
            invariant
                y <= patch.height,
                self.wf(),
                patch.wf(),
                off_x + patch.width <= self@.width,
                off_y + patch.height <= self@.height,
                self@.width == bw,
                self@.height == bh,
                self@.options == options,
                pw == patch.width as int,
                ph == patch.height as int,
                base.len() == bw * bh,
                self@.pixels == spec_patched_upto(base, bw, off_x as int, off_y as int,
                    patch.pixels@, pw, ph, y as int, 0),
            decreases patch.height - y,
        {
            let mut x: usize = 0;
            while x < patch.width
                invariant
                    x <= patch.width,
                    y < patch.height,
                    self.wf(),
                    patch.wf(),
                    off_x + patch.width <= self@.width,
                    off_y + patch.height <= self@.height,
                    self@.width == bw,
                    self@.height == bh,
                    self@.options == options,
                    pw == patch.width as int,
                    ph == patch.height as int,
                    base.len() == bw * bh,
                    self@.pixels == spec_patched_upto(base, bw, off_x as int, off_y as int,
                        patch.pixels@, pw, ph, y as int, x as int),
                decreases patch.width - x,
            {
                proof {
                    lemma_pixel_index(x as int, y as int, pw, ph);
                    lemma_area_small(pw, ph);
                    lemma_pixel_index((off_x + x) as int, (off_y + y) as int, bw, bh);
                    lemma_area_small(bw, bh);
                }
                let sample = patch.pixels[y * patch.width + x];
                let i = (off_y + y) * self.width + (off_x + x);
                self.pixels.set(i, sample);
                proof {
                    lemma_patched_upto_step(base, bw, bh, off_x as int, off_y as int,
                        patch.pixels@, pw, ph, y as int, x as int);
                }
                x += 1;
            }
            proof {
                assert(spec_patched_upto(base, bw, off_x as int, off_y as int, patch.pixels@,
                    pw, ph, y as int, pw) =~= spec_patched_upto(base, bw, off_x as int,
                    off_y as int, patch.pixels@, pw, ph, y as int + 1, 0));
            }
            y += 1;
        }
        proof {
            assert(spec_patched_upto(base, bw, off_x as int, off_y as int, patch.pixels@, pw, ph,
                ph, 0) =~= spec_patched(base, bw, off_x as int, off_y as int, patch.pixels@, pw,
                ph));
        }
    }
}

/// Writing the patch pixel `(x, y)` into the grid advances the patch
/// prefix by one cell.
proof fn lemma_patched_upto_step(
    base: Seq<u32>,
    bw: int,
    bh: int,
    off_x: int,
    off_y: int,
    patch: Seq<u32>,
    pw: int,
    ph: int,
    y: int,
    x: int,
)
    requires
        base.len() == bw * bh,
        0 <= x < pw,
        0 <= y < ph,
        0 <= off_x,
        0 <= off_y,
        off_x + pw <= bw,
        off_y + ph <= bh,
    ensures
        spec_patched_upto(base, bw, off_x, off_y, patch, pw, ph, y, x).update(
            spec_pixel_index(off_x + x, off_y + y, bw),
            patch[spec_pixel_index(x, y, pw)],
        ) =~= spec_patched_upto(base, bw, off_x, off_y, patch, pw, ph, y, x + 1),
{
    lemma_pixel_index(off_x + x, off_y + y, bw, bh);
    let idx = spec_pixel_index(off_x + x, off_y + y, bw);
    let before = spec_patched_upto(base, bw, off_x, off_y, patch, pw, ph, y, x).update(
        idx,
        patch[spec_pixel_index(x, y, pw)],
    );
    let after = spec_patched_upto(base, bw, off_x, off_y, patch, pw, ph, y, x + 1);
    assert forall|i: int| 0 <= i < base.len() implies before[i] == after[i] by {
        vstd::arithmetic::div_mod::lemma_fundamental_div_mod(i, bw);
        vstd::arithmetic::div_mod::lemma_mod_bound(i, bw);
        if i != idx {
            // A cell other than the one just written keeps its value:
            // its coordinates differ from `(x, y)`, since coordinates
            // determine the row-major index.
            assert(i % bw - off_x == x && i / bw - off_y == y ==> i == idx) by (nonlinear_arith)
                requires
                    i == bw * (i / bw) + i % bw,
                    idx == (off_y + y) * bw + (off_x + x),
            ;
        }
    };
}

/// A patch that covers the whole grid overwrites every pixel: the
/// patched grid is the patch itself.  In particular a creation (a
/// sentinel fill patched with the whole image) stores exactly the
/// image, and patching a texture with a full image of its own content
/// leaves it pixel for pixel equal to that image.
pub proof fn lemma_full_patch_covers(base: Seq<u32>, patch: Seq<u32>, w: int, h: int)
    requires
        base.len() == w * h,
        patch.len() == w * h,
        w >= 0,
        h >= 0,
    ensures
        spec_patched(base, w, 0, 0, patch, w, h) =~= patch,
{
    if w == 0 || h == 0 {
        assert(w * h == 0) by (nonlinear_arith)
            requires
                w == 0 || h == 0,
        ;
    } else {
        assert forall|i: int| 0 <= i < base.len() implies spec_patched(
            base,
            w,
            0,
            0,
            patch,
            w,
            h,
        )[i] == patch[i] by {
            vstd::arithmetic::div_mod::lemma_fundamental_div_mod(i, w);
            vstd::arithmetic::div_mod::lemma_mod_bound(i, w);
            assert(0 <= i / w < h) by (nonlinear_arith)
                requires
                    i == w * (i / w) + i % w,
                    0 <= i % w < w,
                    0 <= i < w * h,
            ;
            assert(spec_pixel_index(i % w, i / w, w) == i) by (nonlinear_arith)
                requires
                    i == w * (i / w) + i % w,
            ;
        };
    }
}

/// Creating a texture from an image and immediately patching it with a
/// whole delta of identical content leaves the stored buffer equal to
/// the sourced image, pixel for pixel.
pub proof fn lemma_create_then_identical_patch(t: TexView, delta: ImageDelta)
    requires
        delta.wf(),
        delta.pos is None,
        t.pixels == delta.image.pixels@,
        t.width == delta.image.width,
        t.height == delta.image.height,
    ensures
        spec_update_ok(t, delta),
        spec_tex_after_update(t, delta).pixels == delta.image.pixels@,
        spec_tex_after_update(t, delta).width == t.width,
        spec_tex_after_update(t, delta).height == t.height,
{
    lemma_full_patch_covers(t.pixels, delta.image.pixels@, t.width, t.height);
}

/// Pixel by pixel: a patch overwrites exactly its region.  The pixel
/// at `(x, y)` of the patched grid is the patch's own pixel when the
/// coordinate falls inside the patched region, and the base grid's
/// pixel unchanged otherwise.
pub proof fn lemma_patch_pointwise(
    base: Seq<u32>,
    bw: int,
    bh: int,
    off_x: int,
    off_y: int,
    patch: Seq<u32>,
    pw: int,
    ph: int,
    x: int,
    y: int,
)
    requires
        base.len() == bw * bh,
        0 <= x < bw,
        0 <= y < bh,
    ensures
        off_x <= x < off_x + pw && off_y <= y < off_y + ph ==> spec_patched(
            base,
            bw,
            off_x,
            off_y,
            patch,
            pw,
            ph,
        )[spec_pixel_index(x, y, bw)] == patch[spec_pixel_index(x - off_x, y - off_y, pw)],
        !(off_x <= x < off_x + pw && off_y <= y < off_y + ph) ==> spec_patched(
            base,
            bw,
            off_x,
            off_y,
            patch,
            pw,
            ph,
        )[spec_pixel_index(x, y, bw)] == base[spec_pixel_index(x, y, bw)],
{
    lemma_pixel_index(x, y, bw, bh);
}

} // verus!
