//! The painter: the persistent orchestrator of a frame.
//!
//! It owns the texture store, applies the frame's texture deltas,
//! renders the ordered draw-item list into a fresh color buffer (later
//! items blend over earlier ones; order is a content guarantee), and
//! frees evicted textures strictly after rendering, so that a draw
//! item may still reference a texture scheduled for eviction in the
//! same frame.
//!
//! The store keys textures by identifier through a hash map of the
//! `hashbrown` crate, held behind a small trusted boundary: the map
//! carries only plain keys and slot indices, and every texture lives
//! in a slot of an ordinary vector the index points into.

use vstd::prelude::*;

use crate::error::PaintError;
use crate::fx::{lemma_tdiv_bound, lemma_tdiv_lower, spec_tdiv, tdiv64, FX_ONE};
use crate::pipeline::{
    spec_raster_mesh, spec_raster_mesh_depth, render_mesh, ClippedPrimitive, Primitive, RenderCtx,
    PTS_MAX, PTS_MIN,
};
use crate::scissor::{
    spec_scissor_max_x, spec_scissor_max_y, spec_scissor_min_x, spec_scissor_min_y, FrameBuffer,
    Scissor, MAX_DIM,
};
use crate::texture::{
    spec_tex_after_update, spec_update_ok, ImageDelta, SoftwareTexture, TexView, TextureId,
};

verus! {

/// Smallest device pixel ratio the painter accepts: one sixteenth.
pub const PPP_MIN: i64 = 4096;

/// Largest device pixel ratio the painter accepts: sixteen.
pub const PPP_MAX: i64 = 1048576;

/// The depth value every pixel of the depth buffer is reset to: the
/// far plane, one, in fixed point.
pub const DEPTH_FAR: u32 = 65536;

/// A texture index with no entries.
pub open spec fn empty_index() -> Map<u128, usize> {
    Map::empty()
}

/// What a texture index holds: a finite map from plain keys to slot
/// positions.  This is the name the trusted wrappers below state their
/// contracts over.
pub uninterp spec fn index_contents(m: TexIndex) -> Map<u128, usize>;

/// A map from texture keys to slot positions, backed by
/// `hashbrown::HashMap`.  Verus does not read the map's internals;
/// everything it believes about it is stated by the wrappers below,
/// each of which makes exactly one call into the crate.
#[verifier::external_body]
pub struct TexIndex {
    map: hashbrown::HashMap<u128, usize>,
}

impl TexIndex {
    /// The finite map this index holds.
    pub closed spec fn contents(&self) -> Map<u128, usize> {
        index_contents(*self)
    }

    /// Relies on `hashbrown::HashMap::new`: a fresh map is empty.
    #[verifier::external_body]
    fn new() -> (r: TexIndex)
        ensures
            r.contents() == empty_index(),
    {
        TexIndex { map: hashbrown::HashMap::new() }
    }

    /// Relies on `hashbrown::HashMap::get`: returns the value the key
    /// maps to, and nothing when the key is absent.
    #[verifier::external_body]
    fn get(&self, k: u128) -> (r: Option<usize>)
        ensures
            match r {
                Option::Some(v) => index_contents(*self).dom().contains(k) && index_contents(
                    *self,
                )[k] == v,
                Option::None => !index_contents(*self).dom().contains(k),
            },
    {
        self.map.get(&k).copied()
    }

    /// Relies on `hashbrown::HashMap::insert`: after the call the key
    /// maps to the value, and no other entry changes.
    #[verifier::external_body]
    fn insert(&mut self, k: u128, v: usize)
        ensures
            index_contents(*final (self)) == index_contents(*old(self)).insert(k, v),
    {
        self.map.insert(k, v);
    }

    /// Relies on `hashbrown::HashMap::remove`: after the call the key
    /// is absent, and no other entry changes.
    #[verifier::external_body]
    fn remove(&mut self, k: u128)
        ensures
            index_contents(*final (self)) == index_contents(*old(self)).remove(k),
    {
        self.map.remove(&k);
    }
}

/// The plain key a texture identifier is stored under: managed
/// identifiers below `2^64`, user identifiers above.
pub open spec fn spec_tex_key(id: TextureId) -> u128 {
    match id {
        TextureId::Managed(n) => n as u128,
        TextureId::User(n) => (n + 0x10000000000000000) as u128,
    }
}

/// Distinct texture identifiers are stored under distinct keys.
pub proof fn lemma_tex_key_injective()
    ensures
        forall|a: TextureId, b: TextureId|
            spec_tex_key(a) == spec_tex_key(b) ==> a == b,
{
}

/// The key a texture identifier is stored under.
fn tex_key(id: TextureId) -> (k: u128)
    ensures
        k == spec_tex_key(id),
{
    let base: u128 = 0x10000000000000000;
    match id {
        TextureId::Managed(n) => n as u128,
        TextureId::User(n) => n as u128 + base,
    }
}

/// The texture delta operations of one frame: an ordered list of
/// whole-image or region updates, and a list of identifiers to free
/// strictly after rendering.
pub struct TexturesDelta {
    pub set: Vec<(TextureId, ImageDelta)>,
    pub free: Vec<TextureId>,
}

impl TexturesDelta {
    /// Every delta in the list carries a well-formed image.
    pub open spec fn wf(&self) -> bool {
        forall|i: int| 0 <= i < self.set@.len() ==> (#[trigger] self.set@[i]).1.wf()
    }
}

/// The texture a whole-image delta creates when its identifier is
/// unseen: the delta's own image under the delta's options.
pub open spec fn spec_created(delta: ImageDelta) -> TexView {
    TexView {
        pixels: delta.image.pixels@,
        width: delta.image.width as int,
        height: delta.image.height as int,
        options: delta.options,
    }
}

/// The store after the first `k` delta operations, or the first
/// protocol violation among them: a patch naming an unseen identifier,
/// or a patch reaching outside the stored bounds.
pub open spec fn spec_alloc_upto(
    m0: Map<TextureId, TexView>,
    sets: Seq<(TextureId, ImageDelta)>,
    k: nat,
) -> Result<Map<TextureId, TexView>, PaintError>
    decreases k,
{
    if k == 0 {
        Result::Ok(m0)
    } else {
        match spec_alloc_upto(m0, sets, (k - 1) as nat) {
            Result::Err(e) => Result::Err(e),
            Result::Ok(m) => {
                let id = sets[k - 1].0;
                let delta = sets[k - 1].1;
                if m.dom().contains(id) {
                    if spec_update_ok(m[id], delta) {
                        Result::Ok(m.insert(id, spec_tex_after_update(m[id], delta)))
                    } else {
                        Result::Err(PaintError::PatchOutOfBounds)
                    }
                } else {
                    if delta.pos is None {
                        Result::Ok(m.insert(id, spec_created(delta)))
                    } else {
                        Result::Err(PaintError::PatchAbsentTexture)
                    }
                }
            },
        }
    }
}

/// Once a delta operation has failed, every longer prefix fails with
/// the same error: the first violation decides.
proof fn lemma_alloc_err_stable(
    m0: Map<TextureId, TexView>,
    sets: Seq<(TextureId, ImageDelta)>,
    k: nat,
    n: nat,
)
    requires
        k <= n,
        spec_alloc_upto(m0, sets, k) is Err,
    ensures
        spec_alloc_upto(m0, sets, n) == spec_alloc_upto(m0, sets, k),
    decreases n - k,
{
    if n > k {
        lemma_alloc_err_stable(m0, sets, k, (n - 1) as nat);
    }
}

/// Stores a texture in the first free slot, or in a fresh slot when
/// every slot is live.
fn place_texture(slots: &mut Vec<Option<SoftwareTexture>>, tex: SoftwareTexture) -> (ix: usize)
    ensures
        ix <= old(slots)@.len(),
        ix < old(slots)@.len() ==> old(slots)@[ix as int] is None && final (slots)@ == old(
            slots,
        )@.update(ix as int, Option::Some(tex)),
        ix == old(slots)@.len() ==> final (slots)@ == old(slots)@.push(Option::Some(tex)),
{
    let n = slots.len();
    let mut j: usize = 0;
    while j < n
        invariant
            j <= n,
            n == slots@.len(),
            *slots == *old(slots),
        decreases n - j,
    {
        if slots[j].is_none() {
            slots.set(j, Option::Some(tex));
            return j;
        }
        j += 1;
    }
    slots.push(Option::Some(tex));
    n
}

/// The screen extent in UI points, in fixed point: the extent in
/// device pixels divided by the device pixel ratio.
pub open spec fn spec_screen_pts(dim_px: int, ppp_fx: int) -> int {
    spec_tdiv(dim_px * FX_ONE * FX_ONE, ppp_fx)
}

/// The screen extent in UI points.
fn screen_pts(dim_px: usize, ppp_fx: i64) -> (r: i64)
    requires
        1 <= dim_px <= MAX_DIM,
        PPP_MIN <= ppp_fx <= PPP_MAX,
    ensures
        r == spec_screen_pts(dim_px as int, ppp_fx as int),
        PTS_MIN <= r <= PTS_MAX,
{
    let n = (dim_px as i64) * FX_ONE * FX_ONE;
    proof {
        lemma_tdiv_bound(n as int, ppp_fx as int, PTS_MAX as int);
        lemma_tdiv_lower(n as int, ppp_fx as int, PTS_MIN as int);
    }
    tdiv64(n, ppp_fx)
}

/// The rasterization context of one draw item: the target size, the
/// screen size in points, and the item's scissor rectangle.
pub open spec fn spec_item_ctx(clip: crate::scissor::ClipRect, ppp_fx: int, w: int, h: int) -> RenderCtx {
    RenderCtx {
        w_px: w,
        h_px: h,
        w_pts_fx: spec_screen_pts(w, ppp_fx),
        h_pts_fx: spec_screen_pts(h, ppp_fx),
        sx: spec_scissor_min_x(clip, ppp_fx, w),
        sy: spec_scissor_min_y(clip, ppp_fx, h),
        sw: spec_scissor_max_x(clip, ppp_fx, w) - spec_scissor_min_x(clip, ppp_fx, w),
        sh: spec_scissor_max_y(clip, ppp_fx, h) - spec_scissor_min_y(clip, ppp_fx, h),
    }
}

/// One draw item applied to the color and depth buffers.  A non-mesh
/// primitive is skipped; a mesh naming an unseen texture is the second
/// fatal protocol violation; a texture without texels offers nothing
/// to sample, so such an item paints nothing.
pub open spec fn spec_render_item(
    m: Map<TextureId, TexView>,
    item: ClippedPrimitive,
    ppp_fx: int,
    w: int,
    h: int,
    fb: Seq<u32>,
    dep: Seq<u32>,
) -> Result<(Seq<u32>, Seq<u32>), PaintError> {
    match item.primitive {
        Primitive::Unsupported => Result::Ok((fb, dep)),
        Primitive::Mesh(mesh) => {
            if !m.dom().contains(mesh.texture_id) {
                Result::Err(PaintError::MeshAbsentTexture)
            } else {
                let t = m[mesh.texture_id];
                if t.width < 1 || t.height < 1 {
                    Result::Ok((fb, dep))
                } else {
                    let ctx = spec_item_ctx(item.clip_rect, ppp_fx, w, h);
                    Result::Ok(
                        (
                            spec_raster_mesh(
                                fb,
                                mesh.vertices@,
                                mesh.indices@,
                                t,
                                ctx,
                                (mesh.indices@.len() / 3) as nat,
                            ),
                            spec_raster_mesh_depth(
                                dep,
                                mesh.vertices@,
                                mesh.indices@,
                                ctx,
                                (mesh.indices@.len() / 3) as nat,
                            ),
                        ),
                    )
                }
            }
        },
    }
}

/// The color and depth buffers after the first `k` draw items, both
/// reset to background (zero) and far (one) at the start, or the first
/// fatal violation among those items.
pub open spec fn spec_render_upto(
    m: Map<TextureId, TexView>,
    items: Seq<ClippedPrimitive>,
    ppp_fx: int,
    w: int,
    h: int,
    k: nat,
) -> Result<(Seq<u32>, Seq<u32>), PaintError>
    decreases k,
{
    if k == 0 {
        Result::Ok(
            (Seq::new((w * h) as nat, |i: int| 0u32), Seq::new((w * h) as nat, |i: int| DEPTH_FAR)),
        )
    } else {
        match spec_render_upto(m, items, ppp_fx, w, h, (k - 1) as nat) {
            Result::Err(e) => Result::Err(e),
            Result::Ok(p) => spec_render_item(m, items[k - 1], ppp_fx, w, h, p.0, p.1),
        }
    }
}

/// Once a draw item has failed, every longer prefix fails with the
/// same error: the first violation decides.
proof fn lemma_render_err_stable(
    m: Map<TextureId, TexView>,
    items: Seq<ClippedPrimitive>,
    ppp_fx: int,
    w: int,
    h: int,
    k: nat,
    n: nat,
)
    requires
        k <= n,
        spec_render_upto(m, items, ppp_fx, w, h, k) is Err,
    ensures
        spec_render_upto(m, items, ppp_fx, w, h, n) == spec_render_upto(m, items, ppp_fx, w, h, k),
    decreases n - k,
{
    if n > k {
        lemma_render_err_stable(m, items, ppp_fx, w, h, k, (n - 1) as nat);
    }
}

/// What a whole paint call does: apply the creations and patches, in
/// order; render the draw items, in order, into buffers reset to
/// background and far; free the evicted textures strictly after
/// rendering.  The first protocol violation aborts the call before it
/// produces output.
pub open spec fn spec_paint(
    m0: Map<TextureId, TexView>,
    sets: Seq<(TextureId, ImageDelta)>,
    frees: Seq<TextureId>,
    items: Seq<ClippedPrimitive>,
    ppp_fx: int,
    w: int,
    h: int,
) -> Result<(Map<TextureId, TexView>, Seq<u32>), PaintError> {
    match spec_alloc_upto(m0, sets, sets.len()) {
        Result::Err(e) => Result::Err(e),
        Result::Ok(m1) => match spec_render_upto(m1, items, ppp_fx, w, h, items.len()) {
            Result::Err(e) => Result::Err(e),
            Result::Ok(p) => Result::Ok((Painter::spec_freed(m1, frees, frees.len()), p.0)),
        },
    }
}

/// A persistent object which tracks textures and can render an image
/// from clipped primitives.
pub struct Painter {
    slots: Vec<Option<SoftwareTexture>>,
    index: TexIndex,
}

impl View for Painter {
    type V = Map<TextureId, TexView>;

    /// The store as a map from texture identifier to texture value.
    closed spec fn view(&self) -> Map<TextureId, TexView> {
        Map::new(
            |id: TextureId| index_contents(self.index).dom().contains(spec_tex_key(id)),
            |id: TextureId|
                self.slots@[index_contents(self.index)[spec_tex_key(id)] as int]->0@,
        )
    }
}

impl Painter {
    /// Every indexed key points at a live, well-formed texture slot,
    /// and no two keys share a slot.
    pub closed spec fn wf(&self) -> bool {
        let c = index_contents(self.index);
        &&& forall|k: u128|
            c.dom().contains(k) ==> c[k] < self.slots@.len() && self.slots@[#[trigger] c[k] as int]
                is Some && self.slots@[c[k] as int]->0.wf()
        &&& forall|k1: u128, k2: u128|
            c.dom().contains(k1) && c.dom().contains(k2) && k1 != k2 ==> #[trigger] c[k1]
                != #[trigger] c[k2]
    }

    /// A painter with no textures.
    pub fn new() -> (p: Painter)
        ensures
            p.wf(),
            p@ == Map::<TextureId, TexView>::empty(),
    {
        let p = Painter { slots: Vec::new(), index: TexIndex::new() };
        proof {
            assert(p@ =~= Map::<TextureId, TexView>::empty());
        }
        p
    }

    /// The store after removing each freed identifier, in order.
    pub open spec fn spec_freed(
        m: Map<TextureId, TexView>,
        frees: Seq<TextureId>,
        k: nat,
    ) -> Map<TextureId, TexView>
        decreases k,
    {
        if k == 0 {
            m
        } else {
            Self::spec_freed(m, frees, (k - 1) as nat).remove(frees[k - 1])
        }
    }

    /// Applies the frame's creations and patches, in order.  A texture
    /// the store holds is updated in place; an unseen identifier is
    /// created from a whole-image delta; a patch naming an unseen
    /// identifier, or one reaching outside the stored bounds, aborts
    /// with an error at the first violation.
    #[verifier::loop_isolation(false)]
    fn allocate_textures(&mut self, textures_delta: &TexturesDelta) -> (r: Result<(), PaintError>)
        requires
            old(self).wf(),
            textures_delta.wf(),
        ensures
            final (self).wf(),
            match r {
                Ok(()) => spec_alloc_upto(
                    old(self)@,
                    textures_delta.set@,
                    textures_delta.set@.len() as nat,
                ) == Result::<Map<TextureId, TexView>, PaintError>::Ok(final (self)@),
                Err(e) => spec_alloc_upto(
                    old(self)@,
                    textures_delta.set@,
                    textures_delta.set@.len() as nat,
                ) == Result::<Map<TextureId, TexView>, PaintError>::Err(e),
            },
    {
        let ghost m0 = old(self)@;
        let ghost sets = textures_delta.set@;
        let n = textures_delta.set.len();
        let mut i: usize = 0;
        while i < n
            invariant
                i <= n,
                self.wf(),
                spec_alloc_upto(m0, sets, i as nat) == Result::<Map<TextureId, TexView>,
                    PaintError,
                >::Ok(self@),
            decreases n - i,
        {
            let pair = &textures_delta.set[i];
            let id = pair.0;
            let delta = &pair.1;
            let k = tex_key(id);
            let ghost pre = *self;
            proof {
                lemma_tex_key_injective();
            }
            match self.index.get(k) {
                Option::Some(ix) => {
                    // The identifier is stored: update the texture in
                    // its slot.
                    let ghost told = pre@[id];
                    let slot = &mut self.slots[ix];
                    match slot {
                        Option::Some(tex) => {
                            let r = tex.update(delta);
                            match r {
                                Ok(()) => {
                                    proof {
                                        assert forall|id2: TextureId|
                                            index_contents(self.index).dom().contains(
                                                spec_tex_key(id2),
                                            ) && spec_tex_key(id2) != spec_tex_key(id) implies
                                            index_contents(self.index)[spec_tex_key(id2)]
                                            != ix by {}
                                        assert(self@ =~= pre@.insert(
                                            id,
                                            spec_tex_after_update(told, pair.1),
                                        ));
                                    }
                                },
                                Err(e) => {
                                    proof {
                                        assert(self@ =~= pre@);
                                        lemma_alloc_err_stable(m0, sets, (i + 1) as nat, n as nat);
                                    }
                                    return Err(e);
                                },
                            }
                        },
                        Option::None => {
                            // A stored key always points at a live
                            // slot, so this arm cannot be reached.
                            proof {
                                assert(false);
                            }
                            return Err(PaintError::PatchAbsentTexture);
                        },
                    }
                },
                Option::None => {
                    if delta.is_whole() {
                        // An unseen identifier with a whole image:
                        // create the texture.
                        let tex = SoftwareTexture::new(&delta.image, delta.options);
                        let ix = place_texture(&mut self.slots, tex);
                        self.index.insert(k, ix);
                        proof {
                            assert forall|k2: u128|
                                index_contents(pre.index).dom().contains(k2) implies
                                index_contents(pre.index)[k2] < pre.slots@.len()
                                    && index_contents(pre.index)[k2] != ix by {}
                            assert(self.wf());
                            assert(self@ =~= pre@.insert(id, spec_created(pair.1)));
                        }
                    } else {
                        proof {
                            lemma_alloc_err_stable(m0, sets, (i + 1) as nat, n as nat);
                        }
                        return Err(PaintError::PatchAbsentTexture);
                    }
                },
            }
            i += 1;
        }
        Ok(())
    }

    /// Removes each texture named by the free list.  Freeing an
    /// identifier the store does not hold is a no-op, as in the
    /// underlying map.
    #[verifier::loop_isolation(false)]
    fn free_textures(&mut self, textures_delta: &TexturesDelta)
        requires
            old(self).wf(),
        ensures
            final (self).wf(),
            final (self)@ == Self::spec_freed(
                old(self)@,
                textures_delta.free@,
                textures_delta.free@.len() as nat,
            ),
    {
        let frees = &textures_delta.free;
        let n = frees.len();
        let mut i: usize = 0;
        while i < n
            invariant
                i <= n,
                self.wf(),
                self@ == Self::spec_freed(old(self)@, frees@, i as nat),
            decreases n - i,
        {
            let id = frees[i];
            let k = tex_key(id);
            let ghost pre = *self;
            match self.index.get(k) {
                Option::Some(ix) => {
                    self.slots.set(ix, Option::None);
                    self.index.remove(k);
                    proof {
                        lemma_tex_key_injective();
                        assert forall|id2: TextureId|
                            self@.dom().contains(id2) implies pre@.dom().contains(id2) && self@[id2]
                            == pre@[id2] && id2 != id by {
                            let c0 = index_contents(pre.index);
                            let k2 = spec_tex_key(id2);
                            assert(c0[k2] != ix);
                        }
                        assert(self@ =~= pre@.remove(id));
                    }
                },
                Option::None => {
                    proof {
                        lemma_tex_key_injective();
                        assert(self@ =~= pre@.remove(id));
                    }
                },
            }
            i += 1;
        }
    }

    /// Renders the ordered draw-item list into a fresh color buffer,
    /// reset to background, against a fresh depth buffer, reset to
    /// far.  Items are painted in list order: later items blend over
    /// earlier ones.
    #[verifier::loop_isolation(false)]
    fn render(
        &self,
        clipped_primitives: &Vec<ClippedPrimitive>,
        pixels_per_point_fx: i64,
        screen_size: [usize; 2],
    ) -> (r: Result<FrameBuffer, PaintError>)
        requires
            self.wf(),
            1 <= screen_size[0] <= MAX_DIM,
            1 <= screen_size[1] <= MAX_DIM,
            PPP_MIN <= pixels_per_point_fx <= PPP_MAX,
            forall|i: int|
                0 <= i < clipped_primitives@.len() ==> (#[trigger] clipped_primitives@[i]).wf(),
        ensures
            match r {
                Ok(fb) => fb.wf() && fb.spec_width() == screen_size[0] && fb.spec_height()
                    == screen_size[1] && (spec_render_upto(
                    self@,
                    clipped_primitives@,
                    pixels_per_point_fx as int,
                    screen_size[0] as int,
                    screen_size[1] as int,
                    clipped_primitives@.len(),
                ) matches Ok(p) && fb.view() == p.0),
                Err(e) => spec_render_upto(
                    self@,
                    clipped_primitives@,
                    pixels_per_point_fx as int,
                    screen_size[0] as int,
                    screen_size[1] as int,
                    clipped_primitives@.len(),
                ) == Result::<(Seq<u32>, Seq<u32>), PaintError>::Err(e),
            },
    {
        let w = screen_size[0];
        let h = screen_size[1];
        let w_pts = screen_pts(w, pixels_per_point_fx);
        let h_pts = screen_pts(h, pixels_per_point_fx);
        let ghost ppp = pixels_per_point_fx as int;
        let ghost items = clipped_primitives@;

        let mut color_fb = FrameBuffer::new(w, h, 0);
        let mut depth = FrameBuffer::new(w, h, DEPTH_FAR);
        proof {
            assert(color_fb.view() =~= Seq::new((w as int * h as int) as nat, |i: int| 0u32));
            assert(depth.view() =~= Seq::new((w as int * h as int) as nat, |i: int| DEPTH_FAR));
        }

        let n = clipped_primitives.len();
        let mut i: usize = 0;
        while i < n
            invariant
                i <= n,
                color_fb.wf(),
                color_fb.spec_width() == w,
                color_fb.spec_height() == h,
                depth.wf(),
                depth.spec_width() == w,
                depth.spec_height() == h,
                spec_render_upto(self@, items, ppp, w as int, h as int, i as nat)
                    == Result::<(Seq<u32>, Seq<u32>), PaintError>::Ok(
                    (color_fb.view(), depth.view()),
                ),
            decreases n - i,
        {
            let item = &clipped_primitives[i];
            match &item.primitive {
                Primitive::Unsupported => {
                    // Only mesh primitives are handled; others are
                    // explicitly unsupported and skipped.
                },
                Primitive::Mesh(mesh) => {
                    let k = tex_key(mesh.texture_id);
                    match self.index.get(k) {
                        Option::None => {
                            proof {
                                lemma_render_err_stable(
                                    self@,
                                    items,
                                    ppp,
                                    w as int,
                                    h as int,
                                    (i + 1) as nat,
                                    n as nat,
                                );
                            }
                            return Err(PaintError::MeshAbsentTexture);
                        },
                        Option::Some(ix) => {
                            match &self.slots[ix] {
                                Option::Some(tex) => {
                                    proof {
                                        assert(self@.dom().contains(mesh.texture_id));
                                        assert(self@[mesh.texture_id] == tex@);
                                    }
                                    if tex.width() < 1 || tex.height() < 1 {
                                        // A texture without texels
                                        // offers nothing to sample:
                                        // the item paints nothing.
                                    } else {
                                        let mut scissor = Scissor::from_clip_rect(
                                            color_fb,
                                            screen_size,
                                            pixels_per_point_fx,
                                            item.clip_rect,
                                        );
                                        render_mesh(
                                            &mut scissor,
                                            &mut depth,
                                            mesh,
                                            tex,
                                            w_pts,
                                            h_pts,
                                        );
                                        color_fb = scissor.inner;
                                    }
                                },
                                Option::None => {
                                    // A stored key always points at a
                                    // live slot, so this arm cannot be
                                    // reached.
                                    proof {
                                        assert(false);
                                    }
                                    return Err(PaintError::MeshAbsentTexture);
                                },
                            }
                        },
                    }
                },
            }
            i += 1;
        }
        Ok(color_fb)
    }

    /// One whole frame: apply the frame's texture creations and
    /// patches, render the ordered draw items into a fresh buffer pair
    /// (later items blend over earlier ones), free the evicted
    /// textures strictly after rendering, and return the finished
    /// color buffer.  The first protocol violation aborts the call
    /// with its error before any output is produced.
    pub fn paint_and_update_textures(
        &mut self,
        textures_delta: &TexturesDelta,
        clipped_primitives: &Vec<ClippedPrimitive>,
        pixels_per_point_fx: i64,
        screen_size: [usize; 2],
    ) -> (r: Result<FrameBuffer, PaintError>)
        requires
            old(self).wf(),
            textures_delta.wf(),
            1 <= screen_size[0] <= MAX_DIM,
            1 <= screen_size[1] <= MAX_DIM,
            PPP_MIN <= pixels_per_point_fx <= PPP_MAX,
            forall|i: int|
                0 <= i < clipped_primitives@.len() ==> (#[trigger] clipped_primitives@[i]).wf(),
        ensures
            final (self).wf(),
            match r {
                Ok(fb) => fb.wf() && fb.spec_width() == screen_size[0] && fb.spec_height()
                    == screen_size[1] && (spec_paint(
                    old(self)@,
                    textures_delta.set@,
                    textures_delta.free@,
                    clipped_primitives@,
                    pixels_per_point_fx as int,
                    screen_size[0] as int,
                    screen_size[1] as int,
                ) matches Ok(p) && final (self)@ == p.0 && fb.view() == p.1),
                Err(e) => spec_paint(
                    old(self)@,
                    textures_delta.set@,
                    textures_delta.free@,
                    clipped_primitives@,
                    pixels_per_point_fx as int,
                    screen_size[0] as int,
                    screen_size[1] as int,
                ) == Result::<(Map<TextureId, TexView>, Seq<u32>), PaintError>::Err(e)
                    && (spec_alloc_upto(
                    old(self)@,
                    textures_delta.set@,
                    textures_delta.set@.len() as nat,
                ) matches Ok(m1) ==> final (self)@ == m1),
            },
    {
        match self.allocate_textures(textures_delta) {
            Err(e) => {
                return Err(e);
            },
            Ok(()) => {},
        }
        let image = match self.render(clipped_primitives, pixels_per_point_fx, screen_size) {
            Err(e) => {
                return Err(e);
            },
            Ok(fb) => fb,
        };
        self.free_textures(textures_delta);
        Ok(image)
    }
}

} // verus!
