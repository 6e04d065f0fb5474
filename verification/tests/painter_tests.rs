use softpaint::color::Color;
use softpaint::error::PaintError;
use softpaint::fx::FX_ONE;
use softpaint::painter::{Painter, TexturesDelta};
use softpaint::pipeline::{ClippedPrimitive, Mesh, Primitive, Vertex};
use softpaint::scissor::ClipRect;
use softpaint::texture::{
    ColorImage, ImageDelta, TextureFilter, TextureId, TextureOptions, TextureWrapMode,
};

const RED: u32 = 0xff0000ff;
const WHITE: Color = Color { r: 255, g: 255, b: 255, a: 255 };

fn nearest_clamp() -> TextureOptions {
    TextureOptions {
        magnification: TextureFilter::Nearest,
        wrap_mode: TextureWrapMode::ClampToEdge,
    }
}

fn red_texture_delta(id: TextureId) -> (TextureId, ImageDelta) {
    (
        id,
        ImageDelta {
            image: ColorImage { width: 2, height: 2, pixels: vec![RED; 4] },
            options: nearest_clamp(),
            pos: None,
        },
    )
}

fn vertex(x_pts: i64, y_pts: i64, u: i64, v: i64, color: Color) -> Vertex {
    Vertex {
        pos_x_fx: x_pts * FX_ONE,
        pos_y_fx: y_pts * FX_ONE,
        u_fx: u,
        v_fx: v,
        color,
    }
}

/// A two-triangle quad over the given rectangle in UI points, with UV
/// corners (0,0)-(1,1) and one vertex color.
fn quad_mesh(id: TextureId, x0: i64, y0: i64, x1: i64, y1: i64, color: Color) -> Mesh {
    Mesh {
        texture_id: id,
        vertices: vec![
            vertex(x0, y0, 0, 0, color),
            vertex(x1, y0, FX_ONE, 0, color),
            vertex(x1, y1, FX_ONE, FX_ONE, color),
            vertex(x0, y1, 0, FX_ONE, color),
        ],
        indices: vec![0, 1, 2, 0, 2, 3],
    }
}

fn full_clip(w_pts: i64, h_pts: i64) -> ClipRect {
    ClipRect { min_x_fx: 0, min_y_fx: 0, max_x_fx: w_pts * FX_ONE, max_y_fx: h_pts * FX_ONE }
}

#[test]
fn full_screen_quad_paints_solid_red() {
    let id = TextureId::Managed(0);
    let mut painter = Painter::new();
    let deltas = TexturesDelta { set: vec![red_texture_delta(id)], free: vec![] };
    let items = vec![ClippedPrimitive {
        clip_rect: full_clip(4, 4),
        primitive: Primitive::Mesh(quad_mesh(id, 0, 0, 4, 4, WHITE)),
    }];
    let fb = painter
        .paint_and_update_textures(&deltas, &items, FX_ONE, [4, 4])
        .expect("paint should succeed");
    for y in 0..4 {
        for x in 0..4 {
            assert_eq!(fb.read(x, y), RED, "pixel ({x}, {y})");
        }
    }
}

#[test]
fn left_half_clip_leaves_right_half_background() {
    let id = TextureId::Managed(0);
    let mut painter = Painter::new();
    let deltas = TexturesDelta { set: vec![red_texture_delta(id)], free: vec![] };
    let items = vec![ClippedPrimitive {
        clip_rect: ClipRect { min_x_fx: 0, min_y_fx: 0, max_x_fx: 2 * FX_ONE, max_y_fx: 4 * FX_ONE },
        primitive: Primitive::Mesh(quad_mesh(id, 0, 0, 4, 4, WHITE)),
    }];
    let fb = painter
        .paint_and_update_textures(&deltas, &items, FX_ONE, [4, 4])
        .expect("paint should succeed");
    for y in 0..4 {
        for x in 0..4 {
            let expected = if x < 2 { RED } else { 0 };
            assert_eq!(fb.read(x, y), expected, "pixel ({x}, {y})");
        }
    }
}

#[test]
fn patch_on_absent_texture_aborts_the_frame() {
    let mut painter = Painter::new();
    let patch = ImageDelta {
        image: ColorImage { width: 1, height: 1, pixels: vec![RED] },
        options: nearest_clamp(),
        pos: Some([0, 0]),
    };
    let deltas = TexturesDelta { set: vec![(TextureId::Managed(9), patch)], free: vec![] };
    let r = painter.paint_and_update_textures(&deltas, &vec![], FX_ONE, [2, 2]);
    assert_eq!(r.err(), Some(PaintError::PatchAbsentTexture));
}

#[test]
fn mesh_on_absent_texture_aborts_the_frame() {
    let mut painter = Painter::new();
    let deltas = TexturesDelta { set: vec![], free: vec![] };
    let items = vec![ClippedPrimitive {
        clip_rect: full_clip(2, 2),
        primitive: Primitive::Mesh(quad_mesh(TextureId::User(3), 0, 0, 2, 2, WHITE)),
    }];
    let r = painter.paint_and_update_textures(&deltas, &items, FX_ONE, [2, 2]);
    assert_eq!(r.err(), Some(PaintError::MeshAbsentTexture));
}

#[test]
fn oversized_patch_aborts_the_frame() {
    let id = TextureId::Managed(1);
    let mut painter = Painter::new();
    let deltas = TexturesDelta { set: vec![red_texture_delta(id)], free: vec![] };
    let r = painter.paint_and_update_textures(&deltas, &vec![], FX_ONE, [2, 2]);
    assert!(r.is_ok());
    let oversized = ImageDelta {
        image: ColorImage { width: 3, height: 1, pixels: vec![RED; 3] },
        options: nearest_clamp(),
        pos: Some([0, 0]),
    };
    let deltas = TexturesDelta { set: vec![(id, oversized)], free: vec![] };
    let r = painter.paint_and_update_textures(&deltas, &vec![], FX_ONE, [2, 2]);
    assert_eq!(r.err(), Some(PaintError::PatchOutOfBounds));
}

#[test]
fn frees_apply_only_after_rendering() {
    let id = TextureId::Managed(2);
    let mut painter = Painter::new();
    // The same frame creates the texture, draws with it, and frees it:
    // the draw must still see it.
    let deltas = TexturesDelta { set: vec![red_texture_delta(id)], free: vec![id] };
    let items = vec![ClippedPrimitive {
        clip_rect: full_clip(2, 2),
        primitive: Primitive::Mesh(quad_mesh(id, 0, 0, 2, 2, WHITE)),
    }];
    let fb = painter
        .paint_and_update_textures(&deltas, &items, FX_ONE, [2, 2])
        .expect("paint should succeed");
    assert_eq!(fb.read(0, 0), RED);
    // The next frame no longer holds the texture.
    let deltas = TexturesDelta { set: vec![], free: vec![] };
    let r = painter.paint_and_update_textures(&deltas, &items, FX_ONE, [2, 2]);
    assert_eq!(r.err(), Some(PaintError::MeshAbsentTexture));
}

#[test]
fn unsupported_primitives_are_skipped() {
    let mut painter = Painter::new();
    let deltas = TexturesDelta { set: vec![], free: vec![] };
    let items = vec![ClippedPrimitive {
        clip_rect: full_clip(2, 2),
        primitive: Primitive::Unsupported,
    }];
    let fb = painter
        .paint_and_update_textures(&deltas, &items, FX_ONE, [2, 2])
        .expect("paint should succeed");
    for y in 0..2 {
        for x in 0..2 {
            assert_eq!(fb.read(x, y), 0);
        }
    }
}

#[test]
fn later_items_blend_over_earlier_ones() {
    let red_id = TextureId::Managed(0);
    let white_id = TextureId::Managed(1);
    let mut painter = Painter::new();
    let white_delta = (
        white_id,
        ImageDelta {
            image: ColorImage { width: 1, height: 1, pixels: vec![0xffffffff] },
            options: nearest_clamp(),
            pos: None,
        },
    );
    let deltas = TexturesDelta {
        set: vec![red_texture_delta(red_id), white_delta],
        free: vec![],
    };
    // First a full-screen red quad, then a white quad over the top row.
    let items = vec![
        ClippedPrimitive {
            clip_rect: full_clip(2, 2),
            primitive: Primitive::Mesh(quad_mesh(red_id, 0, 0, 2, 2, WHITE)),
        },
        ClippedPrimitive {
            clip_rect: full_clip(2, 2),
            primitive: Primitive::Mesh(quad_mesh(white_id, 0, 0, 2, 1, WHITE)),
        },
    ];
    let fb = painter
        .paint_and_update_textures(&deltas, &items, FX_ONE, [2, 2])
        .expect("paint should succeed");
    assert_eq!(fb.read(0, 0), 0xffffffff);
    assert_eq!(fb.read(1, 0), 0xffffffff);
    assert_eq!(fb.read(0, 1), RED);
    assert_eq!(fb.read(1, 1), RED);
}

#[test]
fn half_pixel_ratio_scales_the_geometry() {
    // At a pixel ratio of two, a 2x2-point quad covers a 4x4-pixel
    // screen.
    let id = TextureId::Managed(0);
    let mut painter = Painter::new();
    let deltas = TexturesDelta { set: vec![red_texture_delta(id)], free: vec![] };
    let items = vec![ClippedPrimitive {
        clip_rect: full_clip(2, 2),
        primitive: Primitive::Mesh(quad_mesh(id, 0, 0, 2, 2, WHITE)),
    }];
    let fb = painter
        .paint_and_update_textures(&deltas, &items, 2 * FX_ONE, [4, 4])
        .expect("paint should succeed");
    for y in 0..4 {
        for x in 0..4 {
            assert_eq!(fb.read(x, y), RED, "pixel ({x}, {y})");
        }
    }
}

#[test]
fn into_raw_returns_row_major_pixels() {
    let id = TextureId::Managed(0);
    let mut painter = Painter::new();
    let deltas = TexturesDelta { set: vec![red_texture_delta(id)], free: vec![] };
    let items = vec![ClippedPrimitive {
        clip_rect: ClipRect { min_x_fx: 0, min_y_fx: 0, max_x_fx: 2 * FX_ONE, max_y_fx: FX_ONE },
        primitive: Primitive::Mesh(quad_mesh(id, 0, 0, 2, 2, WHITE)),
    }];
    let fb = painter
        .paint_and_update_textures(&deltas, &items, FX_ONE, [2, 2])
        .expect("paint should succeed");
    let raw = fb.into_raw();
    assert_eq!(raw, vec![RED, RED, 0, 0]);
}

#[test]
fn empty_mesh_paints_nothing() {
    let id = TextureId::Managed(0);
    let mut painter = Painter::new();
    let deltas = TexturesDelta { set: vec![red_texture_delta(id)], free: vec![] };
    let items = vec![ClippedPrimitive {
        clip_rect: full_clip(2, 2),
        primitive: Primitive::Mesh(Mesh { texture_id: id, vertices: vec![], indices: vec![] }),
    }];
    let fb = painter
        .paint_and_update_textures(&deltas, &items, FX_ONE, [2, 2])
        .expect("paint should succeed");
    assert_eq!(fb.into_raw(), vec![0; 4]);
}

#[test]
fn degenerate_triangle_covers_no_pixel() {
    let id = TextureId::Managed(0);
    let mut painter = Painter::new();
    let deltas = TexturesDelta { set: vec![red_texture_delta(id)], free: vec![] };
    // Three collinear vertices: zero area, nothing is covered.
    let mesh = Mesh {
        texture_id: id,
        vertices: vec![
            vertex(0, 1, 0, 0, WHITE),
            vertex(2, 1, FX_ONE, 0, WHITE),
            vertex(4, 1, FX_ONE, FX_ONE, WHITE),
        ],
        indices: vec![0, 1, 2],
    };
    let items = vec![ClippedPrimitive {
        clip_rect: full_clip(4, 4),
        primitive: Primitive::Mesh(mesh),
    }];
    let fb = painter
        .paint_and_update_textures(&deltas, &items, FX_ONE, [4, 4])
        .expect("paint should succeed");
    assert_eq!(fb.into_raw(), vec![0; 16]);
}

#[test]
fn create_and_patch_in_one_frame_apply_in_order() {
    const GREEN: u32 = 0xff00ff00;
    let id = TextureId::Managed(0);
    let mut painter = Painter::new();
    let create = ImageDelta {
        image: ColorImage { width: 1, height: 1, pixels: vec![RED] },
        options: nearest_clamp(),
        pos: None,
    };
    let patch = ImageDelta {
        image: ColorImage { width: 1, height: 1, pixels: vec![GREEN] },
        options: nearest_clamp(),
        pos: Some([0, 0]),
    };
    let deltas = TexturesDelta { set: vec![(id, create), (id, patch)], free: vec![] };
    let items = vec![ClippedPrimitive {
        clip_rect: full_clip(2, 2),
        primitive: Primitive::Mesh(quad_mesh(id, 0, 0, 2, 2, WHITE)),
    }];
    let fb = painter
        .paint_and_update_textures(&deltas, &items, FX_ONE, [2, 2])
        .expect("paint should succeed");
    assert_eq!(fb.read(0, 0), GREEN);
    assert_eq!(fb.read(1, 1), GREEN);
}

#[test]
fn vertex_tint_scales_the_sampled_color() {
    let id = TextureId::Managed(0);
    let mut painter = Painter::new();
    let white_delta = ImageDelta {
        image: ColorImage { width: 1, height: 1, pixels: vec![0xffffffff] },
        options: nearest_clamp(),
        pos: None,
    };
    let deltas = TexturesDelta { set: vec![(id, white_delta)], free: vec![] };
    let half = Color { r: 128, g: 128, b: 128, a: 128 };
    let items = vec![ClippedPrimitive {
        clip_rect: full_clip(2, 2),
        primitive: Primitive::Mesh(quad_mesh(id, 0, 0, 2, 2, half)),
    }];
    let fb = painter
        .paint_and_update_textures(&deltas, &items, FX_ONE, [2, 2])
        .expect("paint should succeed");
    // Off the quad's shared diagonal one triangle covers the pixel:
    // half gray times white, composited once over background.
    assert_eq!(fb.read(1, 0), 0x80808080);
    assert_eq!(fb.read(0, 1), 0x80808080);
    // On the diagonal both triangles cover the pixel center, so the
    // translucent fragment is composited twice.
    assert_eq!(fb.read(0, 0), 0xc0c0c0c0);
    assert_eq!(fb.read(1, 1), 0xc0c0c0c0);
}

#[test]
fn vertex_colors_interpolate_across_the_quad() {
    let id = TextureId::Managed(0);
    let mut painter = Painter::new();
    let white_delta = ImageDelta {
        image: ColorImage { width: 1, height: 1, pixels: vec![0xffffffff] },
        options: nearest_clamp(),
        pos: None,
    };
    let deltas = TexturesDelta { set: vec![(id, white_delta)], free: vec![] };
    let black = Color { r: 0, g: 0, b: 0, a: 255 };
    // Black on the left edge, white on the right edge.
    let mesh = Mesh {
        texture_id: id,
        vertices: vec![
            vertex(0, 0, 0, 0, black),
            vertex(8, 0, FX_ONE, 0, WHITE),
            vertex(8, 2, FX_ONE, FX_ONE, WHITE),
            vertex(0, 2, 0, FX_ONE, black),
        ],
        indices: vec![0, 1, 2, 0, 2, 3],
    };
    let items = vec![ClippedPrimitive {
        clip_rect: full_clip(8, 2),
        primitive: Primitive::Mesh(mesh),
    }];
    let fb = painter
        .paint_and_update_textures(&deltas, &items, FX_ONE, [8, 2])
        .expect("paint should succeed");
    let left = softpaint::color::unpack(fb.read(0, 0));
    let mid = softpaint::color::unpack(fb.read(4, 0));
    let right = softpaint::color::unpack(fb.read(7, 0));
    assert!(left.r < mid.r && mid.r < right.r);
    assert_eq!(left.a, 255);
    assert_eq!(right.a, 255);
}

#[test]
fn linear_filtered_texture_paints_exactly_on_single_texel() {
    let id = TextureId::Managed(0);
    let mut painter = Painter::new();
    let delta = ImageDelta {
        image: ColorImage { width: 1, height: 1, pixels: vec![0xffffffff] },
        options: TextureOptions {
            magnification: TextureFilter::Linear,
            wrap_mode: TextureWrapMode::Repeat,
        },
        pos: None,
    };
    let deltas = TexturesDelta { set: vec![(id, delta)], free: vec![] };
    let red = Color { r: 255, g: 0, b: 0, a: 255 };
    let items = vec![ClippedPrimitive {
        clip_rect: full_clip(2, 2),
        primitive: Primitive::Mesh(quad_mesh(id, 0, 0, 2, 2, red)),
    }];
    let fb = painter
        .paint_and_update_textures(&deltas, &items, FX_ONE, [2, 2])
        .expect("paint should succeed");
    assert_eq!(fb.into_raw(), vec![RED; 4]);
}
