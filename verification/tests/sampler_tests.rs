use softpaint::color::{pack, unpack, Color};
use softpaint::fx::FX_ONE;
use softpaint::sampler::sample;
use softpaint::texture::{
    ColorImage, SoftwareTexture, TextureFilter, TextureOptions, TextureWrapMode,
};

fn rgba(r: u8, g: u8, b: u8, a: u8) -> Color {
    Color { r, g, b, a }
}

fn tex(width: usize, height: usize, pixels: Vec<u32>, filter: TextureFilter, wrap: TextureWrapMode)
    -> SoftwareTexture {
    SoftwareTexture::new(
        &ColorImage { width, height, pixels },
        TextureOptions { magnification: filter, wrap_mode: wrap },
    )
}

fn four_texels() -> Vec<u32> {
    vec![
        pack(rgba(10, 0, 0, 255)),
        pack(rgba(20, 0, 0, 255)),
        pack(rgba(30, 0, 0, 255)),
        pack(rgba(40, 0, 0, 255)),
    ]
}

#[test]
fn nearest_at_texel_centers_returns_stored_texels() {
    let t = tex(2, 2, four_texels(), TextureFilter::Nearest, TextureWrapMode::ClampToEdge);
    // Texel centers of a 2x2 texture lie at 1/4 and 3/4.
    let q = FX_ONE / 4;
    assert_eq!(sample(&t, q, q), rgba(10, 0, 0, 255));
    assert_eq!(sample(&t, 3 * q, q), rgba(20, 0, 0, 255));
    assert_eq!(sample(&t, q, 3 * q), rgba(30, 0, 0, 255));
    assert_eq!(sample(&t, 3 * q, 3 * q), rgba(40, 0, 0, 255));
}

#[test]
fn repeat_wrap_is_periodic() {
    let t = tex(2, 2, four_texels(), TextureFilter::Nearest, TextureWrapMode::Repeat);
    let e = 1000;
    assert_eq!(sample(&t, FX_ONE + e, FX_ONE / 4), sample(&t, e, FX_ONE / 4));
    assert_eq!(sample(&t, -e, FX_ONE / 4), sample(&t, FX_ONE - e, FX_ONE / 4));
}

#[test]
fn clamp_wrap_saturates() {
    let t = tex(2, 2, four_texels(), TextureFilter::Nearest, TextureWrapMode::ClampToEdge);
    // Far left clamps to zero, far right to one: texel 0 and texel 1.
    assert_eq!(sample(&t, -3 * FX_ONE, FX_ONE / 4), rgba(10, 0, 0, 255));
    assert_eq!(sample(&t, 3 * FX_ONE, FX_ONE / 4), rgba(20, 0, 0, 255));
}

#[test]
fn mirror_wrap_reflects() {
    let t = tex(2, 2, four_texels(), TextureFilter::Nearest, TextureWrapMode::MirroredRepeat);
    // 1.25 reflects to 0.75.
    let u = FX_ONE + FX_ONE / 4;
    assert_eq!(sample(&t, u, FX_ONE / 4), sample(&t, 3 * FX_ONE / 4, FX_ONE / 4));
}

#[test]
fn linear_on_single_texel_is_exact() {
    let pixels = vec![pack(rgba(77, 88, 99, 200))];
    let t = tex(1, 1, pixels, TextureFilter::Linear, TextureWrapMode::ClampToEdge);
    assert_eq!(sample(&t, FX_ONE / 3, FX_ONE / 5), rgba(77, 88, 99, 200));
}

#[test]
fn linear_midpoint_blends_evenly() {
    let pixels = vec![pack(rgba(0, 0, 0, 255)), pack(rgba(255, 0, 0, 255))];
    let t = tex(2, 1, pixels, TextureFilter::Linear, TextureWrapMode::ClampToEdge);
    // Halfway between the two texel centers: an even blend, rounded.
    let c = sample(&t, FX_ONE / 2, FX_ONE / 2);
    assert_eq!(c, rgba(128, 0, 0, 255));
}

#[test]
fn linear_at_texel_center_is_the_texel() {
    let t = tex(2, 2, four_texels(), TextureFilter::Linear, TextureWrapMode::ClampToEdge);
    let q = FX_ONE / 4;
    assert_eq!(sample(&t, q, q), rgba(10, 0, 0, 255));
    assert_eq!(sample(&t, 3 * q, 3 * q), rgba(40, 0, 0, 255));
}

#[test]
fn unpack_of_packed_sentinel_is_opaque_red() {
    assert_eq!(unpack(0xff0000ff), rgba(255, 0, 0, 255));
}

#[test]
fn linear_repeat_is_periodic() {
    let pixels = vec![pack(rgba(0, 0, 0, 255)), pack(rgba(255, 0, 0, 255))];
    let t = tex(2, 1, pixels, TextureFilter::Linear, TextureWrapMode::Repeat);
    let u = FX_ONE + FX_ONE / 2;
    assert_eq!(sample(&t, u, 0), sample(&t, FX_ONE / 2, 0));
    assert_eq!(sample(&t, FX_ONE / 2, 0), rgba(128, 0, 0, 255));
}

#[test]
fn linear_mirror_reflects() {
    let pixels = vec![pack(rgba(0, 0, 0, 255)), pack(rgba(255, 0, 0, 255))];
    let t = tex(2, 1, pixels, TextureFilter::Linear, TextureWrapMode::MirroredRepeat);
    // 1.5 reflects to 0.5.
    let u = FX_ONE + FX_ONE / 2;
    assert_eq!(sample(&t, u, 0), sample(&t, FX_ONE / 2, 0));
}
