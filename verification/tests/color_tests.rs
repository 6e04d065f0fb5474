use softpaint::color::{blend_over, mul255, pack, tint, unpack, Color};

fn rgba(r: u8, g: u8, b: u8, a: u8) -> Color {
    Color { r, g, b, a }
}

#[test]
fn pack_unpack_roundtrip() {
    let c = rgba(1, 2, 3, 4);
    assert_eq!(unpack(pack(c)), c);
    let c = rgba(255, 0, 0, 255);
    assert_eq!(pack(c), 0xff0000ff);
    assert_eq!(unpack(0xff0000ff), c);
    let c = rgba(0x12, 0x34, 0x56, 0x78);
    assert_eq!(pack(c), 0x78563412);
    assert_eq!(unpack(pack(c)), c);
}

#[test]
fn mul255_exact_values() {
    assert_eq!(mul255(255, 255), 255);
    assert_eq!(mul255(255, 0), 0);
    assert_eq!(mul255(0, 128), 0);
    // 128 * 128 = 16384; (16384 + 127) / 255 = 64.
    assert_eq!(mul255(128, 128), 64);
}

#[test]
fn tint_white_keeps_color() {
    let red = rgba(255, 0, 0, 255);
    assert_eq!(tint(rgba(255, 255, 255, 255), red), red);
}

#[test]
fn tint_scales_channels() {
    // Channel-wise product, alpha included.
    let t = rgba(128, 255, 0, 255);
    let c = rgba(255, 128, 200, 128);
    let out = tint(t, c);
    assert_eq!(out, rgba(128, 128, 0, 128));
}

#[test]
fn blend_transparent_leaves_destination() {
    let dst = rgba(12, 34, 56, 78);
    assert_eq!(blend_over(dst, Color::transparent()), dst);
    assert_eq!(blend_over(rgba(0, 0, 0, 0), Color::transparent()), rgba(0, 0, 0, 0));
}

#[test]
fn blend_opaque_replaces_destination() {
    let dst = rgba(12, 34, 56, 78);
    let src = rgba(200, 100, 50, 255);
    assert_eq!(blend_over(dst, src), src);
}

#[test]
fn blend_exact_value() {
    // out.rgb = src.rgb + dst.rgb * (255 - src.a) / 255, rounded;
    // out.a = dst.a + src.a * (255 - dst.a) / 255, rounded.
    let dst = rgba(100, 50, 25, 200);
    let src = rgba(10, 20, 30, 40);
    assert_eq!(blend_over(dst, src), rgba(94, 62, 51, 209));
}
