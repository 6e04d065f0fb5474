use softpaint::fx::FX_ONE;
use softpaint::scissor::{ClipRect, FrameBuffer, Scissor};

fn clip(min_x: f64, min_y: f64, max_x: f64, max_y: f64) -> ClipRect {
    let fx = |v: f64| (v * FX_ONE as f64).round() as i64;
    ClipRect {
        min_x_fx: fx(min_x),
        min_y_fx: fx(min_y),
        max_x_fx: fx(max_x),
        max_y_fx: fx(max_y),
    }
}

#[test]
fn framebuffer_read_write() {
    let mut fb = FrameBuffer::new(4, 3, 7);
    assert_eq!(fb.width(), 4);
    assert_eq!(fb.height(), 3);
    assert_eq!(fb.read(2, 1), 7);
    fb.write(2, 1, 99);
    assert_eq!(fb.read(2, 1), 99);
    assert_eq!(fb.read(1, 2), 7);
}

#[test]
fn bounds_check_is_the_rectangle() {
    let s = Scissor::new((), 1, 2, 3, 4);
    assert!(s.bounds_check(1, 2));
    assert!(s.bounds_check(3, 5));
    assert!(!s.bounds_check(0, 2));
    assert!(!s.bounds_check(4, 2));
    assert!(!s.bounds_check(1, 6));
}

#[test]
fn clip_fully_inside_is_reproduced_exactly() {
    let s = Scissor::from_clip_rect((), [8, 8], FX_ONE, clip(1.0, 2.0, 5.0, 7.0));
    assert_eq!((s.x, s.y, s.width, s.height), (1, 2, 4, 5));
}

#[test]
fn clip_fully_outside_is_empty() {
    // Fully to the left of the screen.
    let s = Scissor::from_clip_rect((), [8, 8], FX_ONE, clip(-5.0, 1.0, -1.0, 3.0));
    assert_eq!(s.width, 0);
    // Fully below the screen.
    let s = Scissor::from_clip_rect((), [8, 8], FX_ONE, clip(1.0, 9.0, 3.0, 12.0));
    assert_eq!(s.height, 0);
}

#[test]
fn empty_clip_drops_every_write() {
    let fb = FrameBuffer::new(4, 4, 0);
    let mut s = Scissor::from_clip_rect(fb, [4, 4], FX_ONE, clip(-5.0, 0.0, -1.0, 4.0));
    assert_eq!(s.width, 0);
    s.write(2, 2, 123);
    let fb = s.inner;
    for y in 0..4 {
        for x in 0..4 {
            assert_eq!(fb.read(x, y), 0);
        }
    }
}

#[test]
fn inverted_clip_clamps_to_empty() {
    let s = Scissor::from_clip_rect((), [8, 8], FX_ONE, clip(6.0, 6.0, 2.0, 2.0));
    assert_eq!((s.width, s.height), (0, 0));
}

#[test]
fn overhanging_clip_is_clamped_to_the_screen() {
    let s = Scissor::from_clip_rect((), [8, 8], FX_ONE, clip(-2.0, 3.0, 20.0, 20.0));
    assert_eq!((s.x, s.y, s.width, s.height), (0, 3, 8, 5));
}

#[test]
fn clip_corners_round_to_nearest_pixel() {
    // At a pixel ratio of two, 0.25 points is half a device pixel,
    // which rounds away from zero to one.
    let s = Scissor::from_clip_rect((), [8, 8], 2 * FX_ONE, clip(0.25, 0.0, 2.2, 1.1));
    assert_eq!((s.x, s.y), (1, 0));
    // max x: 4.4 px rounds to 4; max y: 2.2 px rounds to 2.
    assert_eq!((s.width, s.height), (3, 2));
}

#[test]
fn scissored_write_passes_inside_and_drops_outside() {
    let fb = FrameBuffer::new(4, 4, 0);
    let mut s = Scissor::from_clip_rect(fb, [4, 4], FX_ONE, clip(1.0, 1.0, 3.0, 3.0));
    s.write(2, 2, 5);
    s.write(0, 0, 9);
    s.write(3, 2, 9);
    let fb = s.inner;
    assert_eq!(fb.read(2, 2), 5);
    assert_eq!(fb.read(0, 0), 0);
    assert_eq!(fb.read(3, 2), 0);
}

#[test]
fn reads_pass_through_unclipped() {
    let mut fb = FrameBuffer::new(4, 4, 0);
    fb.write(0, 0, 42);
    let s = Scissor::from_clip_rect(fb, [4, 4], FX_ONE, clip(1.0, 1.0, 3.0, 3.0));
    assert_eq!(s.read(0, 0), 42);
}
