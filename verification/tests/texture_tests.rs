use softpaint::error::PaintError;
use softpaint::texture::{
    ColorImage, ImageDelta, SoftwareTexture, TextureFilter, TextureOptions, TextureWrapMode,
};

fn opts() -> TextureOptions {
    TextureOptions {
        magnification: TextureFilter::Nearest,
        wrap_mode: TextureWrapMode::ClampToEdge,
    }
}

fn image(width: usize, height: usize, pixels: Vec<u32>) -> ColorImage {
    assert_eq!(pixels.len(), width * height);
    ColorImage { width, height, pixels }
}

fn texels(t: &SoftwareTexture) -> Vec<u32> {
    let mut out = Vec::new();
    for y in 0..t.height() {
        for x in 0..t.width() {
            out.push(t.texel(x, y));
        }
    }
    out
}

#[test]
fn create_stores_the_image() {
    let pixels = vec![1, 2, 3, 4, 5, 6];
    let t = SoftwareTexture::new(&image(3, 2, pixels.clone()), opts());
    assert_eq!(t.width(), 3);
    assert_eq!(t.height(), 2);
    assert_eq!(texels(&t), pixels);
}

#[test]
fn create_then_identical_full_patch_is_unchanged() {
    let pixels = vec![10, 20, 30, 40];
    let mut t = SoftwareTexture::new(&image(2, 2, pixels.clone()), opts());
    let delta = ImageDelta { image: image(2, 2, pixels.clone()), options: opts(), pos: None };
    assert!(t.update(&delta).is_ok());
    assert_eq!(texels(&t), pixels);
}

#[test]
fn partial_patch_changes_only_its_region() {
    let mut t = SoftwareTexture::new(&image(3, 3, vec![0; 9]), opts());
    let delta = ImageDelta {
        image: image(2, 1, vec![7, 8]),
        options: opts(),
        pos: Some([1, 2]),
    };
    assert!(t.update(&delta).is_ok());
    assert_eq!(texels(&t), vec![0, 0, 0, 0, 0, 0, 0, 7, 8]);
}

#[test]
fn out_of_bounds_patch_is_rejected_and_harmless() {
    let mut t = SoftwareTexture::new(&image(2, 2, vec![1, 2, 3, 4]), opts());
    let delta = ImageDelta {
        image: image(2, 1, vec![9, 9]),
        options: opts(),
        pos: Some([1, 0]),
    };
    assert_eq!(t.update(&delta), Err(PaintError::PatchOutOfBounds));
    assert_eq!(texels(&t), vec![1, 2, 3, 4]);
}

#[test]
fn whole_delta_of_new_size_replaces() {
    let mut t = SoftwareTexture::new(&image(2, 2, vec![1, 2, 3, 4]), opts());
    let delta = ImageDelta {
        image: image(1, 3, vec![5, 6, 7]),
        options: opts(),
        pos: None,
    };
    assert!(t.update(&delta).is_ok());
    assert_eq!(t.width(), 1);
    assert_eq!(t.height(), 3);
    assert_eq!(texels(&t), vec![5, 6, 7]);
}

#[test]
fn update_takes_over_the_options() {
    let mut t = SoftwareTexture::new(&image(1, 1, vec![1]), opts());
    let new_opts = TextureOptions {
        magnification: TextureFilter::Linear,
        wrap_mode: TextureWrapMode::Repeat,
    };
    let delta = ImageDelta { image: image(1, 1, vec![2]), options: new_opts, pos: Some([0, 0]) };
    assert!(t.update(&delta).is_ok());
    assert_eq!(t.options(), new_opts);
    assert_eq!(texels(&t), vec![2]);
}
