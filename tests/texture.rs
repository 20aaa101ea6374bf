use scene_kit::texture::{texture_layout, RgbaImage, TexelFormat, TextureError, MAX_TEXTURE_WIDTH};
use scene_kit::viewport::Extent3;

const TWO_PIXEL_PNG: [u8; 71] = [
    137, 80, 78, 71, 13, 10, 26, 10, 0, 0, 0, 13, 73, 72, 68, 82, 0, 0, 0, 2, 0, 0, 0, 1, 8, 6,
    0, 0, 0, 244, 34, 127, 138, 0, 0, 0, 14, 73, 68, 65, 84, 120, 156, 99, 248, 207, 192, 0, 66,
    13, 0, 15, 122, 3, 126, 119, 233, 127, 151, 0, 0, 0, 0, 73, 69, 78, 68, 174, 66, 96, 130,
];

#[test]
fn decodes_png_to_rgba() {
    let img = RgbaImage::decode(&TWO_PIXEL_PNG).unwrap();
    assert_eq!(img.width(), 2);
    assert_eq!(img.height(), 1);
    assert_eq!(*img.pixels(), vec![255, 0, 0, 255, 0, 0, 255, 128]);
}

#[test]
fn garbage_is_not_an_image() {
    let r = RgbaImage::decode(&[1, 2, 3, 4, 5]);
    assert!(matches!(r, Err(TextureError::Decode(_))));
    assert!(RgbaImage::decode(&[]).is_err());
}

#[test]
fn colour_texture_layout() {
    let l = texture_layout(256, 128, false);
    assert_eq!(l.size, Extent3 { width: 256, height: 128, depth_or_array_layers: 1 });
    assert_eq!(l.format, TexelFormat::Rgba8UnormSrgb);
    assert_eq!(l.bytes_per_row, 1024);
    assert_eq!(l.rows_per_image, 128);
}

#[test]
fn normal_map_layout_is_linear() {
    let l = texture_layout(3, 5, true);
    assert_eq!(l.format, TexelFormat::Rgba8Unorm);
    assert_eq!(l.bytes_per_row, 12);
    assert_eq!(l.rows_per_image, 5);
}

#[test]
fn widest_texture_row_fits() {
    let l = texture_layout(MAX_TEXTURE_WIDTH, 1, false);
    assert_eq!(l.bytes_per_row, u32::MAX - 3);
}
