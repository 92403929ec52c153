use bilidl::frontend::{decode_cover, CoverImage};
use std::io::Cursor;

#[test]
fn png_decodes_to_rgba() {
    let mut img = image::RgbaImage::new(2, 1);
    img.put_pixel(0, 0, image::Rgba([1, 2, 3, 4]));
    img.put_pixel(1, 0, image::Rgba([5, 6, 7, 8]));
    let mut bytes = Vec::new();
    img.write_to(&mut Cursor::new(&mut bytes), image::ImageFormat::Png).unwrap();
    let cover = decode_cover(&bytes).unwrap();
    assert_eq!((cover.width, cover.height), (2, 1));
    assert_eq!(cover.pixels, vec![1, 2, 3, 4, 5, 6, 7, 8]);
}

#[test]
fn garbage_does_not_decode() {
    assert!(decode_cover(b"not a picture").is_none());
    assert!(decode_cover(&[]).is_none());
}

#[test]
fn empty_cover() {
    let c = CoverImage::empty();
    assert_eq!((c.width, c.height, c.pixels.len()), (0, 0, 0));
    let d = c.clone();
    assert_eq!(d.pixels.len(), 0);
}
