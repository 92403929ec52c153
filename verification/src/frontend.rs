//! Cover images: decoding the bytes of a downloaded picture into RGBA pixels.

use vstd::prelude::*;

verus! {

/// An image as 8-bit RGBA pixels, row by row.
pub struct CoverImage {
    pub width: u32,
    pub height: u32,
    pub pixels: Vec<u8>,
}

/// What the `image` crate decodes `bytes` to, converted to 8-bit RGBA:
/// width, height and pixel bytes; `None` when it cannot decode them.
pub uninterp spec fn decoded_rgba8(bytes: Seq<u8>) -> Option<(u32, u32, Seq<u8>)>;

/// Calls `image::load_from_memory` on `bytes` and converts the image with
/// `DynamicImage::to_rgba8`.  Claimed: the result is the named result
/// `decoded_rgba8` of the bytes; a decoding error gives `None`; and the pixel
/// bytes are at least four per pixel, as an `ImageBuffer` always holds
/// (`ImageBuffer::from_raw` refuses a container that is not big enough).
#[verifier::external_body]
fn load_rgba8(bytes: &[u8]) -> (r: Option<(u32, u32, Vec<u8>)>)
    ensures
        match r {
            Some((w, h, p)) => decoded_rgba8(bytes@) == Some((w, h, p@)) && 4 * w * h <= p@.len(),
            None => decoded_rgba8(bytes@) is None,
        },
{
    match image::load_from_memory(bytes) {
        Ok(img) => {
            let rgba = img.to_rgba8();
            Some((rgba.width(), rgba.height(), rgba.into_raw()))
        },
        Err(_) => None,
    }
}

impl CoverImage {
    /// An image with no pixels.
    pub fn empty() -> (r: CoverImage)
        ensures
            r.width == 0,
            r.height == 0,
            r.pixels@.len() == 0,
    {
        CoverImage { width: 0, height: 0, pixels: Vec::new() }
    }

    /// The image with the given size and pixels.
    pub fn from_rgba8(width: u32, height: u32, pixels: Vec<u8>) -> (r: CoverImage)
        ensures
            r.width == width,
            r.height == height,
            r.pixels@ == pixels@,
    {
        CoverImage { width, height, pixels }
    }
}

/// Decodes the bytes of a cover picture; `None` when they are not a picture
/// that can be decoded.
pub fn decode_cover(bytes: &[u8]) -> (r: Option<CoverImage>)
    ensures
        match r {
            Some(c) => decoded_rgba8(bytes@) == Some((c.width, c.height, c.pixels@)) && 4 * c.width
                * c.height <= c.pixels@.len(),
            None => decoded_rgba8(bytes@) is None,
        },
{
    match load_rgba8(bytes) {
        Some((w, h, p)) => Some(CoverImage::from_rgba8(w, h, p)),
        None => None,
    }
}

impl Clone for CoverImage {
    fn clone(&self) -> (r: Self)
        ensures
            r.width == self.width,
            r.height == self.height,
            r.pixels@ == self.pixels@,
    {
        let pixels = self.pixels.clone();
        assert(pixels@ =~= self.pixels@);
        CoverImage { width: self.width, height: self.height, pixels }
    }
}

} // verus!
