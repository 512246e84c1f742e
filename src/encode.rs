//! Serializing a finished image as PNG or as raw RGBA8 bytes.
use crate::error::RenderError;
use image::{DynamicImage, ImageError};
use vstd::prelude::*;

verus! {

#[verifier::external_type_specification]
#[verifier::external_body]
pub struct ExDynamicImage(DynamicImage);

#[verifier::external_type_specification]
#[verifier::external_body]
pub struct ExImageError(ImageError);

/// The eight bytes that open every PNG file.
pub open spec fn png_signature() -> Seq<u8> {
    seq![137u8, 80u8, 78u8, 71u8, 13u8, 10u8, 26u8, 10u8]
}

/// What an image holds when it is an 8-bit RGBA image: its width, its height and
/// its sample buffer, four samples per pixel, rows from top to bottom. `None` for
/// every other pixel layout.
pub uninterp spec fn rgba8_of(img: DynamicImage) -> Option<(u32, u32, Seq<u8>)>;

/// The PNG file that encodes an 8-bit RGBA image of the given size and samples.
pub uninterp spec fn png_of(width: u32, height: u32, samples: Seq<u8>) -> Seq<u8>;

/// An image as raw RGBA8 bytes: rows from top to bottom, four bytes per pixel.
pub struct RgbaBytes {
    pub width: u32,
    pub height: u32,
    pub bytes: Vec<u8>,
}

/// Relies on image's `PngEncoder::write_image` with `ColorType::Rgba8` into a
/// `Vec`: it asserts that the buffer holds exactly four samples per pixel, rejects
/// a zero width or height, and otherwise writes the file, PNG signature first.
#[verifier::external_body]
fn write_png(width: u32, height: u32, samples: &[u8]) -> (r: Result<Vec<u8>, ImageError>)
    requires
        samples@.len() == 4 * width * height,
    ensures
        r matches Ok(b) ==> b@ == png_of(width, height, samples@) && b@.len() >= 8
            && b@.subrange(0, 8) == png_signature(),
        r is Ok <==> (0 < width && 0 < height),
{
    let mut bytes: Vec<u8> = Vec::new();
    image::ImageEncoder::write_image(
        image::codecs::png::PngEncoder::new(&mut bytes),
        samples,
        width,
        height,
        image::ColorType::Rgba8,
    )?;
    Ok(bytes)
}

/// Relies on image's `DynamicImage::as_rgba8`, `ImageBuffer::dimensions` and
/// `ImageBuffer::as_raw`: for an 8-bit RGBA image, its width, height and sample
/// buffer, which holds at least four samples per pixel, row by row.
#[verifier::external_body]
fn rgba8_parts(img: &DynamicImage) -> (r: Option<(u32, u32, Vec<u8>)>)
    ensures
        match r {
            Some(p) => rgba8_of(*img) == Some((p.0, p.1, p.2@)) && p.2@.len() >= 4 * p.0 * p.1,
            None => rgba8_of(*img) is None,
        },
{
    match img.as_rgba8() {
        Some(buf) => Some((buf.width(), buf.height(), buf.as_raw().clone())),
        None => None,
    }
}

/// Keeps the first `n` bytes of `raw`.
fn prefix(raw: &Vec<u8>, n: usize) -> (r: Vec<u8>)
    requires
        n <= raw@.len(),
    ensures
        r@ == raw@.subrange(0, n as int),
{
    let mut out: Vec<u8> = Vec::with_capacity(n);
    let mut i: usize = 0;
    while i < n
        invariant
            i <= n <= raw@.len(),
            out@ == raw@.subrange(0, i as int),
        decreases n - i,
    {
        out.push(raw[i]);
        i = i + 1;
    }
    out
}

/// Returns the image's pixels as raw RGBA8 bytes with its dimensions: exactly
/// `4 * width * height` bytes, the start of the image's own sample buffer. An
/// image that is not 8-bit RGBA gives `UnsupportedImageMode`.
pub fn encode_rgba8(img: &DynamicImage) -> (r: Result<RgbaBytes, RenderError>)
    ensures
        match rgba8_of(*img) {
            Some((w, h, px)) => r matches Ok(out) && out.width == w && out.height == h
                && out.bytes@ == px.subrange(0, 4 * w * h),
            None => r matches Err(e) && e == RenderError::UnsupportedImageMode,
        },
        r matches Ok(out) ==> out.bytes@.len() == 4 * out.width * out.height,
{
    match rgba8_parts(img) {
        Some((width, height, raw)) => {
            let total: usize = raw.len();
            assert((width as usize) * (height as usize) == width * height);
            assert(4 * (width * height) == 4 * width * height) by (nonlinear_arith);
            assert(4 * width * height <= total);
            let n: usize = (width as usize) * (height as usize);
            let n: usize = 4 * n;
            let bytes = prefix(&raw, n);
            Ok(RgbaBytes { width, height, bytes })
        },
        None => Err(RenderError::UnsupportedImageMode),
    }
}

/// Encodes the image as PNG, from the same pixels that `encode_rgba8` gives. An
/// 8-bit RGBA image with a nonzero width and height always encodes; an empty one
/// gives `EncodingError`, and any other pixel layout `UnsupportedImageMode`.
pub fn encode_png(img: &DynamicImage) -> (r: Result<Vec<u8>, RenderError>)
    ensures
        match rgba8_of(*img) {
            Some((w, h, px)) => if 0 < w && 0 < h {
                r matches Ok(b) && b@ == png_of(w, h, px.subrange(0, 4 * w * h))
            } else {
                r matches Err(e) && e == RenderError::EncodingError
            },
            None => r matches Err(e) && e == RenderError::UnsupportedImageMode,
        },
        r matches Ok(b) ==> b@.len() >= 8 && b@.subrange(0, 8) == png_signature(),
{
    let raw = match encode_rgba8(img) {
        Ok(raw) => raw,
        Err(e) => return Err(e),
    };
    match write_png(raw.width, raw.height, raw.bytes.as_slice()) {
        Ok(b) => Ok(b),
        Err(_) => Err(RenderError::EncodingError),
    }
}

} // verus!
