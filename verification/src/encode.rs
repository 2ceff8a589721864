//! PNG encoding of a rendered frame.
use image::codecs::png::{CompressionType, FilterType, PngEncoder};
use image::{ExtendedColorType, ImageEncoder, ImageError};
use vstd::prelude::*;

verus! {

#[verifier::external_type_specification]
#[verifier::external_body]
pub struct ExImageError(ImageError);

/// The PNG file that `image`'s encoder writes for a tightly packed RGBA8
/// buffer of `width` × `height` pixels with fast deflate compression and
/// adaptive row filters, or `None` where the encoder refuses the image.
pub uninterp spec fn png_rgba8_fast_adaptive(pixels: Seq<u8>, width: u32, height: u32) -> Option<
    Seq<u8>,
>;

/// Why a frame could not be encoded.
#[derive(Clone, Debug)]
pub struct EncodeError {
    pub message: String,
}

/// Calls `image::codecs::png::PngEncoder::new_with_quality` with
/// `CompressionType::Fast` and `FilterType::Adaptive` on an in-memory
/// buffer, then `ImageEncoder::write_image` as `ExtendedColorType::Rgba8`.
/// Trusted: the contract claims that the bytes written, or the refusal, are
/// a function of the pixels and the two dimensions alone (writing to a
/// `Vec` cannot fail), named `png_rgba8_fast_adaptive`, and that the encoder
/// refuses exactly the images of zero width or zero height (png's writer
/// checks both before it writes; no other check can fail on this path).
/// `write_image` panics unless the buffer holds exactly
/// `width * height * 4` bytes.
#[verifier::external_body]
fn write_png_rgba8(pixels: &[u8], width: u32, height: u32) -> (r: Result<Vec<u8>, ImageError>)
    requires
        pixels@.len() == width * height * 4,
    ensures
        match r {
            Ok(bytes) => png_rgba8_fast_adaptive(pixels@, width, height) == Some(bytes@),
            Err(_) => png_rgba8_fast_adaptive(pixels@, width, height) is None,
        },
        match r {
            Ok(_) => width > 0 && height > 0,
            Err(_) => width == 0 || height == 0,
        },
{
    let mut out: Vec<u8> = Vec::new();
    let encoder = PngEncoder::new_with_quality(&mut out, CompressionType::Fast, FilterType::Adaptive);
    match encoder.write_image(pixels, width, height, ExtendedColorType::Rgba8) {
        Ok(()) => Ok(out),
        Err(e) => Err(e),
    }
}

/// Encodes a tightly packed RGBA8 frame as a PNG file's bytes, with fast
/// deflate compression and adaptive row filters.
pub fn encode_png(pixels: &[u8], width: u32, height: u32) -> (r: Result<Vec<u8>, EncodeError>)
    requires
        pixels@.len() == width * height * 4,
    ensures
        r is Ok <==> png_rgba8_fast_adaptive(pixels@, width, height) is Some,
        r is Ok <==> width > 0 && height > 0,
        r matches Ok(bytes) ==> png_rgba8_fast_adaptive(pixels@, width, height) == Some(bytes@),
{
    match write_png_rgba8(pixels, width, height) {
        Ok(bytes) => Ok(bytes),
        Err(e) => Err(EncodeError { message: e.to_string() }),
    }
}

} // verus!
