//! The trusted boundary to the `image` crate.
//!
//! Decoding the extracted bytes into a pixel image is delegated to the
//! external decoder; nothing about the pixels is modelled here. Whether the
//! decoder accepts a byte sequence is a function of the bytes alone, so
//! each decoding call's verdict is given a name, and the callers' contracts
//! tie success to that name exactly. Each wrapper holds exactly one call
//! chain into the crate.

use vstd::prelude::*;

verus! {

#[verifier::external_type_specification]
#[verifier::external_body]
pub struct ExDynamicImage(image::DynamicImage);

#[verifier::external_type_specification]
#[verifier::external_body]
pub struct ExImageError(image::ImageError);

/// Whether the external decoder, guessing the format from the leading
/// magic bytes, decodes these bytes into an image. The verdict depends on
/// the bytes alone.
pub uninterp spec fn decode_ok(data: Seq<u8>) -> bool;

/// Whether the external decoder decodes these bytes as a JPEG stream. The
/// verdict depends on the bytes alone.
pub uninterp spec fn decode_jpeg_ok(data: Seq<u8>) -> bool;

/// Relies on `image::io::Reader`: `with_guessed_format` sniffs the stream's
/// leading magic bytes (an in-memory cursor, so its I/O cannot fail in
/// practice) and `decode` decodes in the guessed format or reports why not.
/// The call succeeds exactly when the decoder accepts the bytes, named
/// `decode_ok`.
#[verifier::external_body]
pub(crate) fn decode_guessed(data: &[u8]) -> (r: Result<image::DynamicImage, image::ImageError>)
    ensures
        r is Ok <==> decode_ok(data@),
{
    let reader = image::io::Reader::new(std::io::Cursor::new(data));
    match reader.with_guessed_format() {
        Ok(r) => r.decode(),
        Err(e) => Err(image::ImageError::IoError(e)),
    }
}

/// Relies on `image::load_from_memory_with_format`: decodes the bytes as a
/// JPEG stream or reports why not. The call succeeds exactly when the
/// decoder accepts the bytes as JPEG, named `decode_jpeg_ok`.
#[verifier::external_body]
pub(crate) fn decode_jpeg(data: &[u8]) -> (r: Result<image::DynamicImage, image::ImageError>)
    ensures
        r is Ok <==> decode_jpeg_ok(data@),
{
    image::load_from_memory_with_format(data, image::ImageFormat::Jpeg)
}

/// Relies on `image::RgbImage::new`, which allocates a zeroed buffer of the
/// given dimensions: a 0-by-0 image is always constructible.
#[verifier::external_body]
pub(crate) fn empty_rgb_image() -> image::DynamicImage {
    image::DynamicImage::ImageRgb8(image::RgbImage::new(0, 0))
}

} // verus!
