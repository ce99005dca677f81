//! What the `image` crate does for the library: decoding picture files.
//!
//! The functions of this module are trusted. Each makes its calls into the
//! crate and hands back plain values; its contract gives the outcome a name
//! and claims no more than that.

use vstd::prelude::*;

verus! {

/// The largest edge length that pictures are ever scaled to.
pub const MAX_SCALED_SIZE: u32 = 1024;

/// The error type of the `image` crate. Nothing is read from it.
#[verifier::external_type_specification]
#[verifier::external_body]
pub struct ExImageError(image::ImageError);

/// What a PNG file decodes to as 8-bit RGBA: width, height and the pixels
/// row by row, four bytes each; `None` for bytes that do not decode.
pub uninterp spec fn png_rgba8(file: Seq<u8>) -> Option<(u32, u32, Seq<u8>)>;

/// Decodes a PNG file with `image::load_from_memory_with_format`, and takes
/// the size (`dimensions`) and the pixels (`into_rgba8`, `into_vec`) out of
/// the decoded image. The contract only gives the outcome its name: the
/// decoder works on the bytes of the file and on nothing else.
#[verifier::external_body]
pub(crate) fn decode_png(file: &[u8]) -> (r: Result<(u32, u32, Vec<u8>), image::ImageError>)
    ensures
        match r {
            Ok((width, height, rgba)) => png_rgba8(file@) == Some((width, height, rgba@)),
            Err(_) => png_rgba8(file@) is None,
        },
{
    let decoded = image::load_from_memory_with_format(file, image::ImageFormat::Png)?;
    let (width, height) = image::GenericImageView::dimensions(&decoded);
    Ok((width, height, decoded.into_rgba8().into_vec()))
}

/// What an image file decodes to after it was scaled, keeping its aspect
/// ratio, to fit a square of `size` pixels: width, height and RGBA bytes;
/// `None` for bytes that do not decode.
pub uninterp spec fn scaled_rgba8(file: Seq<u8>, size: u32) -> Option<(u32, u32, Seq<u8>)>;

/// Decodes and scales an image file with the `image` crate: the format is
/// guessed from the first bytes (`guess_format`), the file decoded as that
/// format (`load_from_memory_with_format`), the picture scaled with the
/// triangle filter (`DynamicImage::resize`), and size and pixels taken out
/// of the result of `into_rgba8`. The contract only gives the outcome its
/// name: each of these steps works on its arguments and on nothing else.
/// The size is bounded so that the scaled picture always fits in memory.
#[verifier::external_body]
pub(crate) fn decode_scaled(file: &[u8], size: u32) -> (r: Result<
    (u32, u32, Vec<u8>),
    image::ImageError,
>)
    requires
        size <= MAX_SCALED_SIZE,
    ensures
        match r {
            Ok((width, height, rgba)) => scaled_rgba8(file@, size) == Some((width, height, rgba@)),
            Err(_) => scaled_rgba8(file@, size) is None,
        },
{
    let format = image::guess_format(file)?;
    let decoded = image::load_from_memory_with_format(file, format)?;
    let scaled = decoded.resize(size, size, image::imageops::FilterType::Triangle).into_rgba8();
    Ok((scaled.width(), scaled.height(), scaled.into_raw()))
}

} // verus!
