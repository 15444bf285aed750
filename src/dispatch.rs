//! Decoding of any format that the general image decoder recognises by content.
use vstd::prelude::*;

use crate::buffer::{sample_count, Image, ImageSize};
use crate::error::IoError;

verus! {

/// A decoded image of the general decoder, in whatever layout it came.
#[verifier::external_type_specification]
#[verifier::external_body]
pub struct ExDynamicImage(::image::DynamicImage);

/// Relies on `image::load_from_memory`, which guesses the format from the
/// bytes and decodes them; its error is sorted into "no decoder for this
/// content" and "the decoder failed".
#[verifier::external_body]
fn load_from_memory(bytes: &[u8]) -> (r: Result<::image::DynamicImage, IoError>)
    ensures
        r matches Err(e) ==> (e is UnsupportedFormat || e is DecodeError),
{
    match ::image::load_from_memory(bytes) {
        Ok(img) => Ok(img),
        Err(e @ ::image::ImageError::Unsupported(_)) => Err(IoError::UnsupportedFormat(e)),
        Err(e) => Err(IoError::DecodeError(e)),
    }
}

/// Relies on `image::DynamicImage::to_rgb8`, which converts any layout to
/// interleaved RGB8; hands back the width, the height and the samples.
#[verifier::external_body]
fn to_rgb8(img: &::image::DynamicImage) -> (r: (usize, usize, Vec<u8>)) {
    let rgb = img.to_rgb8();
    (rgb.width() as usize, rgb.height() as usize, rgb.into_raw())
}

/// Wraps samples of the announced `size` as an image of `C` channels; fails
/// unless there are exactly `width * height * C` of them.
pub fn image_from_samples<const C: usize>(size: ImageSize, samples: Vec<u8>) -> (r: Result<
    Image<C>,
    IoError,
>)
    ensures
        r is Ok <==> samples@.len() == sample_count(size, C),
        r matches Ok(img) ==> img@.size == size && img@.data == samples@,
        r matches Err(e) ==> e == IoError::ImageCreationError(
            crate::buffer::ShapeError::ShapeMismatch(samples@.len() as usize),
        ),
{
    match Image::new(size, samples) {
        Ok(img) => Ok(img),
        Err(e) => Err(IoError::ImageCreationError(e)),
    }
}

/// Decodes bytes of any format that the general decoder recognises by their
/// content (not by a file name), converted to interleaved RGB8.
pub fn decode_image_any_rgb8(bytes: &[u8]) -> (r: Result<Image<3>, IoError>)
    ensures
        r matches Ok(img) ==> img@.data.len() == sample_count(img@.size, 3),
        r matches Err(e) ==> (e is UnsupportedFormat || e is DecodeError || e is ImageCreationError),
{
    let img = load_from_memory(bytes)?;
    let (width, height, samples) = to_rgb8(&img);
    image_from_samples(ImageSize { width, height }, samples)
}

} // verus!
