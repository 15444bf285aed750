//! The errors of reading and writing images.
use vstd::prelude::*;

use crate::buffer::ShapeError;

verus! {

/// An error of the general image decoder, carried as it came.
#[verifier::external_type_specification]
#[verifier::external_body]
pub struct ExImageDecodeError(::image::ImageError);

/// Why an image could not be read or written.
#[derive(Debug)]
pub enum IoError {
    /// The path (the field) names no existing file.
    FileDoesNotExist(String),
    /// The path (the field) does not carry an extension that the operation accepts.
    InvalidFileExtension(String),
    /// Content sniffing found no decoder for the bytes.
    UnsupportedFormat(::image::ImageError),
    /// The decoder that the content matched failed on it.
    DecodeError(::image::ImageError),
    /// The decoded samples did not form an image of the announced size.
    ImageCreationError(ShapeError),
    /// The pixel buffer that a size asks for does not fit in memory addresses.
    BufferAllocation,
}

} // verus!
