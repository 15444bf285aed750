//! The rules that frame the buffers a JPEG codec reads from and writes into:
//! one buffer per image, sized from the header, rows without padding.
use vstd::prelude::*;

use crate::buffer::{sample_count, Image, ImageSize};
use crate::error::IoError;

verus! {

/// How a codec walks an image's samples: `height` rows of `width` pixels,
/// each row `pitch` bytes after the one before.
#[derive(Clone, Copy, Debug, PartialEq, Eq, Structural)]
pub struct FrameLayout {
    pub width: usize,
    pub height: usize,
    pub pitch: usize,
}

/// Allocates the zero-filled buffer into which an image of `size` with `C`
/// channels is decoded: exactly `width * height * C` samples. Fails where that
/// number overflows `usize`.
pub fn decode_buffer<const C: usize>(size: ImageSize) -> (r: Result<Vec<u8>, IoError>)
    ensures
        r is Ok <==> sample_count(size, C) <= usize::MAX,
        r matches Ok(v) ==> v@ == Seq::new(sample_count(size, C) as nat, |i: int| 0u8),
        r matches Err(e) ==> e is BufferAllocation,
{
    match Image::<C>::from_size_val(size, 0) {
        Ok(img) => Ok(img.into_vec()),
        Err(_) => Err(IoError::BufferAllocation),
    }
}

/// A decoded image has the size that the header announced: the buffer
/// allocated for a header, once the codec has filled it in place (keeping its
/// length), holds exactly the samples that an image of the header's size needs,
/// so wrapping it with `image_from_samples` under that header succeeds.
pub proof fn lemma_header_decode_agree<const C: usize>(
    header: ImageSize,
    allocated: Seq<u8>,
    filled: Seq<u8>,
)
    requires
        allocated == Seq::new(sample_count(header, C) as nat, |i: int| 0u8),
        filled.len() == allocated.len(),
    ensures
        filled.len() == sample_count(header, C),
{
    assert(sample_count(header, C) >= 0) by (nonlinear_arith);
}

/// The layout in which the samples of `image` are handed to an encoder:
/// rows of `width * C` bytes with no padding. Fails where a row's length
/// overflows `usize` (possible only for an image without rows).
pub fn frame_layout<const C: usize>(image: &Image<C>) -> (r: Result<FrameLayout, IoError>)
    ensures
        r is Ok <==> image@.size.width * C <= usize::MAX,
        r matches Ok(f) ==> f.width == image@.size.width && f.height == image@.size.height
            && f.pitch == image@.size.width * C && f.pitch * f.height == image@.data.len(),
        r matches Err(e) ==> e is BufferAllocation,
{
    let size = image.size();
    let samples = image.as_slice();
    match size.width.checked_mul(C) {
        Some(pitch) => {
            assert(pitch * size.height == size.width * size.height * C) by (nonlinear_arith)
                requires
                    pitch == size.width * C,
            {}
            assert(pitch * size.height == samples@.len());
            Ok(FrameLayout { width: size.width, height: size.height, pitch })
        },
        None => Err(IoError::BufferAllocation),
    }
}

} // verus!
