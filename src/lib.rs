//! Image reading and writing over a JPEG codec and a general image decoder,
//! with a verified pixel buffer and verified format and path rules.
pub mod buffer;
pub mod codec;
pub mod dispatch;
pub mod error;
pub mod path;

pub use crate::buffer::{Image, ImageSize, ShapeError};
pub use crate::codec::{decode_buffer, frame_layout, FrameLayout};
pub use crate::dispatch::{decode_image_any_rgb8, image_from_samples};
pub use crate::error::IoError;
pub use crate::path::{has_extension_in, str_eq_ignore_ascii_case, validate_jpeg_path, validate_path};
