use kornia_io::{decode_buffer, frame_layout, image_from_samples, Image, ImageSize, IoError, ShapeError};

#[test]
fn new_accepts_exact_sample_count() {
    let image = Image::<1>::new(ImageSize { width: 2, height: 1 }, vec![0, 255]).unwrap();
    assert_eq!(image.width(), 2);
    assert_eq!(image.height(), 1);
    assert_eq!(image.cols(), 2);
    assert_eq!(image.rows(), 1);
    assert_eq!(image.num_channels(), 1);
    assert_eq!(image.as_slice(), &[0, 255]);
    assert_eq!(image.size(), ImageSize { width: 2, height: 1 });
}

#[test]
fn new_rejects_wrong_sample_count() {
    let r = Image::<3>::new(ImageSize { width: 2, height: 1 }, vec![0, 255]);
    assert!(matches!(r, Err(ShapeError::ShapeMismatch(2))));
    let r = Image::<1>::new(ImageSize { width: 2, height: 2 }, vec![0, 1, 2, 3, 4]);
    assert!(matches!(r, Err(ShapeError::ShapeMismatch(5))));
}

#[test]
fn new_rejects_overflowing_shape_without_panic() {
    let r = Image::<3>::new(ImageSize { width: usize::MAX, height: 2 }, vec![1, 2, 3]);
    assert!(matches!(r, Err(ShapeError::ShapeMismatch(3))));
}

#[test]
fn empty_image_has_no_samples() {
    let image = Image::<3>::new(ImageSize { width: 0, height: 5 }, vec![]).unwrap();
    assert_eq!(image.as_slice().len(), 0);
}

#[test]
fn from_size_val_fills_every_sample() {
    let image = Image::<3>::from_size_val(ImageSize { width: 4, height: 2 }, 7).unwrap();
    assert_eq!(image.as_slice().len(), 24);
    assert!(image.as_slice().iter().all(|&s| s == 7));
    let copy = image.clone();
    assert_eq!(copy.into_vec(), vec![7u8; 24]);
}

#[test]
fn from_size_val_reports_overflow() {
    let r = Image::<1>::from_size_val(ImageSize { width: usize::MAX, height: 3 }, 0);
    assert!(matches!(r, Err(ShapeError::SizeOverflow)));
}

#[test]
fn decode_buffer_is_sized_from_header() {
    let rgb = decode_buffer::<3>(ImageSize { width: 258, height: 195 }).unwrap();
    assert_eq!(rgb.len(), 258 * 195 * 3);
    assert!(rgb.iter().all(|&s| s == 0));
    let gray = decode_buffer::<1>(ImageSize { width: 258, height: 195 }).unwrap();
    assert_eq!(gray.len(), 258 * 195);
}

#[test]
fn decode_buffer_reports_allocation_overflow() {
    let r = decode_buffer::<3>(ImageSize { width: usize::MAX / 2, height: 2 });
    assert!(matches!(r, Err(IoError::BufferAllocation)));
}

#[test]
fn decoded_image_keeps_header_size() {
    let size = ImageSize { width: 3, height: 2 };
    let pixels = decode_buffer::<1>(size).unwrap();
    let image = image_from_samples::<1>(size, pixels).unwrap();
    assert_eq!(image.size(), size);
    let r = image_from_samples::<3>(size, vec![0; 7]);
    assert!(matches!(
        r,
        Err(IoError::ImageCreationError(ShapeError::ShapeMismatch(7)))
    ));
}

#[test]
fn frame_rows_have_no_padding() {
    let rgb = Image::<3>::from_size_val(ImageSize { width: 258, height: 195 }, 1).unwrap();
    let f = frame_layout(&rgb).unwrap();
    assert_eq!((f.width, f.height, f.pitch), (258, 195, 774));
    let gray = Image::<1>::new(ImageSize { width: 4, height: 4 }, vec![0; 16]).unwrap();
    let f = frame_layout(&gray).unwrap();
    assert_eq!((f.width, f.height, f.pitch), (4, 4, 4));
}

#[test]
fn frame_of_rowless_wide_image_overflows() {
    let image = Image::<3>::new(ImageSize { width: usize::MAX, height: 0 }, vec![]).unwrap();
    assert!(matches!(frame_layout(&image), Err(IoError::BufferAllocation)));
}
