use kornia_io::{decode_image_any_rgb8, IoError};

#[test]
fn gray_ppm_is_sniffed_and_widened_to_rgb() {
    let mut bytes = b"P5\n2 1\n255\n".to_vec();
    bytes.extend_from_slice(&[0, 255]);
    let image = decode_image_any_rgb8(&bytes).unwrap();
    assert_eq!(image.width(), 2);
    assert_eq!(image.height(), 1);
    assert_eq!(image.num_channels(), 3);
    assert_eq!(image.as_slice(), &[0, 0, 0, 255, 255, 255]);
}

#[test]
fn rgb_ppm_decodes_exactly() {
    let mut bytes = b"P6\n2 2\n255\n".to_vec();
    let samples: Vec<u8> = (0u8..12).map(|i| i * 20).collect();
    bytes.extend_from_slice(&samples);
    let image = decode_image_any_rgb8(&bytes).unwrap();
    assert_eq!((image.cols(), image.rows()), (2, 2));
    assert_eq!(image.as_slice(), samples.as_slice());
}

#[test]
fn unknown_content_is_unsupported() {
    let r = decode_image_any_rgb8(&[1, 2, 3, 4, 5, 6, 7, 8]);
    assert!(matches!(r, Err(IoError::UnsupportedFormat(_))));
}

#[test]
fn truncated_png_is_a_decode_error() {
    let bytes = [0x89, b'P', b'N', b'G', 0x0d, 0x0a, 0x1a, 0x0a, 0, 0, 0];
    let r = decode_image_any_rgb8(&bytes);
    assert!(matches!(r, Err(IoError::DecodeError(_))));
}
