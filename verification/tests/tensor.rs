use style_core::ImageError;
use style_core::PixelBuffer;
use style_core::tensor::pack;
use style_core::tensor::tensor_to_image;

#[test]
fn test_pack_is_planar() {
    // Two pixels in one row: the tensor holds the red plane, then the
    // green plane, then the blue plane; alpha is dropped.
    let data = vec![10, 20, 30, 255, 40, 50, 60, 128];
    let buffer = PixelBuffer::from_raw(2, 1, data).unwrap();
    let tensor = pack(&buffer);
    assert_eq!(tensor, vec![10, 40, 20, 50, 30, 60]);
}

#[test]
fn test_pack_length_is_three_samples_per_pixel() {
    let data = vec![0u8; 4 * 3 * 2];
    let buffer = PixelBuffer::from_raw(3, 2, data).unwrap();
    assert_eq!(pack(&buffer).len(), 3 * 3 * 2);
}

#[test]
fn test_unpack_reads_planes_and_forces_alpha() {
    let tensor = vec![1, 2, 3];
    let buffer = tensor_to_image(&tensor, 1, 1).unwrap();
    assert_eq!(buffer.data, vec![1, 2, 3, 255]);
}

#[test]
fn test_pack_unpack_round_trip() {
    let data = vec![10, 20, 30, 255, 40, 50, 60, 128, 70, 80, 90, 0, 1, 2, 3, 200];
    let buffer = PixelBuffer::from_raw(2, 2, data).unwrap();
    let tensor = pack(&buffer);
    let back = tensor_to_image(&tensor, 2, 2).unwrap();
    // Every colour sample returns exactly; every alpha sample becomes 255.
    assert_eq!(back.data, vec![10, 20, 30, 255, 40, 50, 60, 255, 70, 80, 90, 255, 1, 2, 3, 255]);
}

#[test]
fn test_unpack_rejects_wrong_length() {
    let tensor = vec![1, 2, 3, 4];
    assert!(matches!(tensor_to_image(&tensor, 1, 1), Err(ImageError::Shape)));
}

#[test]
fn test_unpack_rejects_zero_dimension() {
    let tensor: Vec<u8> = Vec::new();
    assert!(matches!(tensor_to_image(&tensor, 0, 4), Err(ImageError::Shape)));
    assert!(matches!(tensor_to_image(&tensor, 4, 0), Err(ImageError::Shape)));
}

#[test]
fn test_host_scale_round_trips_every_sample() {
    // The host maps a sample to the unit range and back with the matched
    // pair `s / 255` and `round(clamp(v * 255))`; under that pair the
    // pack/unpack round trip loses nothing: every 8-bit sample returns
    // exactly, well within the one-unit quantization allowance.
    for s in 0..=255u32 {
        let unit = s as f32 / 255.0;
        let back = (unit * 255.0).round().clamp(0.0, 255.0) as u32;
        assert_eq!(back, s);
    }
}

#[test]
fn test_from_raw_rejects_wrong_length() {
    let data = vec![0u8; 7];
    assert!(matches!(PixelBuffer::from_raw(1, 2, data), Err(ImageError::Shape)));
}
