use style_core::ImageError;
use style_core::BlendWeight;
use style_core::postprocess_image;
use style_core::postprocess_video_frame;
use style_core::preprocess_image;

fn png_bytes(width: u32, height: u32, rgba: Vec<u8>) -> Vec<u8> {
    let img = image::RgbaImage::from_raw(width, height, rgba).unwrap();
    let mut bytes: Vec<u8> = Vec::new();
    img.write_to(&mut std::io::Cursor::new(&mut bytes), image::ImageFormat::Png).unwrap();
    bytes
}

#[test]
fn test_preprocess_white_pixel() {
    // A single white pixel packs into one full-scale sample per plane.
    let bytes = png_bytes(1, 1, vec![255, 255, 255, 255]);
    let tensor = preprocess_image(&bytes, 1, 1).unwrap();
    assert_eq!(tensor, vec![255, 255, 255]);
}

#[test]
fn test_preprocess_plane_order() {
    // A red then a blue pixel: red plane first, then green, then blue.
    let bytes = png_bytes(2, 1, vec![255, 0, 0, 255, 0, 0, 255, 255]);
    let tensor = preprocess_image(&bytes, 2, 1).unwrap();
    assert_eq!(tensor, vec![255, 0, 0, 0, 0, 255]);
}

#[test]
fn test_preprocess_is_deterministic() {
    let bytes = png_bytes(3, 2, vec![7u8; 4 * 3 * 2]);
    let first = preprocess_image(&bytes, 2, 2).unwrap();
    let second = preprocess_image(&bytes, 2, 2).unwrap();
    assert_eq!(first, second);
}

#[test]
fn test_preprocess_resizes_to_target() {
    let bytes = png_bytes(4, 4, vec![9u8; 4 * 4 * 4]);
    let tensor = preprocess_image(&bytes, 2, 3).unwrap();
    assert_eq!(tensor.len(), 3 * 2 * 3);
}

#[test]
fn test_preprocess_decodes_jpeg() {
    let img = image::RgbImage::from_raw(2, 2, vec![200u8; 3 * 2 * 2]).unwrap();
    let mut bytes: Vec<u8> = Vec::new();
    img.write_to(&mut std::io::Cursor::new(&mut bytes), image::ImageFormat::Jpeg).unwrap();
    let tensor = preprocess_image(&bytes, 2, 2).unwrap();
    assert_eq!(tensor.len(), 3 * 2 * 2);
}

#[test]
fn test_preprocess_rejects_garbage() {
    let bytes = vec![0x13, 0x37, 0x00, 0xff, 0x42, 0x42, 0x42, 0x42, 0x99, 0x01];
    assert!(matches!(preprocess_image(&bytes, 2, 2), Err(ImageError::Decode)));
}

#[test]
fn test_preprocess_rejects_zero_dimension() {
    let bytes = png_bytes(1, 1, vec![255, 255, 255, 255]);
    assert!(matches!(preprocess_image(&bytes, 0, 1), Err(ImageError::Shape)));
    assert!(matches!(preprocess_image(&bytes, 1, 0), Err(ImageError::Shape)));
}

#[test]
fn test_postprocess_video_frame_blends() {
    let frame = vec![100, 100, 100, 255];
    let tensor = vec![200, 200, 200];
    let strength = BlendWeight::new(1, 2).unwrap();
    let out = postprocess_video_frame(tensor, &frame, 1, 1, strength).unwrap();
    assert_eq!(out, vec![150, 150, 150, 255]);
}

#[test]
fn test_postprocess_video_frame_weight_bounds() {
    let frame = vec![10, 20, 30, 40];
    let tensor = vec![200, 210, 220];
    let keep = postprocess_video_frame(tensor.clone(), &frame, 1, 1, BlendWeight::zero()).unwrap();
    assert_eq!(keep, vec![10, 20, 30, 255]);
    let swap = postprocess_video_frame(tensor, &frame, 1, 1, BlendWeight::one()).unwrap();
    assert_eq!(swap, vec![200, 210, 220, 255]);
}

#[test]
fn test_postprocess_video_frame_rejects_wrong_frame_length() {
    let frame = vec![100, 100, 100];
    let tensor = vec![200, 200, 200];
    let strength = BlendWeight::new(1, 2).unwrap();
    assert!(matches!(
        postprocess_video_frame(tensor, &frame, 1, 1, strength),
        Err(ImageError::Shape)
    ));
}

#[test]
fn test_postprocess_rejects_wrong_tensor_length() {
    let frame = vec![100, 100, 100, 255];
    let tensor = vec![200, 200];
    let strength = BlendWeight::new(1, 2).unwrap();
    assert!(matches!(
        postprocess_video_frame(tensor, &frame, 1, 1, strength),
        Err(ImageError::Shape)
    ));
}

#[test]
fn test_postprocess_image_blends_with_decoded_original() {
    let bytes = png_bytes(1, 1, vec![100, 100, 100, 255]);
    let tensor = vec![200, 200, 200];
    let strength = BlendWeight::new(1, 2).unwrap();
    let out = postprocess_image(tensor, &bytes, 1, 1, strength).unwrap();
    assert_eq!(out, vec![150, 150, 150, 255]);
}

#[test]
fn test_postprocess_image_rejects_garbage_original() {
    let tensor = vec![200, 200, 200];
    let strength = BlendWeight::new(1, 2).unwrap();
    assert!(matches!(
        postprocess_image(tensor, &[1, 2, 3, 4, 5], 1, 1, strength),
        Err(ImageError::Decode)
    ));
}
