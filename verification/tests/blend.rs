use style_core::BlendWeight;
use style_core::Rgba;
use style_core::blend_pixels;

fn pixel(r: u8, g: u8, b: u8, a: u8) -> Rgba {
    Rgba { r, g, b, a }
}

#[test]
fn test_blend_pixels() {
    let original = pixel(100, 100, 100, 255);
    let stylized = pixel(200, 200, 200, 255);
    let strength = BlendWeight::new(1, 2).unwrap();
    let blended = blend_pixels(original, stylized, strength);
    assert_eq!(blended, pixel(150, 150, 150, 255));
}

#[test]
fn test_blend_zero_keeps_original() {
    let original = pixel(12, 34, 56, 78);
    let stylized = pixel(200, 150, 100, 50);
    let blended = blend_pixels(original, stylized, BlendWeight::zero());
    assert_eq!(blended, pixel(12, 34, 56, 255));
}

#[test]
fn test_blend_one_takes_stylized() {
    let original = pixel(12, 34, 56, 78);
    let stylized = pixel(200, 150, 100, 50);
    let blended = blend_pixels(original, stylized, BlendWeight::one());
    assert_eq!(blended, pixel(200, 150, 100, 255));
}

#[test]
fn test_blend_extrapolation_saturates() {
    // A weight of two extrapolates past the stylized pixel and saturates
    // into the 8-bit range on both sides.
    let strength = BlendWeight::new(2, 1).unwrap();
    let up = blend_pixels(pixel(100, 100, 100, 255), pixel(200, 200, 200, 255), strength);
    assert_eq!(up, pixel(255, 255, 255, 255));
    let down = blend_pixels(pixel(200, 200, 200, 255), pixel(100, 100, 100, 255), strength);
    assert_eq!(down, pixel(0, 0, 0, 255));
}

#[test]
fn test_blend_rounds_to_nearest() {
    // 0 blended with 5 at one third is 5/3, which rounds to 2.
    let third = BlendWeight::new(1, 3).unwrap();
    let blended = blend_pixels(pixel(0, 0, 0, 255), pixel(5, 5, 5, 255), third);
    assert_eq!(blended, pixel(2, 2, 2, 255));
}

#[test]
fn test_blend_weight_rejects_zero_denominator() {
    assert!(BlendWeight::new(1, 0).is_none());
    assert!(BlendWeight::new(0, 1).is_some());
}
