use cliobulk::commands::ProcessOptions;
use cliobulk::image_ops;
use cliobulk::raster::{DecodedImage, PixelLayout};

fn uniform(width: u32, height: u32, pixel: [u8; 3]) -> DecodedImage {
    let mut data = Vec::new();
    for _ in 0..(width * height) {
        data.extend_from_slice(&pixel);
    }
    DecodedImage::from_raw(width, height, PixelLayout::Rgb, data).unwrap()
}

#[test]
fn test_apply_filters_basic() {
    // Create a 10x10 RGB image with gray color (100, 100, 100)
    let img = uniform(10, 10, [100, 100, 100]);

    // Options: Increase brightness
    let options = ProcessOptions {
        brightness: 100, // +10 intensity
        contrast: 1000,
        saturation: 1000,
        adaptive_threshold: false,
        denoise: false,
    };

    let processed = image_ops::apply_filters(img, &options);
    let pixel = &processed.data()[0..3];

    // 100 + (0.1 * 100.0) = 110
    assert_eq!(pixel[0], 110, "Red channel should increase by 10");
    assert_eq!(pixel[1], 110, "Green channel should increase by 10");
    assert_eq!(pixel[2], 110, "Blue channel should increase by 10");
}

#[test]
fn test_apply_filters_saturation() {
    let img = uniform(10, 10, [200, 50, 50]);

    // Options: Desaturate completely (B&W)
    let options = ProcessOptions {
        brightness: 0,
        contrast: 1000,
        saturation: 0,
        adaptive_threshold: false,
        denoise: false,
    };

    let processed = image_ops::apply_filters(img, &options);
    let pixel = &processed.data()[0..3];

    // Luminance L = 0.299*200 + 0.587*50 + 0.114*50 = 59.8 + 29.35 + 5.7 = 94.85 -> 94
    // With sat=0, R=G=B=L
    assert!((pixel[0] as i32 - 94).abs() <= 1, "Red should be close to luminance");
    assert_eq!(pixel[0], pixel[1], "R and G should be equal for B&W");
    assert_eq!(pixel[1], pixel[2], "G and B should be equal for B&W");
}
