use cliobulk::commands::ProcessOptions;
use cliobulk::image_ops::apply_filters;
use cliobulk::raster::{DecodedImage, PixelLayout};

fn gray_rgb(width: u32, height: u32, level: u8) -> DecodedImage {
    let data = vec![level; (width * height * 3) as usize];
    DecodedImage::from_raw(width, height, PixelLayout::Rgb, data).unwrap()
}

#[test]
fn test_brightness_adjustment() {
    let img = gray_rgb(10, 10, 100);

    let options = ProcessOptions {
        brightness: 500, // Increase brightness
        contrast: 1000,
        saturation: 1000,
        adaptive_threshold: false,
        denoise: false,
    };

    let result = apply_filters(img, &options);

    // Check if the first pixel is brighter than 100
    assert!(result.data()[0] > 100);
}

#[test]
fn test_contrast_adjustment() {
    let img = gray_rgb(10, 10, 100);

    let options = ProcessOptions {
        brightness: 0,
        contrast: 1500, // Increase contrast
        saturation: 1000,
        adaptive_threshold: false,
        denoise: false,
    };

    let _result = apply_filters(img, &options);
}

#[test]
fn test_denoise() {
    let img = gray_rgb(10, 10, 0);

    let options = ProcessOptions {
        brightness: 0,
        contrast: 1000,
        saturation: 1000,
        adaptive_threshold: false,
        denoise: true,
    };

    let result = apply_filters(img, &options);
    assert!(result.width() == 10);
}

#[test]
fn test_adaptive_threshold() {
    let img = gray_rgb(10, 10, 0);

    let options = ProcessOptions {
        brightness: 0,
        contrast: 1000,
        saturation: 1000,
        adaptive_threshold: true,
        denoise: false,
    };

    let result = apply_filters(img, &options);
    // Adaptive threshold returns a Luma image (grayscale/binary)
    assert!(result.layout() == PixelLayout::Luma);
}
