use cliobulk::commands::ProcessOptions;
use cliobulk::image_ops::{apply_filters, filters_applicable, try_apply_filters};
use cliobulk::raster::{DecodedImage, PixelLayout};
use cliobulk::tone::{tone_chunk, tone_pixel};

fn options(brightness: i32, contrast: i32, saturation: i32) -> ProcessOptions {
    ProcessOptions { brightness, contrast, saturation, adaptive_threshold: false, denoise: false }
}

fn rgb(width: u32, height: u32, data: Vec<u8>) -> DecodedImage {
    DecodedImage::from_raw(width, height, PixelLayout::Rgb, data).unwrap()
}

fn luma(width: u32, height: u32, data: Vec<u8>) -> DecodedImage {
    DecodedImage::from_raw(width, height, PixelLayout::Luma, data).unwrap()
}

#[test]
fn neutral_options_return_the_image() {
    let data: Vec<u8> = (0..48).map(|i| (i * 5) as u8).collect();
    let o = ProcessOptions::identity();
    assert!(o.leaves_unchanged());
    assert!(!o.has_tone());
    let out = apply_filters(rgb(4, 4, data.clone()), &o);
    assert_eq!(out.layout(), PixelLayout::Rgb);
    assert_eq!((out.width(), out.height()), (4, 4));
    assert_eq!(out.data(), &data);
    let gray = apply_filters(luma(6, 8, data.clone()), &o);
    assert_eq!(gray.layout(), PixelLayout::Luma);
    assert_eq!(gray.data(), &data);
}

#[test]
fn desaturation_gives_the_luminance() {
    assert_eq!(tone_pixel(200, 50, 50, &options(0, 1000, 0)), (94, 94, 94));
}

#[test]
fn brightness_adds_a_hundred_levels_per_unit() {
    assert_eq!(tone_pixel(100, 100, 100, &options(100, 1000, 1000)), (110, 110, 110));
    assert_eq!(tone_pixel(100, 100, 100, &options(500, 1000, 1000)), (150, 150, 150));
    let out = apply_filters(rgb(3, 2, vec![100; 18]), &options(100, 1000, 1000));
    assert_eq!(out.data(), &vec![110; 18]);
}

#[test]
fn contrast_scales_the_distance_from_the_midpoint() {
    // (100 - 128) * 1.5 + 128 = 86
    assert_eq!(tone_pixel(100, 100, 100, &options(0, 1500, 1000)), (86, 86, 86));
}

#[test]
fn the_three_steps_are_clamped_once_at_the_end() {
    assert_eq!(tone_pixel(10, 200, 90, &options(-250, 1300, 400)), (36, 135, 77));
    assert_eq!(tone_pixel(250, 3, 128, &options(1000, 2000, 1500)), (255, 0, 255));
    // brightness alone would leave the range, contrast brings the value back
    // (250 + 100 - 128) * 0.5 + 128 = 239
    assert_eq!(tone_pixel(250, 250, 250, &options(1000, 500, 1000)), (239, 239, 239));
}

#[test]
fn every_pixel_of_a_buffer_is_toned() {
    let data = vec![200, 50, 50, 100, 100, 100, 10, 200, 90, 0, 0, 0];
    let o = options(-250, 1300, 400);
    let out = apply_filters(rgb(2, 2, data.clone()), &o);
    let mut expected = Vec::new();
    for px in data.chunks(3) {
        let (r, g, b) = tone_pixel(px[0], px[1], px[2], &o);
        expected.extend([r, g, b]);
    }
    assert_eq!(out.data(), &expected);
    assert_eq!(&expected[6..9], &[36, 135, 77]);
}

#[test]
fn a_slice_that_is_no_pixel_is_left_alone() {
    let o = options(100, 1000, 1000);
    let mut short = [7u8, 9];
    tone_chunk(&mut short, &o);
    assert_eq!(short, [7, 9]);
    let mut long = [1u8, 2, 3, 4];
    tone_chunk(&mut long, &o);
    assert_eq!(long, [1, 2, 3, 4]);
    let mut px = [100u8, 100, 100];
    tone_chunk(&mut px, &o);
    assert_eq!(px, [110, 110, 110]);
}

#[test]
fn tone_stage_turns_a_luminance_image_into_rgb() {
    let out = apply_filters(luma(2, 1, vec![100, 50]), &options(100, 1000, 1000));
    assert_eq!(out.layout(), PixelLayout::Rgb);
    assert_eq!(out.data(), &vec![110, 110, 110, 60, 60, 60]);
}

#[test]
fn denoise_takes_the_median_of_each_window() {
    let mut o = ProcessOptions::identity();
    o.denoise = true;
    let out = apply_filters(luma(3, 3, vec![1, 2, 3, 200, 6, 7, 9, 100, 11]), &o);
    assert_eq!(out.layout(), PixelLayout::Luma);
    assert_eq!(out.data(), &vec![2, 3, 3, 9, 7, 7, 9, 11, 11]);
}

#[test]
fn denoise_treats_each_channel_on_its_own() {
    let mut o = ProcessOptions::identity();
    o.denoise = true;
    let data = vec![
        1, 9, 10, 2, 100, 10, 3, 11, 10, 200, 200, 10, 6, 6, 10, 7, 7, 10, 9, 1, 10, 100, 2, 10,
        11, 3, 10,
    ];
    let out = apply_filters(rgb(3, 3, data), &o);
    assert_eq!(out.layout(), PixelLayout::Rgb);
    assert_eq!(
        out.data(),
        &vec![
            2, 9, 10, 3, 11, 10, 3, 11, 10, 9, 9, 10, 7, 7, 10, 7, 7, 10, 9, 2, 10, 11, 3, 10, 11,
            3, 10
        ]
    );
}

#[test]
fn denoise_of_an_empty_image_is_empty() {
    let mut o = ProcessOptions::identity();
    o.denoise = true;
    let out = apply_filters(rgb(0, 5, vec![]), &o);
    assert_eq!((out.width(), out.height()), (0, 5));
    assert!(out.data().is_empty());
}

#[test]
fn threshold_compares_each_pixel_with_its_local_mean() {
    let mut o = ProcessOptions::identity();
    o.adaptive_threshold = true;
    let row: Vec<u8> = (0..25u32).map(|x| ((x * 37 + 11) % 256) as u8).collect();
    let out = apply_filters(luma(25, 1, row), &o);
    assert_eq!(out.layout(), PixelLayout::Luma);
    assert_eq!(
        out.data(),
        &vec![
            0, 0, 0, 0, 255, 255, 255, 0, 0, 0, 255, 255, 255, 255, 0, 0, 0, 255, 255, 255, 255,
            0, 0, 0, 255
        ]
    );
}

#[test]
fn threshold_block_is_cut_at_the_edges_of_the_image() {
    let mut o = ProcessOptions::identity();
    o.adaptive_threshold = true;
    let data: Vec<u8> =
        (0..4u32).flat_map(|y| (0..30u32).map(move |x| ((x * x * 7 + y * 31) % 256) as u8)).collect();
    let out = apply_filters(luma(30, 4, data), &o);
    assert_eq!(
        out.data(),
        &vec![
            0, 0, 0, 0, 0, 255, 255, 0, 255, 0, 255, 0, 255, 255, 0, 0, 0, 255, 255, 255, 255, 0,
            0, 0, 255, 0, 255, 255, 0, 255, 0, 0, 0, 0, 255, 255, 0, 255, 255, 0, 255, 0, 0, 255,
            0, 0, 0, 0, 255, 255, 0, 0, 0, 255, 255, 0, 255, 0, 255, 0, 0, 0, 0, 255, 255, 255, 0,
            255, 255, 255, 255, 255, 0, 255, 255, 0, 0, 0, 0, 0, 0, 0, 255, 255, 255, 0, 255, 0,
            255, 0, 0, 0, 255, 255, 255, 0, 0, 255, 0, 255, 0, 255, 0, 255, 255, 255, 0, 0, 0, 0,
            0, 0, 255, 255, 0, 255, 255, 0, 255, 0
        ]
    );
}

#[test]
fn threshold_always_gives_one_channel() {
    for (denoise, brightness) in [(false, 0), (true, 0), (false, 200), (true, -300)] {
        let o = ProcessOptions {
            brightness,
            contrast: 1000,
            saturation: 1000,
            adaptive_threshold: true,
            denoise,
        };
        let colour: Vec<u8> = (0..27).map(|i| (i * 9) as u8).collect();
        let out = apply_filters(rgb(3, 3, colour), &o);
        assert_eq!(out.layout(), PixelLayout::Luma);
        assert_eq!((out.width(), out.height()), (3, 3));
        assert_eq!(out.data().len(), 9);
        assert!(out.data().iter().all(|&v| v == 0 || v == 255));
        let gray: Vec<u8> = (0..9).map(|i| (i * 20) as u8).collect();
        let out = apply_filters(luma(3, 3, gray), &o);
        assert_eq!(out.layout(), PixelLayout::Luma);
        assert_eq!(out.data().len(), 9);
    }
}

#[test]
fn denoise_runs_before_the_tone_stage() {
    let o = ProcessOptions {
        brightness: 100,
        contrast: 1000,
        saturation: 1000,
        adaptive_threshold: false,
        denoise: true,
    };
    // one bright speck in a flat image: the median removes it, then 10 levels are added
    let mut data = vec![50u8; 27];
    data[12] = 255;
    data[13] = 255;
    data[14] = 255;
    let out = apply_filters(rgb(3, 3, data), &o);
    assert_eq!(out.data(), &vec![60; 27]);
}

#[test]
fn the_pipeline_takes_what_its_stages_can_take() {
    let small = rgb(2, 2, vec![0; 12]);
    let mut o = ProcessOptions::identity();
    assert!(filters_applicable(&small, &o));
    o.denoise = true;
    o.adaptive_threshold = true;
    assert!(filters_applicable(&small, &o));
    let wide = luma(4105, 0, vec![]);
    assert!(filters_applicable(&wide, &o));
    // twice the sum of 8 421 505 pixels of 255 does not fit in 32 bits
    let fits = luma(8_421_504, 1, vec![0; 8_421_504]);
    assert!(filters_applicable(&fits, &o));
    let big = luma(8_421_505, 1, vec![0; 8_421_505]);
    assert!(!filters_applicable(&big, &o));
    o.adaptive_threshold = false;
    assert!(filters_applicable(&big, &o));
    o.adaptive_threshold = true;
    o.denoise = false;
    assert!(!filters_applicable(&luma(u32::MAX, 0, vec![]), &o));
    assert!(!filters_applicable(&luma(0, u32::MAX, vec![]), &o));
    o.adaptive_threshold = false;
    o.denoise = true;
    assert!(filters_applicable(&luma(u32::MAX, 0, vec![]), &o));

}

#[test]
fn an_image_that_a_stage_cannot_take_comes_back_untouched() {
    let mut o = ProcessOptions::identity();
    o.adaptive_threshold = true;
    let big = luma(8_421_505, 1, vec![7; 8_421_505]);
    let back = try_apply_filters(big, &o).unwrap_err();
    assert_eq!((back.width(), back.height(), back.layout()), (8_421_505, 1, PixelLayout::Luma));
    assert!(back.data().iter().all(|&v| v == 7));
    let small = luma(25, 1, (0..25u32).map(|x| ((x * 37 + 11) % 256) as u8).collect());
    let out = try_apply_filters(small, &o).unwrap();
    assert_eq!(&out.data()[0..7], &[0, 0, 0, 0, 255, 255, 255]);
}

#[test]
fn a_large_luminance_image_is_widened_pixel_by_pixel() {
    let data: Vec<u8> = (0..300u32 * 70).map(|i| (i * 13 % 256) as u8).collect();
    let out = apply_filters(luma(300, 70, data.clone()), &options(100, 1000, 1000));
    assert_eq!(out.layout(), PixelLayout::Rgb);
    assert_eq!(out.data().len(), data.len() * 3);
    for (i, &v) in data.iter().enumerate() {
        let expected = v.saturating_add(10);
        assert_eq!(&out.data()[3 * i..3 * i + 3], &[expected; 3]);
    }
}

#[test]
fn a_large_buffer_is_toned_in_order() {
    let data: Vec<u8> = (0..1000u32 * 3 * 50).map(|i| (i * 31 % 256) as u8).collect();
    let o = options(-80, 1250, 600);
    let out = apply_filters(rgb(1000, 50, data.clone()), &o);
    for (i, px) in data.chunks(3).enumerate() {
        let (r, g, b) = tone_pixel(px[0], px[1], px[2], &o);
        assert_eq!(&out.data()[3 * i..3 * i + 3], &[r, g, b]);
    }
}
