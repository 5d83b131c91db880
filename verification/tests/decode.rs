use cliobulk::demosaic::{decode_row, demosaic_pixel, superpixel, DecodeMode};
use cliobulk::frame::{CfaColor, CfaPattern, RawSensorFrame, WhiteLevels};
use cliobulk::image_ops::{decode, decode_raw_preview, decode_raw_to_image};
use cliobulk::raster::{DecodeError, DecodedImage, PixelLayout};

fn white(red: u16, green: u16, blue: u16) -> WhiteLevels {
    WhiteLevels { red, green, blue }
}

fn pattern(name: &str) -> CfaPattern {
    let colors = name
        .chars()
        .map(|c| match c {
            'R' => CfaColor::Red,
            'G' => CfaColor::Green,
            _ => CfaColor::Blue,
        })
        .collect();
    CfaPattern::new(2, 2, colors).unwrap()
}

fn ramp_4x4() -> Vec<u16> {
    (1..=16).map(|i| i * 100).collect()
}

#[test]
fn full_decode_of_an_rggb_frame() {
    let frame = RawSensorFrame::new(4, 4, ramp_4x4(), white(1023, 1023, 1023), CfaPattern::rggb()).unwrap();
    let img = decode_raw_to_image(&frame).unwrap();
    assert_eq!(img.width(), 4);
    assert_eq!(img.height(), 4);
    assert_eq!(img.layout(), PixelLayout::Rgb);
    assert_eq!(
        img.data(),
        &vec![
            24, 56, 87, 49, 49, 99, 74, 99, 124, 87, 99, 149, 124, 124, 137, 149, 149, 149, 174,
            174, 174, 186, 193, 199, 224, 230, 236, 249, 249, 249, 255, 255, 255, 255, 255, 255,
            255, 255, 255, 255, 255, 255, 255, 255, 255, 255, 255, 255
        ]
    );
}

#[test]
fn full_decode_follows_the_filter_array_and_each_white_level() {
    let frame = RawSensorFrame::new(4, 4, ramp_4x4(), white(1000, 2000, 4000), pattern("BGGR")).unwrap();
    let img = decode_raw_to_image(&frame).unwrap();
    assert_eq!(
        img.data(),
        &vec![
            89, 28, 6, 102, 25, 12, 127, 51, 19, 153, 51, 22, 140, 63, 31, 153, 76, 38, 178, 89,
            44, 204, 98, 47, 242, 117, 57, 255, 127, 63, 255, 140, 70, 255, 153, 73, 255, 165, 70,
            255, 165, 76, 255, 191, 82, 255, 188, 86
        ]
    );
}

#[test]
fn samples_above_the_white_level_are_cut_off() {
    let frame =
        RawSensorFrame::new(3, 2, vec![4000, 10, 20, 30, 40, 5000], white(1000, 1000, 1000), CfaPattern::rggb())
            .unwrap();
    let img = decode_raw_to_image(&frame).unwrap();
    assert_eq!(
        img.data(),
        &vec![255, 255, 255, 255, 2, 6, 5, 255, 255, 255, 7, 8, 255, 255, 10, 255, 255, 255]
    );
}

#[test]
fn one_pixel_of_the_full_decode() {
    let frame = RawSensorFrame::new(4, 4, ramp_4x4(), white(1023, 1023, 1023), CfaPattern::rggb()).unwrap();
    // red site in the corner: its own sample, and neighbours replicated at the edge
    assert_eq!(demosaic_pixel(&frame, 0, 0), (24, 56, 87));
    // blue site inside
    assert_eq!(demosaic_pixel(&frame, 1, 1), (149, 149, 149));
    // green site in a red row
    assert_eq!(demosaic_pixel(&frame, 1, 0), (49, 49, 99));
    // green site in a blue row
    assert_eq!(demosaic_pixel(&frame, 0, 1), (124, 124, 137));
}

#[test]
fn preview_decode_averages_each_block() {
    let frame = RawSensorFrame::new(4, 4, ramp_4x4(), white(1023, 1023, 1023), CfaPattern::rggb()).unwrap();
    let img = decode_raw_preview(&frame).unwrap();
    assert_eq!(img.width(), 2);
    assert_eq!(img.height(), 2);
    assert_eq!(img.data(), &vec![24, 87, 149, 74, 137, 199, 224, 255, 255, 255, 255, 255]);
    assert_eq!(superpixel(&frame, 1, 0), (74, 137, 199));
}

#[test]
fn preview_decode_halves_odd_dimensions_downwards() {
    let samples: Vec<u16> = (1..=15).map(|i| i * 10).collect();
    let frame = RawSensorFrame::new(5, 3, samples, white(100, 200, 150), pattern("GBRG")).unwrap();
    let img = decode_raw_preview(&frame).unwrap();
    assert_eq!((img.width(), img.height()), (2, 1));
    assert_eq!(img.data(), &vec![153, 51, 34, 204, 76, 68]);
}

#[test]
fn a_colour_missing_from_a_block_is_zero() {
    let all_green = CfaPattern::new(1, 1, vec![CfaColor::Green]).unwrap();
    let frame = RawSensorFrame::new(2, 2, vec![10, 20, 30, 40], white(100, 100, 100), all_green).unwrap();
    let img = decode_raw_preview(&frame).unwrap();
    // green: (10 + 20 + 30 + 40) * 255 / (4 * 100) = 63
    assert_eq!(img.data(), &vec![0, 63, 0]);
}

#[test]
fn preview_of_a_frame_one_photosite_wide_is_empty() {
    let frame = RawSensorFrame::new(1, 4, vec![1, 2, 3, 4], white(10, 10, 10), CfaPattern::rggb()).unwrap();
    let img = decode_raw_preview(&frame).unwrap();
    assert_eq!((img.width(), img.height()), (0, 2));
    assert!(img.data().is_empty());
}

#[test]
fn dimensions_of_both_decodes() {
    for (w, h) in [(1u32, 1u32), (2, 2), (3, 5), (7, 4), (8, 8), (9, 1)] {
        let samples = vec![500u16; (w * h) as usize];
        let frame = RawSensorFrame::new(w, h, samples, white(1000, 1000, 1000), CfaPattern::rggb()).unwrap();
        let full = decode_raw_to_image(&frame).unwrap();
        assert_eq!((full.width(), full.height()), (w, h));
        assert_eq!(full.data().len(), (w * h * 3) as usize);
        let preview = decode_raw_preview(&frame).unwrap();
        assert_eq!((preview.width(), preview.height()), (w / 2, h / 2));
        assert_eq!(preview.data().len(), ((w / 2) * (h / 2) * 3) as usize);
    }
}

#[test]
fn rows_laid_end_to_end_are_the_image() {
    let samples: Vec<u16> = (0..35).map(|i| (i * 97 % 1024) as u16).collect();
    let frame = RawSensorFrame::new(7, 5, samples, white(1023, 900, 800), pattern("GRBG")).unwrap();
    for mode in [DecodeMode::Full, DecodeMode::Preview] {
        let img = decode(&frame, mode).unwrap();
        let mut rows = Vec::new();
        for y in 0..img.height() {
            rows.extend(decode_row(&frame, mode, y));
        }
        assert_eq!(&rows, img.data());
        assert!(decode_row(&frame, mode, img.height()).is_empty());
    }
}

#[test]
fn full_decode_agrees_with_floating_point_within_one_level() {
    let (w, h) = (6usize, 5usize);
    let wl = 4095u16;
    let samples: Vec<u16> = (0..w * h).map(|i| ((i * 2654435761usize) % 4096) as u16).collect();
    let frame =
        RawSensorFrame::new(w as u32, h as u32, samples.clone(), white(wl, wl, wl), CfaPattern::rggb()).unwrap();
    let img = decode_raw_to_image(&frame).unwrap();
    let get = |x: i32, y: i32| -> u32 {
        let nx = x.clamp(0, w as i32 - 1) as usize;
        let ny = y.clamp(0, h as i32 - 1) as usize;
        samples[ny * w + nx] as u32
    };
    for y in 0..h as i32 {
        for x in 0..w as i32 {
            let orth = (get(x, y - 1) + get(x, y + 1) + get(x - 1, y) + get(x + 1, y)) / 4;
            let diag =
                (get(x - 1, y - 1) + get(x + 1, y - 1) + get(x - 1, y + 1) + get(x + 1, y + 1)) / 4;
            let hor = (get(x - 1, y) + get(x + 1, y)) / 2;
            let ver = (get(x, y - 1) + get(x, y + 1)) / 2;
            let rgb = match (y % 2, x % 2) {
                (0, 0) => [get(x, y), orth, diag],
                (0, 1) => [hor, get(x, y), ver],
                (1, 0) => [ver, get(x, y), hor],
                _ => [diag, orth, get(x, y)],
            };
            for c in 0..3 {
                let float = ((rgb[c] as f32 / wl as f32) * 255.0).clamp(0.0, 255.0) as u8;
                let ours = img.sample(x as u32, y as u32, c).unwrap();
                assert!((float as i32 - ours as i32).abs() <= 1);
            }
        }
    }
}

#[test]
fn frames_that_are_no_frames_are_refused() {
    let w = white(1000, 1000, 1000);
    assert_eq!(
        RawSensorFrame::new(0, 4, vec![], w, CfaPattern::rggb()).err(),
        Some(DecodeError::UnsupportedFormat)
    );
    assert_eq!(
        RawSensorFrame::new(4, 0, vec![], w, CfaPattern::rggb()).err(),
        Some(DecodeError::UnsupportedFormat)
    );
    assert_eq!(
        RawSensorFrame::new(2, 2, vec![1, 2, 3], w, CfaPattern::rggb()).err(),
        Some(DecodeError::UnsupportedFormat)
    );
    assert_eq!(
        RawSensorFrame::new(2, 2, vec![1, 2, 3, 4, 5], w, CfaPattern::rggb()).err(),
        Some(DecodeError::UnsupportedFormat)
    );
    assert_eq!(
        RawSensorFrame::new(2, 2, vec![1, 2, 3, 4], white(1000, 0, 1000), CfaPattern::rggb()).err(),
        Some(DecodeError::UnsupportedFormat)
    );
    assert!(RawSensorFrame::new(2, 2, vec![1, 2, 3, 4], w, CfaPattern::rggb()).is_ok());
}

#[test]
fn patterns_that_are_no_patterns_are_refused() {
    assert_eq!(CfaPattern::new(0, 2, vec![]).err(), Some(DecodeError::UnsupportedFormat));
    assert_eq!(CfaPattern::new(2, 0, vec![]).err(), Some(DecodeError::UnsupportedFormat));
    assert_eq!(
        CfaPattern::new(2, 2, vec![CfaColor::Red; 3]).err(),
        Some(DecodeError::UnsupportedFormat)
    );
    assert_eq!(
        CfaPattern::new(2, 2, vec![CfaColor::Red; 6]).err(),
        Some(DecodeError::UnsupportedFormat)
    );
    let p = pattern("GBRG");
    assert_eq!(p.color_at(0, 0), CfaColor::Green);
    assert_eq!(p.color_at(0, 1), CfaColor::Blue);
    assert_eq!(p.color_at(1, 0), CfaColor::Red);
    assert_eq!(p.color_at(3, 3), CfaColor::Green);
    assert_eq!(p.color_at(4, 7), CfaColor::Blue);
}

#[test]
fn a_buffer_must_match_the_dimensions() {
    assert!(DecodedImage::from_raw(2, 2, PixelLayout::Rgb, vec![0; 12]).is_ok());
    assert!(DecodedImage::from_raw(2, 2, PixelLayout::Luma, vec![0; 4]).is_ok());
    assert_eq!(
        DecodedImage::from_raw(2, 2, PixelLayout::Rgb, vec![0; 11]).err(),
        Some(DecodeError::BufferConstructionFailure)
    );
    assert_eq!(
        DecodedImage::from_raw(2, 2, PixelLayout::Rgb, vec![0; 13]).err(),
        Some(DecodeError::BufferConstructionFailure)
    );
    assert_eq!(
        DecodedImage::from_raw(2, 2, PixelLayout::Luma, vec![0; 12]).err(),
        Some(DecodeError::BufferConstructionFailure)
    );
    assert_eq!(DecodeError::BufferConstructionFailure.message(), "Failed to create image buffer");
    let img = DecodedImage::from_raw(2, 1, PixelLayout::Rgb, vec![1, 2, 3, 4, 5, 6]).unwrap();
    assert_eq!(img.sample(1, 0, 2), Some(6));
    assert_eq!(img.sample(2, 0, 0), None);
    assert_eq!(img.sample(0, 1, 0), None);
    assert_eq!(img.sample(0, 0, 3), None);
    assert_eq!(img.duplicate().into_raw(), vec![1, 2, 3, 4, 5, 6]);
}

#[test]
fn colour_indices() {
    assert_eq!(CfaColor::from_code(0), Some(CfaColor::Red));
    assert_eq!(CfaColor::from_code(1), Some(CfaColor::Green));
    assert_eq!(CfaColor::from_code(2), Some(CfaColor::Blue));
    assert_eq!(CfaColor::from_code(3), Some(CfaColor::Green));
    assert_eq!(CfaColor::from_code(4), None);
    assert_eq!(CfaColor::from_code(usize::MAX), None);
}

#[test]
fn rows_of_a_large_frame_come_out_in_order() {
    let (w, h) = (301u32, 403u32);
    let samples: Vec<u16> = (0..w * h).map(|i| (i.wrapping_mul(2654435761) % 16384) as u16).collect();
    let frame = RawSensorFrame::new(w, h, samples, white(16383, 15000, 14000), pattern("GRBG")).unwrap();
    for mode in [DecodeMode::Full, DecodeMode::Preview] {
        let img = decode(&frame, mode).unwrap();
        for y in [0, 1, img.height() / 2, img.height() - 1] {
            let row = decode_row(&frame, mode, y);
            let from = (y * img.width() * 3) as usize;
            assert_eq!(&img.data()[from..from + row.len()], &row[..]);
            assert_eq!(row.len(), (img.width() * 3) as usize);
        }
        for (x, y) in [(0u32, 0u32), (5, 7), (img.width() - 1, img.height() - 1)] {
            let p = match mode {
                DecodeMode::Full => demosaic_pixel(&frame, x, y),
                DecodeMode::Preview => superpixel(&frame, x, y),
            };
            assert_eq!(Some(p.0), img.sample(x, y, 0));
            assert_eq!(Some(p.1), img.sample(x, y, 1));
            assert_eq!(Some(p.2), img.sample(x, y, 2));
        }
    }
}
