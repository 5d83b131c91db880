//! The neighbourhood filters and colour conversions of the pipeline, and
//! what each of them computes.

use vstd::prelude::*;
use crate::demosaic::clamp_coord;
use crate::raster::{sample_index, ImageModel, PixelLayout};

verus! {

/// Value `k` of the 3x3 window around `(x, y)` in channel `c`, counted row by
/// row. Positions outside the image take the value of the nearest pixel.
pub open spec fn window_value(m: ImageModel, x: int, y: int, c: int, k: int) -> int {
    m.data[sample_index(
        m,
        clamp_coord(x + k % 3 - 1, m.width as int),
        clamp_coord(y + k / 3 - 1, m.height as int),
        c,
    )] as int
}

/// How many of the first `k` values of the window are at most `v`.
pub open spec fn at_most(m: ImageModel, x: int, y: int, c: int, v: int, k: nat) -> nat
    decreases k,
{
    if k == 0 {
        0
    } else {
        at_most(m, x, y, c, v, (k - 1) as nat) + if window_value(m, x, y, c, k - 1) <= v {
            1nat
        } else {
            0nat
        }
    }
}

/// The least value from `v` on that at least five of the nine values of the
/// window do not exceed.
pub open spec fn median_from(m: ImageModel, x: int, y: int, c: int, v: int) -> int
    decreases 255 - v,
{
    if v >= 255 || at_most(m, x, y, c, v, 9) >= 5 {
        v
    } else {
        median_from(m, x, y, c, v + 1)
    }
}

/// The median of the 3x3 window around `(x, y)` in channel `c`: the fifth
/// smallest of its nine values.
pub open spec fn median9(m: ImageModel, x: int, y: int, c: int) -> int {
    median_from(m, x, y, c, 0)
}

/// The image after the median filter of radius 1: every channel of every
/// pixel becomes the median of its window.
pub open spec fn denoised(m: ImageModel) -> ImageModel {
    let n = m.layout.channels() as int;
    let w = m.width as int;
    ImageModel {
        data: Seq::new(m.data.len(), |i: int| median9(m, (i / n) % w, (i / n) / w, i % n) as u8),
        ..m
    }
}

/// The median filter can take the image: it is empty, or both dimensions
/// leave room for the radius in a signed 32-bit coordinate.
pub open spec fn median_supported(m: ImageModel) -> bool {
    m.width == 0 || m.height == 0 || (m.width < 0x7FFF_FFFF && m.height < 0x7FFF_FFFF)
}

/// Sum of the pixels `x_lo..=x_hi` of row `y` of a one-channel image.
pub open spec fn span_sum(m: ImageModel, y: int, x_lo: int, x_hi: int) -> int
    decreases x_hi - x_lo + 1,
{
    if x_hi < x_lo {
        0
    } else {
        span_sum(m, y, x_lo, x_hi - 1) + m.data[y * m.width + x_hi] as int
    }
}

/// Sum of the pixels of the rows `y_lo..=y_hi` between the columns `x_lo`
/// and `x_hi` of a one-channel image.
pub open spec fn block_total(m: ImageModel, x_lo: int, x_hi: int, y_lo: int, y_hi: int) -> int
    decreases y_hi - y_lo + 1,
{
    if y_hi < y_lo {
        0
    } else {
        block_total(m, x_lo, x_hi, y_lo, y_hi - 1) + span_sum(m, y_hi, x_lo, x_hi)
    }
}

/// The mean, fraction dropped, of the pixels that lie both in the image and
/// in the square of the given radius around `(x, y)`.
pub open spec fn local_mean(m: ImageModel, x: int, y: int, radius: int) -> int {
    let x_lo = clamp_coord(x - radius, m.width as int);
    let x_hi = clamp_coord(x + radius, m.width as int);
    let y_lo = clamp_coord(y - radius, m.height as int);
    let y_hi = clamp_coord(y + radius, m.height as int);
    block_total(m, x_lo, x_hi, y_lo, y_hi) / ((y_hi - y_lo + 1) * (x_hi - x_lo + 1))
}

/// A one-channel image binarised against its local mean: a pixel at least as
/// bright as the mean around it, less `delta`, becomes 255, any other 0.
pub open spec fn binarised(m: ImageModel, radius: int, delta: int) -> ImageModel {
    let w = m.width as int;
    ImageModel {
        data: Seq::new(
            m.data.len(),
            |i: int|
                if m.data[i] as int >= local_mean(m, i % w, i / w, radius) - delta {
                    255u8
                } else {
                    0u8
                },
        ),
        ..m
    }
}

/// The local means of the image can be formed: twice the sum of all its
/// pixels fits in 32 bits whatever their values, and so does each dimension
/// plus one.
pub open spec fn threshold_supported(m: ImageModel) -> bool {
    &&& m.width * m.height * 510 <= u32::MAX
    &&& m.width < u32::MAX
    &&& m.height < u32::MAX
}

/// A one-channel image can be widened to three channels: the wider buffer
/// has a length.
pub open spec fn widening_supported(m: ImageModel) -> bool {
    m.width * m.height * 3 <= usize::MAX
}

/// The luminance bytes that `image` makes of the RGB buffer of a `width` by
/// `height` image.
pub uninterp spec fn luma_of_rgb(width: nat, height: nat, data: Seq<u8>) -> Seq<u8>;

/// The RGB bytes that `image` makes of the luminance buffer of a `width` by
/// `height` image.
pub uninterp spec fn rgb_of_luma(width: nat, height: nat, data: Seq<u8>) -> Seq<u8>;

/// The image with one luminance byte per pixel.
pub open spec fn as_luma(m: ImageModel) -> ImageModel {
    match m.layout {
        PixelLayout::Luma => m,
        PixelLayout::Rgb => ImageModel {
            layout: PixelLayout::Luma,
            data: luma_of_rgb(m.width, m.height, m.data),
            ..m
        },
    }
}

/// The image with three bytes per pixel.
pub open spec fn as_rgb(m: ImageModel) -> ImageModel {
    match m.layout {
        PixelLayout::Rgb => m,
        PixelLayout::Luma => ImageModel {
            layout: PixelLayout::Rgb,
            data: rgb_of_luma(m.width, m.height, m.data),
            ..m
        },
    }
}

/// Calls `imageproc::filter::median_filter` on an RGB image. Trusted: each
/// output value is the median of the window of the given radius around it in
/// its own channel, the image being continued past its edges by its nearest
/// pixels, and the output has the dimensions of the input.
#[verifier::external_body]
pub(crate) fn median_rgb(width: u32, height: u32, data: Vec<u8>, radius: u32) -> (out: Vec<u8>)
    requires
        radius == 1,
        data@.len() == (width as nat) * (height as nat) * 3,
        width == 0 || height == 0 || (width < 0x7FFF_FFFF && height < 0x7FFF_FFFF),
    ensures
        out@ == denoised(
            ImageModel {
                width: width as nat,
                height: height as nat,
                layout: PixelLayout::Rgb,
                data: data@,
            },
        ).data,
{
    let img = image::RgbImage::from_raw(width, height, data).unwrap();
    imageproc::filter::median_filter(&img, radius, radius).into_raw()
}

/// Calls `imageproc::filter::median_filter` on a one-channel image. Trusted
/// as for an RGB image.
#[verifier::external_body]
pub(crate) fn median_luma(width: u32, height: u32, data: Vec<u8>, radius: u32) -> (out: Vec<u8>)
    requires
        radius == 1,
        data@.len() == (width as nat) * (height as nat),
        width == 0 || height == 0 || (width < 0x7FFF_FFFF && height < 0x7FFF_FFFF),
    ensures
        out@ == denoised(
            ImageModel {
                width: width as nat,
                height: height as nat,
                layout: PixelLayout::Luma,
                data: data@,
            },
        ).data,
{
    let img = image::GrayImage::from_raw(width, height, data).unwrap();
    imageproc::filter::median_filter(&img, radius, radius).into_raw()
}

/// Calls `imageproc::contrast::adaptive_threshold`. Trusted: each output
/// pixel is 255 where the input pixel is at least the mean of the part of its
/// block that lies in the image, less `delta`, and 0 elsewhere; the output has
/// the dimensions of the input. The sums over the image are formed in 32
/// bits and added in pairs, and the radius must not be 0.
#[verifier::external_body]
pub(crate) fn threshold_luma(
    width: u32,
    height: u32,
    data: Vec<u8>,
    radius: u32,
    delta: i32,
) -> (out: Vec<u8>)
    requires
        0 < radius <= 0x1000,
        -0x1000 <= delta <= 0x1000,
        data@.len() == (width as nat) * (height as nat),
        (width as nat) * (height as nat) * 510 <= u32::MAX,
        width < u32::MAX,
        height < u32::MAX,
    ensures
        out@ == binarised(
            ImageModel {
                width: width as nat,
                height: height as nat,
                layout: PixelLayout::Luma,
                data: data@,
            },
            radius as int,
            delta as int,
        ).data,
{
    let img = image::GrayImage::from_raw(width, height, data).unwrap();
    imageproc::contrast::adaptive_threshold(&img, radius, delta).into_raw()
}

/// Calls `image::DynamicImage::to_luma8` on an RGB image. Trusted: the
/// result depends on the image alone and has one byte per pixel.
#[verifier::external_body]
pub(crate) fn rgb_to_luma(width: u32, height: u32, data: Vec<u8>) -> (out: Vec<u8>)
    requires
        data@.len() == (width as nat) * (height as nat) * 3,
    ensures
        out@ == luma_of_rgb(width as nat, height as nat, data@),
        out@.len() == (width as nat) * (height as nat),
{
    let img = image::RgbImage::from_raw(width, height, data).unwrap();
    image::DynamicImage::ImageRgb8(img).to_luma8().into_raw()
}

/// Calls `image::DynamicImage::to_rgb8` on a one-channel image. Trusted: the
/// result depends on the image alone and has three bytes per pixel. The
/// length of the result must fit in a `usize`.
#[verifier::external_body]
pub(crate) fn luma_to_rgb(width: u32, height: u32, data: Vec<u8>) -> (out: Vec<u8>)
    requires
        data@.len() == (width as nat) * (height as nat),
        (width as nat) * (height as nat) * 3 <= usize::MAX,
    ensures
        out@ == rgb_of_luma(width as nat, height as nat, data@),
        out@.len() == (width as nat) * (height as nat) * 3,
{
    let img = image::GrayImage::from_raw(width, height, data).unwrap();
    image::DynamicImage::ImageLuma8(img).to_rgb8().into_raw()
}

} // verus!
