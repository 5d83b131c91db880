//! Decoding of sensor frames and the filter pipeline.

use vstd::prelude::*;
use vstd::arithmetic::div_mod::lemma_fundamental_div_mod_converse;
use crate::commands::ProcessOptions;
use crate::demosaic::{
    image_byte,
    image_spec,
    out_height,
    out_width,
    output_height,
    output_width,
    row_spec,
    rows_spec,
    DecodeMode,
};
use crate::filters::{
    as_luma,
    as_rgb,
    binarised,
    denoised,
    luma_to_rgb,
    median_luma,
    median_rgb,
    median_supported,
    rgb_to_luma,
    threshold_luma,
    threshold_supported,
    widening_supported,
};
use crate::frame::{FrameModel, RawSensorFrame};
use crate::parallel::{decode_rows, tone_pixels};
use crate::raster::{DecodeError, DecodedImage, ImageModel, PixelLayout};
use crate::tone::tone_buffer_spec;

verus! {

/// The first `n` rows hold `n` times the bytes of one row.
pub proof fn lemma_rows_len(f: FrameModel, mode: DecodeMode, n: nat)
    ensures
        rows_spec(f, mode, n).len() == 3 * out_width(f, mode) * n,
    decreases n,
{
    let w = out_width(f, mode) as int;
    if n > 0 {
        lemma_rows_len(f, mode, (n - 1) as nat);
        assert(3 * w * (n - 1) + 3 * w == 3 * w * n) by (nonlinear_arith);
    } else {
        assert(3 * w * 0 == 0) by (nonlinear_arith);
    }
}

/// Rows laid one after the other are the image: byte `i` of the first `n`
/// rows is byte `i` of the image.
pub proof fn lemma_rows_bytes(f: FrameModel, mode: DecodeMode, n: nat, i: int)
    requires
        0 <= i < 3 * out_width(f, mode) * n,
    ensures
        rows_spec(f, mode, n).len() == 3 * out_width(f, mode) * n,
        rows_spec(f, mode, n)[i] == image_byte(f, mode, i),
    decreases n,
{
    let w = out_width(f, mode) as int;
    lemma_rows_len(f, mode, n);
    if n == 0 {
        assert(3 * w * 0 == 0) by (nonlinear_arith);
    } else {
        let m = (n - 1) as nat;
        lemma_rows_len(f, mode, m);
        let start = 3 * w * m;
        assert(3 * w * m + 3 * w == 3 * w * n) by (nonlinear_arith)
            requires
                m == n - 1,
        ;
        if i < start {
            lemma_rows_bytes(f, mode, m, i);
        } else {
            let j = i - start;
            let a = w * m;
            assert(start == 3 * a) by (nonlinear_arith)
                requires
                    start == 3 * w * m,
                    a == w * m,
            ;
            assert(0 <= j < 3 * w);
            assert(w > 0);
            assert(rows_spec(f, mode, n)[i] == row_spec(f, mode, m as int)[j]);
            assert(i / 3 == a + j / 3);
            assert(i % 3 == j % 3);
            assert(a + j / 3 == (m as int) * w + j / 3) by (nonlinear_arith)
                requires
                    a == w * m,
            ;
            lemma_fundamental_div_mod_converse(i / 3, w, m as int, j / 3);
        }
    }
}

/// The rows of a decode, laid one after the other, are its image.
pub proof fn lemma_rows_are_image(f: FrameModel, mode: DecodeMode)
    ensures
        rows_spec(f, mode, out_height(f, mode)) == image_spec(f, mode),
{
    let n = out_height(f, mode);
    lemma_rows_len(f, mode, n);
    assert forall|i: int| 0 <= i < 3 * out_width(f, mode) * n implies rows_spec(f, mode, n)[i]
        == image_spec(f, mode)[i] by {
        lemma_rows_bytes(f, mode, n, i);
    }
    assert(rows_spec(f, mode, n) =~= image_spec(f, mode));
}

/// What a decode returns when the image fits in memory.
pub open spec fn decoded(f: FrameModel, mode: DecodeMode) -> ImageModel {
    ImageModel {
        width: out_width(f, mode),
        height: out_height(f, mode),
        layout: PixelLayout::Rgb,
        data: image_spec(f, mode),
    }
}

/// The number of bytes of the decoded image can be the length of a buffer.
pub open spec fn decodable(f: FrameModel, mode: DecodeMode) -> bool {
    3 * out_width(f, mode) * out_height(f, mode) <= usize::MAX
}

/// Decode a frame in the given mode. The rows are decoded independently of
/// each other. The only failure is an image too large for a buffer.
pub fn decode(frame: &RawSensorFrame, mode: DecodeMode) -> (res: Result<DecodedImage, DecodeError>)
    ensures
        frame@.wf(),
        res is Ok <==> decodable(frame@, mode),
        res matches Ok(img) ==> img@ == decoded(frame@, mode) && img@.wf(),
        res matches Err(e) ==> e == DecodeError::BufferConstructionFailure,
{
    let ow = output_width(frame, mode);
    let oh = output_height(frame, mode);
    assert((ow as int) * (oh as int) <= 0xFFFF_FFFF * 0xFFFF_FFFF) by (nonlinear_arith)
        requires
            0 <= ow <= 0xFFFF_FFFF,
            0 <= oh <= 0xFFFF_FFFF,
    ;
    let bytes: u128 = 3 * ((ow as u128) * (oh as u128));
    assert(bytes == 3 * out_width(frame@, mode) * out_height(frame@, mode)) by (nonlinear_arith)
        requires
            bytes == 3 * ((ow as int) * (oh as int)),
            ow == out_width(frame@, mode),
            oh == out_height(frame@, mode),
    ;
    if bytes > usize::MAX as u128 {
        return Err(DecodeError::BufferConstructionFailure);
    }
    let buffer = decode_rows(frame, mode, oh);
    proof {
        lemma_rows_are_image(frame@, mode);
        assert(buffer@.len() == (ow as nat) * (oh as nat) * 3) by (nonlinear_arith)
            requires
                buffer@.len() == 3 * (ow as nat) * (oh as nat),
        ;
    }
    DecodedImage::from_raw(ow, oh, PixelLayout::Rgb, buffer)
}

/// Decode a frame at full resolution by bilinear interpolation: the image
/// has the dimensions of the frame.
pub fn decode_raw_to_image(frame: &RawSensorFrame) -> (res: Result<DecodedImage, DecodeError>)
    ensures
        frame@.wf(),
        res is Ok <==> decodable(frame@, DecodeMode::Full),
        res matches Ok(img) ==> {
            &&& img@ == decoded(frame@, DecodeMode::Full)
            &&& img@.wf()
            &&& img@.width == frame@.width
            &&& img@.height == frame@.height
        },
        res matches Err(e) ==> e == DecodeError::BufferConstructionFailure,
{
    decode(frame, DecodeMode::Full)
}

/// Decode a frame at half resolution: each output pixel is the average of
/// one 2x2 block of photosites, colour by colour.
pub fn decode_raw_preview(frame: &RawSensorFrame) -> (res: Result<DecodedImage, DecodeError>)
    ensures
        frame@.wf(),
        res is Ok <==> decodable(frame@, DecodeMode::Preview),
        res matches Ok(img) ==> {
            &&& img@ == decoded(frame@, DecodeMode::Preview)
            &&& img@.wf()
            &&& img@.width == frame@.width / 2
            &&& img@.height == frame@.height / 2
        },
        res matches Err(e) ==> e == DecodeError::BufferConstructionFailure,
{
    decode(frame, DecodeMode::Preview)
}

/// Radius of the median filter of the denoise stage.
pub const DENOISE_RADIUS: u32 = 1;

/// Radius of the block that a pixel is compared with in the threshold stage.
pub const THRESHOLD_RADIUS: u32 = 10;

/// What is taken off the local mean before a pixel is compared with it.
pub const THRESHOLD_DELTA: i32 = 0;

/// The image after the denoise stage.
pub open spec fn denoise_stage(m: ImageModel, o: ProcessOptions) -> ImageModel {
    if o.denoise {
        denoised(m)
    } else {
        m
    }
}

/// The image after the fused tone stage, which works on RGB.
pub open spec fn tone_stage(m: ImageModel, o: ProcessOptions) -> ImageModel {
    if o.tone_active() {
        ImageModel { data: tone_buffer_spec(as_rgb(m).data, o), ..as_rgb(m) }
    } else {
        m
    }
}

/// The image after the threshold stage, which works on luminance.
pub open spec fn threshold_stage(m: ImageModel, o: ProcessOptions) -> ImageModel {
    if o.adaptive_threshold {
        binarised(as_luma(m), THRESHOLD_RADIUS as int, THRESHOLD_DELTA as int)
    } else {
        m
    }
}

/// The image after the whole pipeline: denoise, then tone, then threshold.
pub open spec fn filtered(m: ImageModel, o: ProcessOptions) -> ImageModel {
    threshold_stage(tone_stage(denoise_stage(m, o), o), o)
}

/// The stages that the options switch on can take the image.
pub open spec fn filters_supported(m: ImageModel, o: ProcessOptions) -> bool {
    &&& o.denoise ==> median_supported(m)
    &&& o.tone_active() && m.layout == PixelLayout::Luma ==> widening_supported(m)
    &&& o.adaptive_threshold ==> threshold_supported(m)
}

/// Whether `apply_filters` can take the image under these options.
pub fn filters_applicable(img: &DecodedImage, options: &ProcessOptions) -> (ok: bool)
    ensures
        ok == filters_supported(img@, *options),
{
    let w = img.width();
    let h = img.height();
    let median_ok = !options.denoise || w == 0 || h == 0 || (w < 0x7FFF_FFFF && h < 0x7FFF_FFFF);
    assert((w as int) * (h as int) <= 0xFFFF_FFFF * 0xFFFF_FFFF) by (nonlinear_arith)
        requires
            0 <= w <= 0xFFFF_FFFF,
            0 <= h <= 0xFFFF_FFFF,
    ;
    let pixels: u64 = (w as u64) * (h as u64);
    assert(pixels == img@.width * img@.height) by (nonlinear_arith)
        requires
            pixels == (w as int) * (h as int),
            w == img@.width,
            h == img@.height,
    ;
    let widening_ok = !options.has_tone() || match img.layout() {
        PixelLayout::Rgb => true,
        PixelLayout::Luma => (pixels as u128) * 3 <= usize::MAX as u128,
    };
    let threshold_ok = !options.adaptive_threshold || (pixels <= 8_421_504 && w < u32::MAX && h
        < u32::MAX);
    median_ok && widening_ok && threshold_ok
}

/// Run the pipeline over an image: the median filter if `denoise` is set,
/// then brightness, contrast and saturation in one pass if any of them is not
/// at its neutral value, then the adaptive threshold if it is set. A stage
/// that is switched off leaves the image as it is.
pub fn apply_filters(img: DecodedImage, options: &ProcessOptions) -> (out: DecodedImage)
    requires
        filters_supported(img@, *options),
    ensures
        out@ == filtered(img@, *options),
        out@.wf(),
        out@.width == img@.width,
        out@.height == img@.height,
        options.is_identity() ==> out@ == img@,
        options.adaptive_threshold ==> out@.layout == PixelLayout::Luma,
        !options.adaptive_threshold && options.tone_active() ==> out@.layout == PixelLayout::Rgb,
{
    let width = img.width();
    let height = img.height();
    let mut layout = img.layout();
    let ghost start = img@;
    let mut data = img.into_raw();
    proof {
        lemma_buffer_len(start);
    }

    if options.denoise {
        data = match layout {
            PixelLayout::Rgb => median_rgb(width, height, data, DENOISE_RADIUS),
            PixelLayout::Luma => median_luma(width, height, data, DENOISE_RADIUS),
        };
    }
    let ghost after_denoise = ImageModel {
        width: width as nat,
        height: height as nat,
        layout,
        data: data@,
    };
    assert(after_denoise == denoise_stage(start, *options));
    assert(after_denoise.wf());

    if options.has_tone() {
        match layout {
            PixelLayout::Rgb => {},
            PixelLayout::Luma => {
                data = luma_to_rgb(width, height, data);
                layout = PixelLayout::Rgb;
            },
        }
        tone_pixels(&mut data, options);
    }
    let ghost after_tone = ImageModel {
        width: width as nat,
        height: height as nat,
        layout,
        data: data@,
    };
    assert(after_tone == tone_stage(after_denoise, *options));
    assert(after_tone.wf());

    if options.adaptive_threshold {
        match layout {
            PixelLayout::Luma => {},
            PixelLayout::Rgb => {
                data = rgb_to_luma(width, height, data);
                layout = PixelLayout::Luma;
            },
        }
        data = threshold_luma(width, height, data, THRESHOLD_RADIUS, THRESHOLD_DELTA);
    }
    let ghost result = ImageModel {
        width: width as nat,
        height: height as nat,
        layout,
        data: data@,
    };
    assert(result == threshold_stage(after_tone, *options));
    assert(result.wf());
    proof {
        lemma_buffer_len(result);
    }
    DecodedImage::assemble(width, height, layout, data)
}

/// Run the pipeline where its stages can take the image, and hand the image
/// back untouched where they cannot.
pub fn try_apply_filters(img: DecodedImage, options: &ProcessOptions) -> (res: Result<
    DecodedImage,
    DecodedImage,
>)
    ensures
        res is Ok <==> filters_supported(img@, *options),
        res matches Ok(out) ==> out@ == filtered(img@, *options) && out@.wf(),
        res matches Err(same) ==> same@ == img@,
{
    if filters_applicable(&img, options) {
        Ok(apply_filters(img, options))
    } else {
        Err(img)
    }
}

/// The length of the buffer of a well-formed image, written with the
/// channels last.
pub proof fn lemma_buffer_len(m: ImageModel)
    requires
        m.wf(),
    ensures
        m.layout == PixelLayout::Rgb ==> m.data.len() == m.width * m.height * 3,
        m.layout == PixelLayout::Luma ==> m.data.len() == m.width * m.height,
{
    assert(m.width * m.height * 1 == m.width * m.height) by (nonlinear_arith);
}

/// Under options that switch every stage off the pipeline returns its input.
pub proof fn lemma_identity_options(m: ImageModel, o: ProcessOptions)
    requires
        o.is_identity(),
    ensures
        filtered(m, o) == m,
{
}

/// With the adaptive threshold on, the result has one channel, whatever the
/// layout of the input and whatever the other options.
pub proof fn lemma_threshold_is_monochrome(m: ImageModel, o: ProcessOptions)
    requires
        o.adaptive_threshold,
    ensures
        filtered(m, o).layout == PixelLayout::Luma,
{
}

/// The pipeline never changes the dimensions of an image.
pub proof fn lemma_filters_keep_dimensions(m: ImageModel, o: ProcessOptions)
    ensures
        filtered(m, o).width == m.width,
        filtered(m, o).height == m.height,
{
}

/// A full decode has the dimensions of the frame, a preview decode half of
/// each, rounded down; and either holds three bytes per pixel.
pub proof fn lemma_decoded_dimensions(f: FrameModel, mode: DecodeMode)
    ensures
        decoded(f, DecodeMode::Full).width == f.width,
        decoded(f, DecodeMode::Full).height == f.height,
        decoded(f, DecodeMode::Preview).width == f.width / 2,
        decoded(f, DecodeMode::Preview).height == f.height / 2,
        decoded(f, mode).layout == PixelLayout::Rgb,
        decoded(f, mode).wf(),
{
    let w = out_width(f, mode);
    let h = out_height(f, mode);
    assert(3 * w * h == w * h * 3) by (nonlinear_arith);
}

} // verus!
