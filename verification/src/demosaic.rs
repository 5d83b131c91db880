//! Reconstruction of RGB pixels from a sensor mosaic, at full resolution by
//! bilinear interpolation and at half resolution by averaging 2x2 blocks.

use vstd::prelude::*;
use crate::frame::{CfaColor, FrameModel, RawSensorFrame};

verus! {

/// How a frame is turned into an image.
#[derive(Clone, Copy, Debug, PartialEq, Eq, Structural)]
pub enum DecodeMode {
    /// One output pixel per photosite.
    Full,
    /// One output pixel per 2x2 block of photosites.
    Preview,
}

/// A coordinate moved to the nearest one inside `0..n`.
pub open spec fn clamp_coord(v: int, n: int) -> int {
    if v < 0 {
        0
    } else if v >= n {
        n - 1
    } else {
        v
    }
}

/// The sample at `(x, y)`, or at the nearest photosite when `(x, y)` lies
/// outside the frame: edges are replicated, never wrapped.
pub open spec fn sample_at(f: FrameModel, x: int, y: int) -> int {
    f.samples[clamp_coord(y, f.height as int) * f.width + clamp_coord(x, f.width as int)] as int
}

/// Mean of the four neighbours above, below, left and right.
pub open spec fn orthogonal_mean(f: FrameModel, x: int, y: int) -> int {
    (sample_at(f, x, y - 1) + sample_at(f, x, y + 1) + sample_at(f, x - 1, y) + sample_at(
        f,
        x + 1,
        y,
    )) / 4
}

/// Mean of the four diagonal neighbours.
pub open spec fn diagonal_mean(f: FrameModel, x: int, y: int) -> int {
    (sample_at(f, x - 1, y - 1) + sample_at(f, x + 1, y - 1) + sample_at(f, x - 1, y + 1)
        + sample_at(f, x + 1, y + 1)) / 4
}

/// Mean of the left and right neighbours.
pub open spec fn horizontal_mean(f: FrameModel, x: int, y: int) -> int {
    (sample_at(f, x - 1, y) + sample_at(f, x + 1, y)) / 2
}

/// Mean of the neighbours above and below.
pub open spec fn vertical_mean(f: FrameModel, x: int, y: int) -> int {
    (sample_at(f, x, y - 1) + sample_at(f, x, y + 1)) / 2
}

/// Red, green and blue at `(x, y)` in sensor units. The colour of the
/// photosite is taken as sampled; the two others are interpolated. On a green
/// photosite red comes from the row if the next photosite in the row is red,
/// and from the column otherwise; blue comes from the other axis.
pub open spec fn interpolated(f: FrameModel, x: int, y: int) -> (int, int, int) {
    match f.cfa.color_at(y, x) {
        CfaColor::Red => (sample_at(f, x, y), orthogonal_mean(f, x, y), diagonal_mean(f, x, y)),
        CfaColor::Blue => (diagonal_mean(f, x, y), orthogonal_mean(f, x, y), sample_at(f, x, y)),
        CfaColor::Green => if f.cfa.color_at(y, x + 1) == CfaColor::Red {
            (horizontal_mean(f, x, y), sample_at(f, x, y), vertical_mean(f, x, y))
        } else {
            (vertical_mean(f, x, y), sample_at(f, x, y), horizontal_mean(f, x, y))
        },
    }
}

/// A value in sensor units as an eight-bit level: `numerator / denominator`
/// of full scale, times 255, cut off at 255, the fraction dropped.
pub open spec fn scale_level(numerator: int, denominator: int) -> int {
    if numerator * 255 / denominator >= 255 {
        255
    } else {
        numerator * 255 / denominator
    }
}

/// The output pixel at `(x, y)` of the full decode.
pub open spec fn full_pixel(f: FrameModel, x: int, y: int) -> (u8, u8, u8) {
    let (r, g, b) = interpolated(f, x, y);
    (
        scale_level(r, f.white.red as int) as u8,
        scale_level(g, f.white.green as int) as u8,
        scale_level(b, f.white.blue as int) as u8,
    )
}

/// What the photosite `(x, y)` adds to the sum of colour `c`.
pub open spec fn site_sum(f: FrameModel, x: int, y: int, c: CfaColor) -> int {
    if f.cfa.color_at(y, x) == c {
        f.samples[y * f.width + x] as int
    } else {
        0
    }
}

/// What the photosite `(x, y)` adds to the count of colour `c`.
pub open spec fn site_count(f: FrameModel, x: int, y: int, c: CfaColor) -> int {
    if f.cfa.color_at(y, x) == c {
        1
    } else {
        0
    }
}

/// Sum of the samples of colour `c` in the 2x2 block `(bx, by)`.
pub open spec fn block_sum(f: FrameModel, bx: int, by: int, c: CfaColor) -> int {
    site_sum(f, 2 * bx, 2 * by, c) + site_sum(f, 2 * bx + 1, 2 * by, c) + site_sum(
        f,
        2 * bx,
        2 * by + 1,
        c,
    ) + site_sum(f, 2 * bx + 1, 2 * by + 1, c)
}

/// Number of photosites of colour `c` in the 2x2 block `(bx, by)`.
pub open spec fn block_count(f: FrameModel, bx: int, by: int, c: CfaColor) -> int {
    site_count(f, 2 * bx, 2 * by, c) + site_count(f, 2 * bx + 1, 2 * by, c) + site_count(
        f,
        2 * bx,
        2 * by + 1,
        c,
    ) + site_count(f, 2 * bx + 1, 2 * by + 1, c)
}

/// The level of colour `c` for the block `(bx, by)`: the mean of its samples
/// of that colour, or 0 when the block has none.
pub open spec fn block_level(f: FrameModel, bx: int, by: int, c: CfaColor) -> int {
    if block_count(f, bx, by, c) == 0 {
        0
    } else {
        scale_level(block_sum(f, bx, by, c), block_count(f, bx, by, c) * f.white.of(c))
    }
}

/// The output pixel at `(bx, by)` of the preview decode.
pub open spec fn preview_pixel(f: FrameModel, bx: int, by: int) -> (u8, u8, u8) {
    (
        block_level(f, bx, by, CfaColor::Red) as u8,
        block_level(f, bx, by, CfaColor::Green) as u8,
        block_level(f, bx, by, CfaColor::Blue) as u8,
    )
}

/// Width of the decoded image.
pub open spec fn out_width(f: FrameModel, mode: DecodeMode) -> nat {
    match mode {
        DecodeMode::Full => f.width,
        DecodeMode::Preview => f.width / 2,
    }
}

/// Height of the decoded image.
pub open spec fn out_height(f: FrameModel, mode: DecodeMode) -> nat {
    match mode {
        DecodeMode::Full => f.height,
        DecodeMode::Preview => f.height / 2,
    }
}

/// The output pixel at `(x, y)`.
pub open spec fn pixel_spec(f: FrameModel, mode: DecodeMode, x: int, y: int) -> (u8, u8, u8) {
    match mode {
        DecodeMode::Full => full_pixel(f, x, y),
        DecodeMode::Preview => preview_pixel(f, x, y),
    }
}

/// Channel `c` of a pixel: 0 is red, 1 green, anything else blue.
pub open spec fn channel_of(p: (u8, u8, u8), c: int) -> u8 {
    if c == 0 {
        p.0
    } else if c == 1 {
        p.1
    } else {
        p.2
    }
}

/// The bytes of output row `y`.
pub open spec fn row_spec(f: FrameModel, mode: DecodeMode, y: int) -> Seq<u8> {
    Seq::new(3 * out_width(f, mode), |i: int| channel_of(pixel_spec(f, mode, i / 3, y), i % 3))
}

/// The bytes of the first `n` output rows, one row after the other.
pub open spec fn rows_spec(f: FrameModel, mode: DecodeMode, n: nat) -> Seq<u8>
    decreases n,
{
    if n == 0 {
        Seq::empty()
    } else {
        rows_spec(f, mode, (n - 1) as nat) + row_spec(f, mode, n - 1)
    }
}

/// Byte `i` of the decoded image: a channel of the pixel that `i` falls in.
pub open spec fn image_byte(f: FrameModel, mode: DecodeMode, i: int) -> u8 {
    let w = out_width(f, mode) as int;
    channel_of(pixel_spec(f, mode, (i / 3) % w, (i / 3) / w), i % 3)
}

/// The bytes of the decoded image: three per pixel, row by row.
pub open spec fn image_spec(f: FrameModel, mode: DecodeMode) -> Seq<u8> {
    Seq::new(3 * out_width(f, mode) * out_height(f, mode), |i: int| image_byte(f, mode, i))
}

fn clamped_sample(frame: &RawSensorFrame, x: i64, y: i64) -> (s: u32)
    ensures
        frame@.wf(),
        s == sample_at(frame@, x as int, y as int),
        s <= 0xFFFF,
{
    let w = frame.width();
    let h = frame.height();
    let cx: u32 = if x < 0 {
        0
    } else if x >= w as i64 {
        w - 1
    } else {
        x as u32
    };
    let cy: u32 = if y < 0 {
        0
    } else if y >= h as i64 {
        h - 1
    } else {
        y as u32
    };
    frame.sample(cx, cy) as u32
}

fn scale_level_exec(numerator: u32, denominator: u32) -> (level: u8)
    requires
        numerator <= 4 * 0xFFFF,
        denominator > 0,
    ensures
        level == scale_level(numerator as int, denominator as int),
{
    let q: u32 = numerator * 255 / denominator;
    if q >= 255 {
        255
    } else {
        q as u8
    }
}

/// The pixel at `(x, y)` of the full decode: the sampled colour as it is, the
/// two others as the mean of the nearest photosites of that colour.
pub fn demosaic_pixel(frame: &RawSensorFrame, x: u32, y: u32) -> (p: (u8, u8, u8))
    requires
        x < frame@.width,
        y < frame@.height,
    ensures
        p == full_pixel(frame@, x as int, y as int),
{
    let xi: i64 = x as i64;
    let yi: i64 = y as i64;
    let here = clamped_sample(frame, xi, yi);
    let up = clamped_sample(frame, xi, yi - 1);
    let down = clamped_sample(frame, xi, yi + 1);
    let left = clamped_sample(frame, xi - 1, yi);
    let right = clamped_sample(frame, xi + 1, yi);
    let white = frame.white();
    let (r, g, b): (u32, u32, u32) = match frame.color_at(y as usize, x as usize) {
        CfaColor::Green => {
            let along: u32 = (left + right) / 2;
            let across: u32 = (up + down) / 2;
            match frame.color_at(y as usize, x as usize + 1) {
                CfaColor::Red => (along, here, across),
                _ => (across, here, along),
            }
        },
        site => {
            let up_left = clamped_sample(frame, xi - 1, yi - 1);
            let up_right = clamped_sample(frame, xi + 1, yi - 1);
            let down_left = clamped_sample(frame, xi - 1, yi + 1);
            let down_right = clamped_sample(frame, xi + 1, yi + 1);
            let orthogonal: u32 = (up + down + left + right) / 4;
            let diagonal: u32 = (up_left + up_right + down_left + down_right) / 4;
            match site {
                CfaColor::Red => (here, orthogonal, diagonal),
                _ => (diagonal, orthogonal, here),
            }
        },
    };
    (
        scale_level_exec(r, white.red as u32),
        scale_level_exec(g, white.green as u32),
        scale_level_exec(b, white.blue as u32),
    )
}

fn block_level_exec(frame: &RawSensorFrame, bx: u32, by: u32, c: CfaColor) -> (level: u8)
    requires
        bx < frame@.width / 2,
        by < frame@.height / 2,
    ensures
        level == block_level(frame@, bx as int, by as int, c),
{
    let white = frame.white();
    let full: u32 = match c {
        CfaColor::Red => white.red as u32,
        CfaColor::Green => white.green as u32,
        CfaColor::Blue => white.blue as u32,
    };
    let x0: u32 = 2 * bx;
    let y0: u32 = 2 * by;
    let mut sum: u32 = 0;
    let mut count: u32 = 0;
    if same_color(frame.color_at(y0 as usize, x0 as usize), c) {
        sum = sum + frame.sample(x0, y0) as u32;
        count = count + 1;
    }
    if same_color(frame.color_at(y0 as usize, x0 as usize + 1), c) {
        sum = sum + frame.sample(x0 + 1, y0) as u32;
        count = count + 1;
    }
    if same_color(frame.color_at(y0 as usize + 1, x0 as usize), c) {
        sum = sum + frame.sample(x0, y0 + 1) as u32;
        count = count + 1;
    }
    if same_color(frame.color_at(y0 as usize + 1, x0 as usize + 1), c) {
        sum = sum + frame.sample(x0 + 1, y0 + 1) as u32;
        count = count + 1;
    }
    assert(sum == block_sum(frame@, bx as int, by as int, c));
    assert(count == block_count(frame@, bx as int, by as int, c));
    if count == 0 {
        0
    } else {
        assert(count * full == block_count(frame@, bx as int, by as int, c) * frame@.white.of(c));
        assert(0 < count * full <= 4 * 0xFFFF) by (nonlinear_arith)
            requires
                0 < count <= 4,
                0 < full <= 0xFFFF,
        ;
        scale_level_exec(sum, count * full)
    }
}

fn same_color(a: CfaColor, b: CfaColor) -> (same: bool)
    ensures
        same == (a == b),
{
    match (a, b) {
        (CfaColor::Red, CfaColor::Red) => true,
        (CfaColor::Green, CfaColor::Green) => true,
        (CfaColor::Blue, CfaColor::Blue) => true,
        _ => false,
    }
}

/// The pixel at `(bx, by)` of the preview decode: for each colour the mean of
/// the samples of that colour in the 2x2 block, 0 where the block has none.
pub fn superpixel(frame: &RawSensorFrame, bx: u32, by: u32) -> (p: (u8, u8, u8))
    requires
        bx < frame@.width / 2,
        by < frame@.height / 2,
    ensures
        p == preview_pixel(frame@, bx as int, by as int),
{
    (
        block_level_exec(frame, bx, by, CfaColor::Red),
        block_level_exec(frame, bx, by, CfaColor::Green),
        block_level_exec(frame, bx, by, CfaColor::Blue),
    )
}

/// Width of the image that `mode` makes of the frame.
pub fn output_width(frame: &RawSensorFrame, mode: DecodeMode) -> (w: u32)
    ensures
        w == out_width(frame@, mode),
        frame@.wf(),
{
    match mode {
        DecodeMode::Full => frame.width(),
        DecodeMode::Preview => frame.width() / 2,
    }
}

/// Height of the image that `mode` makes of the frame.
pub fn output_height(frame: &RawSensorFrame, mode: DecodeMode) -> (h: u32)
    ensures
        h == out_height(frame@, mode),
        frame@.wf(),
{
    match mode {
        DecodeMode::Full => frame.height(),
        DecodeMode::Preview => frame.height() / 2,
    }
}

/// The bytes of output row `y`, computed from the frame alone, so that rows
/// can be decoded in any order. A row beyond the last one is empty.
pub fn decode_row(frame: &RawSensorFrame, mode: DecodeMode, y: u32) -> (out: Vec<u8>)
    ensures
        frame@.wf(),
        y < out_height(frame@, mode) ==> out@ == row_spec(frame@, mode, y as int),
        y >= out_height(frame@, mode) ==> out@.len() == 0,
{
    let ow = output_width(frame, mode);
    let oh = output_height(frame, mode);
    let mut out: Vec<u8> = Vec::new();
    if y >= oh {
        return out;
    }
    let mut x: u32 = 0;
    while x < ow
        invariant
            frame@.wf(),
            x <= ow,
            ow == out_width(frame@, mode),
            y < out_height(frame@, mode),
            out@.len() == 3 * x,
            forall|i: int|
                0 <= i < 3 * x ==> out@[i] == channel_of(
                    pixel_spec(frame@, mode, i / 3, y as int),
                    i % 3,
                ),
        decreases ow - x,
    {
        let (r, g, b) = match mode {
            DecodeMode::Full => demosaic_pixel(frame, x, y),
            DecodeMode::Preview => superpixel(frame, x, y),
        };
        out.push(r);
        out.push(g);
        out.push(b);
        x = x + 1;
    }
    assert(out@ =~= row_spec(frame@, mode, y as int));
    out
}

/// A frame whose samples are all the same decodes to an image whose pixels
/// are all the same: each channel is the sample scaled by the white level of
/// its colour, whatever the filter array and wherever the pixel lies.
pub proof fn lemma_flat_frame_decodes_flat(f: FrameModel, s: u16, x: int, y: int)
    requires
        f.wf(),
        forall|i: int| 0 <= i < f.samples.len() ==> f.samples[i] == s,
        0 <= x < f.width,
        0 <= y < f.height,
    ensures
        full_pixel(f, x, y) == (
            scale_level(s as int, f.white.red as int) as u8,
            scale_level(s as int, f.white.green as int) as u8,
            scale_level(s as int, f.white.blue as int) as u8,
        ),
{
    assert forall|px: int, py: int| #[trigger] sample_at(f, px, py) == s by {
        let w = f.width as int;
        let h = f.height as int;
        let cy = clamp_coord(py, h);
        assert(0 <= cy * w && cy * w + w <= w * h) by (nonlinear_arith)
            requires
                0 <= cy < h,
                0 < w,
        ;
    }
}

} // verus!
