//! The fused tone stage: brightness, contrast and saturation applied to one
//! pixel in a single pass, clamped once at the end.
//!
//! Every intermediate value is kept as an exact integer numerator over a power
//! of ten, so nothing is rounded before the final truncation to eight bits.

use vstd::prelude::*;
use crate::commands::{ProcessOptions, UNIT};

verus! {

/// Denominator of the value that `saturated` returns.
pub open spec fn tone_scale() -> int {
    10_000_000_000
}

/// A channel after the brightness offset, in tenths of a level.
pub open spec fn brightened(v: int, o: ProcessOptions) -> int {
    10 * v + o.brightness
}

/// A channel after brightness and contrast, in ten-thousandths of a level:
/// the distance from the midpoint 128 is multiplied by the contrast.
pub open spec fn contrasted(v: int, o: ProcessOptions) -> int {
    (brightened(v, o) - 1280) * o.contrast + 1_280_000
}

/// The luminance of a pixel after brightness and contrast, with the weights
/// 0.299, 0.587 and 0.114, in units of 10^-7 levels.
pub open spec fn luminance(r: int, g: int, b: int, o: ProcessOptions) -> int {
    299 * contrasted(r, o) + 587 * contrasted(g, o) + 114 * contrasted(b, o)
}

/// The channel `v` of the pixel `(r, g, b)` after all three steps, in units of
/// 10^-10 levels: the distance of the channel from the luminance is multiplied
/// by the saturation.
pub open spec fn saturated(v: int, r: int, g: int, b: int, o: ProcessOptions) -> int {
    1000 * luminance(r, g, b, o) + (1000 * contrasted(v, o) - luminance(r, g, b, o))
        * o.saturation
}

/// Clamp a scaled value to `[0, 255]` and drop the fraction.
pub open spec fn quantize(n: int) -> int {
    if n <= 0 {
        0
    } else if n >= 255 * tone_scale() {
        255
    } else {
        n / tone_scale()
    }
}

/// The value that the tone stage writes for channel `v` of the pixel `(r, g, b)`.
pub open spec fn tone_channel(v: int, r: int, g: int, b: int, o: ProcessOptions) -> int {
    quantize(saturated(v, r, g, b, o))
}

/// The pixel that the tone stage writes for `(r, g, b)`.
pub open spec fn tone_pixel_spec(r: u8, g: u8, b: u8, o: ProcessOptions) -> (u8, u8, u8) {
    (
        tone_channel(r as int, r as int, g as int, b as int, o) as u8,
        tone_channel(g as int, r as int, g as int, b as int, o) as u8,
        tone_channel(b as int, r as int, g as int, b as int, o) as u8,
    )
}

/// A whole buffer of interleaved RGB bytes after the tone stage. Bytes beyond
/// the last whole pixel are kept.
pub open spec fn tone_buffer_spec(data: Seq<u8>, o: ProcessOptions) -> Seq<u8> {
    Seq::new(
        data.len(),
        |i: int|
            {
                let p = i - i % 3;
                if p + 3 <= data.len() {
                    tone_channel(
                        data[i] as int,
                        data[p] as int,
                        data[p + 1] as int,
                        data[p + 2] as int,
                        o,
                    ) as u8
                } else {
                    data[i]
                }
            },
    )
}

fn contrasted_exec(v: u8, o: &ProcessOptions) -> (c: i128)
    ensures
        c == contrasted(v as int, *o),
        -0x1_0000_0000_0000_0000 < c < 0x1_0000_0000_0000_0000,
{
    let lifted: i128 = 10 * (v as i128) + (o.brightness as i128) - 1280;
    let gain: i128 = o.contrast as i128;
    assert(-0x1_0000_0000 < lifted < 0x1_0000_0000);
    assert(-0x8000_0000 <= gain < 0x8000_0000);
    assert(-0x8000_0000_0000_0000 <= lifted * gain <= 0x8000_0000_0000_0000) by (nonlinear_arith)
        requires
            -0x1_0000_0000 < lifted < 0x1_0000_0000,
            -0x8000_0000 <= gain < 0x8000_0000,
    ;
    lifted * gain + 1_280_000
}

fn quantize_exec(n: i128) -> (q: u8)
    ensures
        q == quantize(n as int),
{
    if n <= 0 {
        0
    } else if n >= 2_550_000_000_000 {
        255
    } else {
        let levels: u128 = (n as u128) / 10_000_000_000;
        levels as u8
    }
}

fn saturated_exec(c: i128, lum: i128, o: &ProcessOptions) -> (s: i128)
    requires
        -0x1_0000_0000_0000_0000 < c < 0x1_0000_0000_0000_0000,
        -0x400_0000_0000_0000_0000 < lum < 0x400_0000_0000_0000_0000,
    ensures
        s == 1000 * lum + (1000 * c - lum) * o.saturation,
{
    let away: i128 = 1000 * c - lum;
    let sat: i128 = o.saturation as i128;
    assert(-0x800_0000_0000_0000_0000 < away < 0x800_0000_0000_0000_0000);
    assert(-0x400_0000_0000_0000_0000_0000_0000 <= away * sat
        <= 0x400_0000_0000_0000_0000_0000_0000) by (nonlinear_arith)
        requires
            -0x800_0000_0000_0000_0000 < away < 0x800_0000_0000_0000_0000,
            -0x8000_0000 <= sat < 0x8000_0000,
    ;
    1000 * lum + away * sat
}

/// Apply brightness, contrast and saturation to one pixel and clamp each
/// channel once, after all three steps.
pub fn tone_pixel(r: u8, g: u8, b: u8, o: &ProcessOptions) -> (out: (u8, u8, u8))
    ensures
        out == tone_pixel_spec(r, g, b, *o),
        !o.tone_active() ==> out == (r, g, b),
{
    let cr = contrasted_exec(r, o);
    let cg = contrasted_exec(g, o);
    let cb = contrasted_exec(b, o);
    let lum: i128 = 299 * cr + 587 * cg + 114 * cb;
    let sr = saturated_exec(cr, lum, o);
    let sg = saturated_exec(cg, lum, o);
    let sb = saturated_exec(cb, lum, o);
    proof {
        if !o.tone_active() {
            lemma_tone_identity(r as int, r as int, g as int, b as int, *o);
            lemma_tone_identity(g as int, r as int, g as int, b as int, *o);
            lemma_tone_identity(b as int, r as int, g as int, b as int, *o);
        }
    }
    (quantize_exec(sr), quantize_exec(sg), quantize_exec(sb))
}

/// Apply the tone stage to one pixel in place. A slice that is not exactly
/// one pixel long is left alone.
pub fn tone_chunk(px: &mut [u8], o: &ProcessOptions)
    ensures
        final(px)@.len() == old(px)@.len(),
        old(px)@.len() == 3 ==> final(px)@ == tone_buffer_spec(old(px)@, *o),
        old(px)@.len() != 3 ==> final(px)@ == old(px)@,
{
    if px.len() != 3 {
        return;
    }
    let ghost before = px@;
    let (r, g, b) = tone_pixel(px[0], px[1], px[2], o);
    px[0] = r;
    px[1] = g;
    px[2] = b;
    assert(px@ =~= tone_buffer_spec(before, *o));
}

/// With brightness 0, contrast 1 and saturation 1 every channel keeps its value.
pub proof fn lemma_tone_identity(v: int, r: int, g: int, b: int, o: ProcessOptions)
    requires
        0 <= v <= 255,
        !o.tone_active(),
    ensures
        tone_channel(v, r, g, b, o) == v,
{
    let gain = o.contrast as int;
    let sat = o.saturation as int;
    assert(gain == 1000 && sat == 1000 && o.brightness == 0);
    assert((10 * v - 1280) * gain == 10_000 * v - 1_280_000) by (nonlinear_arith)
        requires
            gain == 1000,
    ;
    assert(contrasted(v, o) == 10_000 * v);
    let lum = luminance(r, g, b, o);
    assert((1000 * (10_000 * v) - lum) * sat == 10_000_000_000 * v - 1000 * lum)
        by (nonlinear_arith)
        requires
            sat == 1000,
    ;
    assert(saturated(v, r, g, b, o) == tone_scale() * v);
    assert(tone_scale() * v / tone_scale() == v) by (nonlinear_arith)
        requires
            tone_scale() == 10_000_000_000,
    ;
}

/// With brightness 0, contrast 1 and saturation 1 the tone stage keeps every
/// byte of a buffer.
pub proof fn lemma_tone_buffer_identity(data: Seq<u8>, o: ProcessOptions)
    requires
        !o.tone_active(),
    ensures
        tone_buffer_spec(data, o) == data,
{
    assert forall|i: int| 0 <= i < data.len() implies tone_buffer_spec(data, o)[i] == data[i] by {
        let p = i - i % 3;
        if p + 3 <= data.len() {
            lemma_tone_identity(data[i] as int, data[p] as int, data[p + 1] as int, data[p
                + 2] as int, o);
        }
    }
    assert(tone_buffer_spec(data, o) =~= data);
}

/// Brightness alone adds a hundred levels per unit: with contrast 1 and
/// saturation 1 a channel becomes its value plus a tenth of the brightness in
/// thousandths, cut off at 0 and 255, the fraction dropped.
pub proof fn lemma_brightness_alone(v: int, r: int, g: int, b: int, o: ProcessOptions)
    requires
        o.contrast == UNIT,
        o.saturation == UNIT,
    ensures
        tone_channel(v, r, g, b, o) == if 10 * v + o.brightness <= 0 {
            0
        } else if 10 * v + o.brightness >= 2550 {
            255
        } else {
            (10 * v + o.brightness) / 10
        },
{
    let gain = o.contrast as int;
    let sat = o.saturation as int;
    let lifted = 10 * v + o.brightness;
    assert((lifted - 1280) * gain == 1000 * lifted - 1_280_000) by (nonlinear_arith)
        requires
            gain == 1000,
    ;
    assert(contrasted(v, o) == 1000 * lifted);
    let lum = luminance(r, g, b, o);
    assert((1000 * (1000 * lifted) - lum) * sat == 1_000_000_000 * lifted - 1000 * lum)
        by (nonlinear_arith)
        requires
            sat == 1000,
    ;
    assert(saturated(v, r, g, b, o) == 1_000_000_000 * lifted);
    assert((1_000_000_000 * lifted) / 10_000_000_000 == lifted / 10) by (nonlinear_arith);
}

/// Saturation 0 leaves the luminance alone: the three channels of a pixel
/// come out equal.
pub proof fn lemma_zero_saturation_is_gray(r: int, g: int, b: int, o: ProcessOptions)
    requires
        o.saturation == 0,
    ensures
        tone_channel(r, r, g, b, o) == quantize(1000 * luminance(r, g, b, o)),
        tone_channel(g, r, g, b, o) == tone_channel(r, r, g, b, o),
        tone_channel(b, r, g, b, o) == tone_channel(r, r, g, b, o),
{
    let sat = o.saturation as int;
    let lum = luminance(r, g, b, o);
    assert forall|v: int| saturated(v, r, g, b, o) == 1000 * lum by {
        let away = 1000 * contrasted(v, o) - lum;
        assert(away * sat == 0) by (nonlinear_arith)
            requires
                sat == 0,
        ;
    }
}

/// Pixels do not depend on each other: a buffer cut between two pixels can
/// be toned piece by piece.
pub proof fn lemma_tone_by_parts(head: Seq<u8>, tail: Seq<u8>, o: ProcessOptions)
    requires
        head.len() % 3 == 0,
    ensures
        tone_buffer_spec(head + tail, o) == tone_buffer_spec(head, o) + tone_buffer_spec(tail, o),
{
    let whole = head + tail;
    let parts = tone_buffer_spec(head, o) + tone_buffer_spec(tail, o);
    let n = head.len() as int;
    assert(tone_buffer_spec(whole, o).len() == parts.len());
    assert forall|i: int| 0 <= i < whole.len() implies tone_buffer_spec(whole, o)[i] == parts[i] by {
        let p = i - i % 3;
        if i < n {
            assert(p + 3 <= n);
            assert(whole[i] == head[i]);
            assert(whole[p] == head[p] && whole[p + 1] == head[p + 1] && whole[p + 2] == head[p
                + 2]);
            assert(parts[i] == tone_buffer_spec(head, o)[i]);
        } else {
            let j = i - n;
            let q = j - j % 3;
            assert(j % 3 == i % 3);
            assert(p == n + q);
            assert(parts[i] == tone_buffer_spec(tail, o)[j]);
            assert(whole[i] == tail[j]);
            if q + 3 <= tail.len() {
                assert(whole[p] == tail[q] && whole[p + 1] == tail[q + 1] && whole[p + 2]
                    == tail[q + 2]);
            }
        }
    }
    assert(tone_buffer_spec(whole, o) =~= parts);
}

} // verus!
