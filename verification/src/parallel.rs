//! Data-parallel fan-out. Rows of a decode and pixels of the tone stage do
//! not depend on each other, so they are handed to a pool of workers.

use vstd::prelude::*;
use rayon::iter::{IntoParallelIterator, ParallelIterator};
use rayon::slice::ParallelSliceMut;
use crate::commands::ProcessOptions;
use crate::demosaic::{decode_row, out_height, out_width, rows_spec, DecodeMode};
use crate::frame::RawSensorFrame;
use crate::tone::{tone_buffer_spec, tone_chunk};

verus! {

/// Decodes the first `rows` output rows on rayon's pool: `into_par_iter` over
/// the row numbers, `flat_map` with `decode_row`, and `collect` into a `Vec`.
/// Trusted: `collect` keeps the order of the row numbers, so the result is
/// the rows one after the other, each as `decode_row` returns it.
#[verifier::external_body]
pub(crate) fn decode_rows(frame: &RawSensorFrame, mode: DecodeMode, rows: u32) -> (out: Vec<u8>)
    requires
        rows <= out_height(frame@, mode),
        3 * out_width(frame@, mode) * rows <= usize::MAX,
    ensures
        out@ == rows_spec(frame@, mode, rows as nat),
{
    (0..rows).into_par_iter().flat_map(|y| decode_row(frame, mode, y)).collect()
}

/// Runs the tone stage over a buffer on rayon's pool: `par_chunks_mut(3)`
/// and `for_each` with `tone_chunk`. Trusted: the chunks are the consecutive
/// pixels of the buffer, a shorter rest comes last, and each chunk is visited
/// once.
#[verifier::external_body]
pub(crate) fn tone_pixels(data: &mut Vec<u8>, o: &ProcessOptions)
    ensures
        final(data)@ == tone_buffer_spec(old(data)@, *o),
{
    data.par_chunks_mut(3).for_each(|px| tone_chunk(px, o));
}

} // verus!
