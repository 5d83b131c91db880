//! The values that cross the command boundary: options, results and progress
//! notifications.

use vstd::prelude::*;
use crate::demosaic::DecodeMode;
use crate::encode::{
    base64_len,
    data_uri,
    encode_jpeg,
    jpeg_of,
    thumbnail_of,
    thumbnail_rgb,
    uri_text,
    THUMBNAIL_SOURCE_LIMIT,
};
use crate::frame::{FrameModel, RawSensorFrame};
use crate::image_ops::{decodable, decode_raw_to_image, decoded, lemma_buffer_len};
use crate::path::{has_allowed_extension, output_path_allowed};
use crate::raster::DecodeError;

pub use crate::batch::process_bulk;

verus! {

/// One thousandth is the unit of the fractional options: `1000` stands for 1.0.
pub const UNIT: i32 = 1000;

/// Tonal and denoise settings shared by every job of a batch.
///
/// `brightness`, `contrast` and `saturation` are fixed-point numbers in
/// thousandths: a brightness of `100` is 0.1, a contrast of `1500` is 1.5.
#[derive(Clone, Copy, Debug, PartialEq, Eq, Structural)]
pub struct ProcessOptions {
    /// Additive offset; 0 leaves the image alone. One whole unit adds 100 levels.
    pub brightness: i32,
    /// Gain around the midpoint 128; `UNIT` leaves the image alone.
    pub contrast: i32,
    /// Distance from the luminance; `UNIT` leaves the image alone, 0 is grayscale.
    pub saturation: i32,
    /// Binarise the image against its local mean as the last stage.
    pub adaptive_threshold: bool,
    /// Run the 3x3 median filter as the first stage.
    pub denoise: bool,
}

impl ProcessOptions {
    /// The fused tone stage has something to do.
    pub open spec fn tone_active(&self) -> bool {
        self.brightness != 0 || self.contrast != UNIT || self.saturation != UNIT
    }

    /// No stage of the pipeline has anything to do.
    pub open spec fn is_identity(&self) -> bool {
        !self.denoise && !self.tone_active() && !self.adaptive_threshold
    }

    /// The options under which every stage is a no-op.
    pub fn identity() -> (o: ProcessOptions)
        ensures
            o.is_identity(),
            o.brightness == 0,
            o.contrast == UNIT,
            o.saturation == UNIT,
    {
        ProcessOptions {
            brightness: 0,
            contrast: UNIT,
            saturation: UNIT,
            adaptive_threshold: false,
            denoise: false,
        }
    }

    /// Whether the fused tone stage runs under these options.
    pub fn has_tone(&self) -> (b: bool)
        ensures
            b == self.tone_active(),
    {
        self.brightness != 0 || self.contrast != UNIT || self.saturation != UNIT
    }

    /// Whether the whole pipeline leaves every image unchanged.
    pub fn leaves_unchanged(&self) -> (b: bool)
        ensures
            b == self.is_identity(),
    {
        !self.denoise && !self.has_tone() && !self.adaptive_threshold
    }
}

/// The outcome of one job.
#[derive(Clone, Debug)]
pub struct ProcessResult {
    pub success: bool,
    /// The output path of the job.
    pub path: String,
    /// Why the job failed; none for a job that succeeded.
    pub error: Option<String>,
}

/// What a `ProcessResult` holds.
pub struct ResultModel {
    pub success: bool,
    pub path: Seq<char>,
    pub error: Option<Seq<char>>,
}

/// The characters of a string that may be absent.
pub open spec fn text_of(s: Option<String>) -> Option<Seq<char>> {
    match s {
        None => None,
        Some(t) => Some(t@),
    }
}

impl View for ProcessResult {
    type V = ResultModel;

    open spec fn view(&self) -> ResultModel {
        ResultModel { success: self.success, path: self.path@, error: text_of(self.error) }
    }
}

/// One thousandth of a percent is the unit of a progress fraction.
pub const PROGRESS_FULL: u32 = 100_000;

/// A notification that a job has entered a stage.
#[derive(Clone, Debug)]
pub struct ProgressPayload {
    /// The input path of the job.
    pub path: String,
    pub success: bool,
    pub error: Option<String>,
    /// The job's share of the batch, in thousandths of a percent.
    pub progress: u32,
    /// The label of the stage that was entered.
    pub stage: String,
}

/// What a `ProgressPayload` holds.
pub struct PayloadModel {
    pub path: Seq<char>,
    pub success: bool,
    pub error: Option<Seq<char>>,
    pub progress: nat,
    pub stage: Seq<char>,
}

impl View for ProgressPayload {
    type V = PayloadModel;

    open spec fn view(&self) -> PayloadModel {
        PayloadModel {
            path: self.path@,
            success: self.success,
            error: text_of(self.error),
            progress: self.progress as nat,
            stage: self.stage@,
        }
    }
}

/// What a refused output path is answered with.
pub open spec fn invalid_extension_text() -> Seq<char> {
    "Invalid output file extension. Allowed: [\"jpg\", \"jpeg\", \"png\", \"webp\"]"@
}

/// The message for a refused output path.
pub fn invalid_extension_message() -> (m: String)
    ensures
        m@ == invalid_extension_text(),
{
    "Invalid output file extension. Allowed: [\"jpg\", \"jpeg\", \"png\", \"webp\"]".to_owned()
}

/// Accept an output path whose file name has one of the extensions jpg,
/// jpeg, png and webp, in any case, and refuse every other path.
pub fn validate_output_path(path: &str) -> (res: Result<(), String>)
    ensures
        res is Ok <==> output_path_allowed(path@),
        res matches Err(e) ==> e@ == invalid_extension_text(),
{
    if has_allowed_extension(path) {
        Ok(())
    } else {
        Err(invalid_extension_message())
    }
}

/// The share of the batch that is done when job `index` of `total` is: its
/// ordinal over the total, in thousandths of a percent, the fraction dropped.
pub open spec fn progress_fraction(index: nat, total: nat) -> nat {
    ((index + 1) * 100_000) / total
}

/// The progress fraction of job `index` of `total`, fixed when the batch is
/// submitted.
pub fn progress_of(index: usize, total: usize) -> (p: u32)
    requires
        index < total,
    ensures
        p == progress_fraction(index as nat, total as nat),
        p <= PROGRESS_FULL,
        index + 1 == total ==> p == PROGRESS_FULL,
{
    let done: u128 = (index as u128 + 1) * 100_000;
    let t: u128 = total as u128;
    let q: u128 = done / t;
    proof {
        let d = done as int;
        let ti = t as int;
        assert(d == (index + 1) * 100_000);
        assert(0 <= d <= ti * 100_000);
        assert(0 <= d / ti <= 100_000) by (nonlinear_arith)
            requires
                0 < ti,
                0 <= d <= ti * 100_000,
        ;
        if index + 1 == total {
            assert(d / ti == 100_000) by (nonlinear_arith)
                requires
                    0 < ti,
                    d == ti * 100_000,
            ;
        }
    }
    q as u32
}

/// A progress fraction lies between nothing and the whole, and the last job
/// of a batch has the whole.
pub proof fn lemma_progress_bounds(index: nat, total: nat)
    requires
        index < total,
    ensures
        0 <= progress_fraction(index, total) <= PROGRESS_FULL,
        index + 1 == total ==> progress_fraction(index, total) == PROGRESS_FULL,
{
    let d = ((index + 1) * 100_000) as int;
    let t = total as int;
    assert(0 <= d / t <= 100_000) by (nonlinear_arith)
        requires
            0 < t,
            0 <= d <= t * 100_000,
    ;
    if index + 1 == total {
        assert(d / t == 100_000) by (nonlinear_arith)
            requires
                0 < t,
                d == t * 100_000,
        ;
    }
}

/// A later job of a batch never has a smaller progress fraction.
pub proof fn lemma_progress_monotone(i: nat, j: nat, total: nat)
    requires
        i <= j < total,
    ensures
        progress_fraction(i, total) <= progress_fraction(j, total),
{
    let a = ((i + 1) * 100_000) as int;
    let b = ((j + 1) * 100_000) as int;
    let t = total as int;
    assert(a / t <= b / t) by (nonlinear_arith)
        requires
            0 <= a <= b,
            0 < t,
    ;
}

/// How many jobs may work at once on a machine with `parallelism` logical
/// cores: three quarters of them, rounded down, and at least one.
pub open spec fn concurrency_bound(parallelism: nat) -> nat {
    if parallelism * 3 / 4 >= 1 {
        parallelism * 3 / 4
    } else {
        1
    }
}

/// The concurrency bound for a machine with `parallelism` logical cores.
pub fn concurrency_limit(parallelism: usize) -> (limit: usize)
    ensures
        limit == concurrency_bound(parallelism as nat),
        1 <= limit,
        parallelism >= 1 ==> limit <= parallelism,
{
    let whole: usize = parallelism / 4;
    let rest: usize = parallelism % 4;
    let limit: usize = whole * 3 + rest * 3 / 4;
    assert(limit == parallelism * 3 / 4);
    if limit >= 1 {
        limit
    } else {
        1
    }
}

/// Parallelism that is assumed where the machine does not tell its own.
pub const DEFAULT_PARALLELISM: usize = 4;

/// The concurrency bound for what the machine says of its parallelism.
pub fn concurrency_for(available: Option<usize>) -> (limit: usize)
    ensures
        limit == concurrency_bound(
            match available {
                Some(n) => n as nat,
                None => DEFAULT_PARALLELISM as nat,
            },
        ),
        1 <= limit,
{
    match available {
        Some(n) => concurrency_limit(n),
        None => concurrency_limit(DEFAULT_PARALLELISM),
    }
}

/// Longest edge of a preview, in pixels.
pub const PREVIEW_EDGE: u32 = 1200;

/// What a preview that is too large for a data URI is answered with.
pub open spec fn oversized_preview_text() -> Seq<char> {
    "Preview is too large for a data URI"@
}

/// What a frame that is too large for a preview is answered with.
pub open spec fn oversized_frame_text() -> Seq<char> {
    "Frame is too large for a preview"@
}

/// The characters of a result of strings.
pub open spec fn texts_of(r: Result<String, String>) -> Result<Seq<char>, Seq<char>> {
    match r {
        Ok(s) => Ok(s@),
        Err(e) => Err(e@),
    }
}

/// The data URI of the JPEG file of the thumbnail, or why there is none.
pub open spec fn uri_of_thumbnail(thumb: (nat, nat, Seq<u8>)) -> Result<Seq<char>, Seq<char>> {
    match jpeg_of(thumb.0, thumb.1, thumb.2) {
        Err(message) => Err(message),
        Ok(file) => if base64_len(file.len()) <= usize::MAX {
            Ok(uri_text(file))
        } else {
            Err(oversized_preview_text())
        },
    }
}

/// The preview of a frame: the full decode, scaled to fit a square of
/// `PREVIEW_EDGE`, as the data URI of a JPEG file; or why there is none.
pub open spec fn preview_of(f: FrameModel) -> Result<Seq<char>, Seq<char>> {
    if f.width > THUMBNAIL_SOURCE_LIMIT || f.height > THUMBNAIL_SOURCE_LIMIT {
        Err(oversized_frame_text())
    } else if !decodable(f, DecodeMode::Full) {
        Err(DecodeError::BufferConstructionFailure.text())
    } else {
        let img = decoded(f, DecodeMode::Full);
        uri_of_thumbnail(
            thumbnail_of(
                img.width,
                img.height,
                img.data,
                PREVIEW_EDGE as nat,
                PREVIEW_EDGE as nat,
            ),
        )
    }
}

/// Wrap an encoded preview as a data URI, or pass on why the encoder
/// refused.
pub fn preview_uri(encoded: Result<Vec<u8>, String>) -> (res: Result<String, String>)
    ensures
        match encoded {
            Err(message) => res == Err::<String, String>(message),
            Ok(file) => if base64_len(file@.len()) <= usize::MAX {
                texts_of(res) == Ok::<Seq<char>, Seq<char>>(uri_text(file@))
            } else {
                texts_of(res) == Err::<Seq<char>, Seq<char>>(oversized_preview_text())
            },
        },
{
    match encoded {
        Err(message) => Err(message),
        Ok(file) => match data_uri(&file) {
            Some(uri) => Ok(uri),
            None => Err("Preview is too large for a data URI".to_owned()),
        },
    }
}

/// Decode a frame for display: demosaic it at full resolution, scale the
/// image down to fit a square of `PREVIEW_EDGE` pixels, encode that as JPEG
/// and return it as a data URI.
pub fn decode_raw(frame: &RawSensorFrame) -> (res: Result<String, String>)
    ensures
        texts_of(res) == preview_of(frame@),
{
    if frame.width() > THUMBNAIL_SOURCE_LIMIT || frame.height() > THUMBNAIL_SOURCE_LIMIT {
        return Err("Frame is too large for a preview".to_owned());
    }
    let img = match decode_raw_to_image(frame) {
        Ok(img) => img,
        Err(e) => {
            return Err(e.message());
        },
    };
    let width = img.width();
    let height = img.height();
    let ghost model = img@;
    let data = img.into_raw();
    proof {
        lemma_buffer_len(model);
    }
    let thumb = thumbnail_rgb(width, height, data, PREVIEW_EDGE, PREVIEW_EDGE);
    preview_uri(encode_jpeg(thumb.0, thumb.1, thumb.2))
}

} // verus!
