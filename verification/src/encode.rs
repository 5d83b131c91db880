//! Thumbnails, JPEG and base64: what turns a decoded image into a data URI.

use vstd::prelude::*;
use vstd::string::StringExecFns;
use base64::Engine;

verus! {

/// Symbol `v` of the standard base64 alphabet: capitals, small letters,
/// digits, `+` and `/`.
pub open spec fn base64_symbol(v: int) -> char {
    if v < 26 {
        (65 + v) as char
    } else if v < 52 {
        (97 + (v - 26)) as char
    } else if v < 62 {
        (48 + (v - 52)) as char
    } else if v == 62 {
        '+'
    } else {
        '/'
    }
}

/// Byte `i`, or 0 behind the end.
pub open spec fn byte_or_zero(bytes: Seq<u8>, i: int) -> int {
    if i < bytes.len() {
        bytes[i] as int
    } else {
        0
    }
}

/// Character `k` of the base64 text of `bytes`: each group of three bytes
/// gives four symbols of six bits each, and `=` stands where a group has no
/// byte to give.
pub open spec fn base64_char(bytes: Seq<u8>, k: int) -> char {
    let g = k / 4;
    let j = k % 4;
    let v = byte_or_zero(bytes, 3 * g) * 65536 + byte_or_zero(bytes, 3 * g + 1) * 256
        + byte_or_zero(bytes, 3 * g + 2);
    if (j == 2 && 3 * g + 1 >= bytes.len()) || (j == 3 && 3 * g + 2 >= bytes.len()) {
        '='
    } else if j == 0 {
        base64_symbol(v / 262144)
    } else if j == 1 {
        base64_symbol(v / 4096 % 64)
    } else if j == 2 {
        base64_symbol(v / 64 % 64)
    } else {
        base64_symbol(v % 64)
    }
}

/// Length of the base64 text of `n` bytes.
pub open spec fn base64_len(n: nat) -> nat {
    (n + 2) / 3 * 4
}

/// The padded base64 text of `bytes` in the standard alphabet.
pub open spec fn base64_text(bytes: Seq<u8>) -> Seq<char> {
    Seq::new(base64_len(bytes.len()), |k: int| base64_char(bytes, k))
}

/// The data URI of a JPEG file.
pub open spec fn uri_text(jpeg: Seq<u8>) -> Seq<char> {
    "data:image/jpeg;base64,"@ + base64_text(jpeg)
}

/// Dimensions and RGB bytes of the thumbnail that `image` makes of a `width`
/// by `height` RGB image for the given bounds.
pub uninterp spec fn thumbnail_of(
    width: nat,
    height: nat,
    data: Seq<u8>,
    max_width: nat,
    max_height: nat,
) -> (nat, nat, Seq<u8>);

/// The JPEG file that `image` makes of a `width` by `height` RGB image, or
/// the message of its refusal.
pub uninterp spec fn jpeg_of(width: nat, height: nat, data: Seq<u8>) -> Result<Seq<u8>, Seq<char>>;

/// Calls `base64::Engine::encode` on the `STANDARD` engine. Trusted: the
/// text is the padded base64 of the bytes in the standard alphabet. The
/// length of the text must fit in a `usize`.
#[verifier::external_body]
pub(crate) fn base64_standard(bytes: &Vec<u8>) -> (text: String)
    requires
        base64_len(bytes@.len()) <= usize::MAX,
    ensures
        text@ == base64_text(bytes@),
{
    base64::engine::general_purpose::STANDARD.encode(bytes)
}

/// Largest dimension of an image that a thumbnail is made of.
pub const THUMBNAIL_SOURCE_LIMIT: u32 = 0x10_0000;

/// Smallest bound that a thumbnail is made for.
pub const THUMBNAIL_LEAST_BOUND: u32 = 1024;

/// Calls `image::DynamicImage::thumbnail` on an RGB image. Trusted: the
/// result depends on the image and the bounds alone, it is not empty, it
/// fits within the bounds, and its buffer holds three bytes per pixel. The
/// pixels that one pixel of the thumbnail stands for are summed in 32 bits,
/// so the image must not be too large for the bounds.
#[verifier::external_body]
pub(crate) fn thumbnail_rgb(
    width: u32,
    height: u32,
    data: Vec<u8>,
    max_width: u32,
    max_height: u32,
) -> (out: (u32, u32, Vec<u8>))
    requires
        1 <= width <= THUMBNAIL_SOURCE_LIMIT,
        1 <= height <= THUMBNAIL_SOURCE_LIMIT,
        max_width >= THUMBNAIL_LEAST_BOUND,
        max_height >= THUMBNAIL_LEAST_BOUND,
        data@.len() == (width as nat) * (height as nat) * 3,
    ensures
        (out.0 as nat, out.1 as nat, out.2@) == thumbnail_of(
            width as nat,
            height as nat,
            data@,
            max_width as nat,
            max_height as nat,
        ),
        1 <= out.0 <= max_width,
        1 <= out.1 <= max_height,
        out.2@.len() == (out.0 as nat) * (out.1 as nat) * 3,
{
    let img = image::RgbImage::from_raw(width, height, data).unwrap();
    let small = image::DynamicImage::ImageRgb8(img).thumbnail(max_width, max_height).into_rgb8();
    (small.width(), small.height(), small.into_raw())
}

/// Calls `image::DynamicImage::write_to` with the JPEG format on a buffer in
/// memory. Trusted: the file, or the message of the refusal, depends on the
/// image alone.
#[verifier::external_body]
pub(crate) fn encode_jpeg(width: u32, height: u32, data: Vec<u8>) -> (res: Result<Vec<u8>, String>)
    requires
        width >= 1,
        height >= 1,
        data@.len() == (width as nat) * (height as nat) * 3,
    ensures
        match res {
            Ok(file) => jpeg_of(width as nat, height as nat, data@) == Ok::<Seq<u8>, Seq<char>>(
                file@,
            ),
            Err(message) => jpeg_of(width as nat, height as nat, data@) == Err::<
                Seq<u8>,
                Seq<char>,
            >(message@),
        },
{
    let img = image::RgbImage::from_raw(width, height, data).unwrap();
    let mut buffer = std::io::Cursor::new(Vec::new());
    image::DynamicImage::ImageRgb8(img).write_to(&mut buffer, image::ImageFormat::Jpeg).map_err(
        |e| e.to_string(),
    )?;
    Ok(buffer.into_inner())
}

/// The data URI of a JPEG file: the scheme and media type, then the file in
/// base64. None for a file whose base64 text would be longer than a string
/// can be.
pub fn data_uri(jpeg: &Vec<u8>) -> (uri: Option<String>)
    ensures
        uri is Some <==> base64_len(jpeg@.len()) <= usize::MAX,
        uri matches Some(text) ==> text@ == uri_text(jpeg@),
{
    let groups: u128 = (jpeg.len() as u128 + 2) / 3;
    if groups * 4 > usize::MAX as u128 {
        return None;
    }
    let head = "data:image/jpeg;base64,".to_owned();
    let body = base64_standard(jpeg);
    Some(head.concat(body.as_str()))
}

} // verus!
