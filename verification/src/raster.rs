//! Eight-bit images held as a flat, row-major buffer.

use vstd::prelude::*;

verus! {

/// Why a sensor frame could not be turned into an image.
#[derive(Clone, Copy, Debug, PartialEq, Eq, Structural)]
pub enum DecodeError {
    /// The source does not describe a usable sensor frame.
    UnsupportedFormat,
    /// The number of samples does not match the dimensions of the image.
    BufferConstructionFailure,
}

impl DecodeError {
    /// The error in words.
    pub open spec fn text(self) -> Seq<char> {
        match self {
            DecodeError::UnsupportedFormat => "Unsupported sensor frame"@,
            DecodeError::BufferConstructionFailure => "Failed to create image buffer"@,
        }
    }

    /// The error in words.
    pub fn message(self) -> (m: String)
        ensures
            m@ == self.text(),
    {
        match self {
            DecodeError::UnsupportedFormat => "Unsupported sensor frame".to_owned(),
            DecodeError::BufferConstructionFailure => "Failed to create image buffer".to_owned(),
        }
    }
}

/// How the bytes of one pixel are laid out.
#[derive(Clone, Copy, Debug, PartialEq, Eq, Structural)]
pub enum PixelLayout {
    /// One luminance byte per pixel.
    Luma,
    /// Red, green and blue, one byte each.
    Rgb,
}

impl PixelLayout {
    /// Bytes per pixel.
    pub open spec fn channels(self) -> nat {
        match self {
            PixelLayout::Luma => 1,
            PixelLayout::Rgb => 3,
        }
    }

    /// Bytes per pixel.
    pub fn channel_count(self) -> (n: usize)
        ensures
            n == self.channels(),
    {
        match self {
            PixelLayout::Luma => 1,
            PixelLayout::Rgb => 3,
        }
    }
}

/// What an image is: its dimensions, its layout and its bytes.
pub struct ImageModel {
    pub width: nat,
    pub height: nat,
    pub layout: PixelLayout,
    pub data: Seq<u8>,
}

impl ImageModel {
    /// The buffer holds exactly one value per channel of every pixel.
    pub open spec fn wf(self) -> bool {
        self.data.len() == self.width * self.height * self.layout.channels()
    }

    /// Number of pixels.
    pub open spec fn pixels(self) -> nat {
        self.width * self.height
    }
}

/// The number of bytes of a `width` by `height` image with the given layout.
pub open spec fn buffer_len(width: u32, height: u32, layout: PixelLayout) -> nat {
    (width as nat) * (height as nat) * layout.channels()
}

/// An image whose buffer always matches its dimensions.
#[derive(Debug)]
pub struct DecodedImage {
    width: u32,
    height: u32,
    layout: PixelLayout,
    data: Vec<u8>,
}

impl View for DecodedImage {
    type V = ImageModel;

    closed spec fn view(&self) -> ImageModel {
        ImageModel {
            width: self.width as nat,
            height: self.height as nat,
            layout: self.layout,
            data: self.data@,
        }
    }
}

impl DecodedImage {
    #[verifier::type_invariant]
    closed spec fn inv(&self) -> bool {
        self.data@.len() == buffer_len(self.width, self.height, self.layout)
    }

    /// Build an image from its parts. The buffer must hold exactly
    /// `width * height` pixels; any other length is refused.
    pub fn from_raw(width: u32, height: u32, layout: PixelLayout, data: Vec<u8>) -> (res: Result<
        DecodedImage,
        DecodeError,
    >)
        ensures
            res is Ok <==> data@.len() == buffer_len(width, height, layout),
            res matches Ok(img) ==> img@ == (ImageModel {
                width: width as nat,
                height: height as nat,
                layout,
                data: data@,
            }) && img@.wf(),
            res matches Err(e) ==> e == DecodeError::BufferConstructionFailure,
    {
        assert((width as int) * (height as int) <= 0xFFFF_FFFF * 0xFFFF_FFFF) by (nonlinear_arith)
            requires
                0 <= width <= 0xFFFF_FFFF,
                0 <= height <= 0xFFFF_FFFF,
        ;
        let pixels: u64 = (width as u64) * (height as u64);
        let per_pixel: u64 = layout.channel_count() as u64;
        assert((pixels as int) * (per_pixel as int) <= 0xFFFF_FFFF * 0xFFFF_FFFF * 3)
            by (nonlinear_arith)
            requires
                0 <= pixels <= 0xFFFF_FFFF * 0xFFFF_FFFF,
                0 <= per_pixel <= 3,
        ;
        let wanted: u128 = (pixels as u128) * (per_pixel as u128);
        if (data.len() as u128) == wanted {
            Ok(DecodedImage { width, height, layout, data })
        } else {
            Err(DecodeError::BufferConstructionFailure)
        }
    }

    /// Build an image from parts that are known to fit.
    pub(crate) fn assemble(width: u32, height: u32, layout: PixelLayout, data: Vec<u8>) -> (img:
        DecodedImage)
        requires
            data@.len() == buffer_len(width, height, layout),
        ensures
            img@ == (ImageModel {
                width: width as nat,
                height: height as nat,
                layout,
                data: data@,
            }),
            img@.wf(),
    {
        DecodedImage { width, height, layout, data }
    }

    /// Width in pixels.
    pub fn width(&self) -> (w: u32)
        ensures
            w == self@.width,
            self@.wf(),
    {
        proof {
            use_type_invariant(self);
        }
        self.width
    }

    /// Height in pixels.
    pub fn height(&self) -> (h: u32)
        ensures
            h == self@.height,
            self@.wf(),
    {
        proof {
            use_type_invariant(self);
        }
        self.height
    }

    /// Layout of one pixel.
    pub fn layout(&self) -> (l: PixelLayout)
        ensures
            l == self@.layout,
            self@.wf(),
    {
        proof {
            use_type_invariant(self);
        }
        self.layout
    }

    /// The bytes, row by row.
    pub fn data(&self) -> (d: &Vec<u8>)
        ensures
            d@ == self@.data,
            self@.wf(),
    {
        proof {
            use_type_invariant(self);
        }
        &self.data
    }

    /// Give up the image for its bytes.
    pub fn into_raw(self) -> (d: Vec<u8>)
        ensures
            d@ == self@.data,
            self@.wf(),
    {
        proof {
            use_type_invariant(&self);
        }
        self.data
    }

    /// A copy of this image.
    pub fn duplicate(&self) -> (c: DecodedImage)
        ensures
            c@ == self@,
            self@.wf(),
    {
        proof {
            use_type_invariant(self);
        }
        let data = self.data.clone();
        assert(data@ =~= self.data@);
        DecodedImage { width: self.width, height: self.height, layout: self.layout, data }
    }

    /// The channel `c` of the pixel in column `x` of row `y`.
    pub fn sample(&self, x: u32, y: u32, c: usize) -> (v: Option<u8>)
        ensures
            self@.wf(),
            v is Some <==> x < self@.width && y < self@.height && c < self@.layout.channels(),
            v matches Some(s) ==> s == self@.data[sample_index(self@, x as int, y as int, c as int)]
                && 0 <= sample_index(self@, x as int, y as int, c as int) < self@.data.len(),
    {
        proof {
            use_type_invariant(self);
        }
        let ch = self.layout.channel_count();
        if x >= self.width || y >= self.height || c >= ch {
            return None;
        }
        proof {
            lemma_sample_index_bound(self@, x as int, y as int, c as int);
        }
        let w: u128 = self.width as u128;
        proof {
            assert(sample_index(self@, x as int, y as int, c as int) == ((y as int) * (w as int)
                + (x as int)) * (ch as int) + (c as int));
            assert(0 <= (y as int) * (w as int) <= 0xFFFF_FFFF * 0xFFFF_FFFF) by (nonlinear_arith)
                requires
                    0 <= y <= 0xFFFF_FFFF,
                    0 <= w <= 0xFFFF_FFFF,
            ;
            assert(0 <= ((y as int) * (w as int) + (x as int)) * (ch as int) <= (0xFFFF_FFFF
                * 0xFFFF_FFFF + 0xFFFF_FFFF) * 3) by (nonlinear_arith)
                requires
                    0 <= (y as int) * (w as int) <= 0xFFFF_FFFF * 0xFFFF_FFFF,
                    0 <= x <= 0xFFFF_FFFF,
                    0 <= ch <= 3,
            ;
        }
        let at: u128 = ((y as u128) * w + (x as u128)) * (ch as u128) + (c as u128);
        assert(at == sample_index(self@, x as int, y as int, c as int));
        let n: usize = self.data.len();
        assert(at < n);
        let i: usize = at as usize;
        Some(self.data[i])
    }
}

/// Where the channel `c` of the pixel `(x, y)` lies in the buffer.
pub open spec fn sample_index(m: ImageModel, x: int, y: int, c: int) -> int {
    (y * m.width + x) * m.layout.channels() + c
}

/// Every sample of a well-formed image lies inside its buffer.
pub proof fn lemma_sample_index_bound(m: ImageModel, x: int, y: int, c: int)
    requires
        m.wf(),
        0 <= x < m.width,
        0 <= y < m.height,
        0 <= c < m.layout.channels(),
    ensures
        0 <= sample_index(m, x, y, c) < m.data.len(),
{
    let w = m.width as int;
    let h = m.height as int;
    let n = m.layout.channels() as int;
    assert(0 <= y * w + x) by (nonlinear_arith)
        requires
            0 <= y,
            0 <= x,
            0 <= w,
    ;
    assert(y * w + x + 1 <= w * h) by (nonlinear_arith)
        requires
            0 <= x < w,
            0 <= y < h,
    ;
    let p = y * w + x;
    assert(0 <= p * n && (p + 1) * n <= (w * h) * n) by (nonlinear_arith)
        requires
            0 <= p,
            p + 1 <= w * h,
            0 < n,
    ;
    assert((p + 1) * n == p * n + n) by (nonlinear_arith);
}

} // verus!
