//! A sensor frame: one sample per photosite, the colour of each photosite,
//! and the sample value that stands for full exposure.

use vstd::prelude::*;
use vstd::arithmetic::div_mod::lemma_mod_bound;
use crate::raster::DecodeError;

verus! {

/// The colour of the filter over one photosite.
#[derive(Clone, Copy, Debug, PartialEq, Eq, Structural)]
pub enum CfaColor {
    Red,
    Green,
    Blue,
}

/// The colour that a colour index stands for: 0 is red, 1 green, 2 blue, and
/// 3 the second green of a four-colour array. No other index names a colour.
pub open spec fn color_of_code(code: int) -> Option<CfaColor> {
    if code == 0 {
        Some(CfaColor::Red)
    } else if code == 1 || code == 3 {
        Some(CfaColor::Green)
    } else if code == 2 {
        Some(CfaColor::Blue)
    } else {
        None
    }
}

impl CfaColor {
    /// The colour that a colour index stands for.
    pub fn from_code(code: usize) -> (c: Option<CfaColor>)
        ensures
            c == color_of_code(code as int),
    {
        if code == 0 {
            Some(CfaColor::Red)
        } else if code == 1 || code == 3 {
            Some(CfaColor::Green)
        } else if code == 2 {
            Some(CfaColor::Blue)
        } else {
            None
        }
    }
}

/// What a colour filter array is: a `width` by `height` tile of colours that
/// repeats over the whole sensor.
pub struct CfaModel {
    pub width: nat,
    pub height: nat,
    pub colors: Seq<CfaColor>,
}

impl CfaModel {
    /// The tile is not empty and holds one colour per position.
    pub open spec fn wf(self) -> bool {
        &&& self.width > 0
        &&& self.height > 0
        &&& self.colors.len() == self.width * self.height
    }

    /// The colour over the photosite in row `row`, column `col` of the sensor.
    pub open spec fn color_at(self, row: int, col: int) -> CfaColor {
        self.colors[(row % (self.height as int)) * self.width + col % (self.width as int)]
    }
}

/// The position inside a well-formed tile that covers a photosite lies inside
/// the tile.
pub proof fn lemma_cfa_index(m: CfaModel, row: int, col: int)
    requires
        m.wf(),
    ensures
        0 <= (row % (m.height as int)) * m.width + col % (m.width as int) < m.colors.len(),
{
    let w = m.width as int;
    let h = m.height as int;
    lemma_mod_bound(row, h);
    lemma_mod_bound(col, w);
    let r = row % h;
    let c = col % w;
    assert(0 <= r * w && (r + 1) * w <= h * w) by (nonlinear_arith)
        requires
            0 <= r < h,
            0 < w,
    ;
    assert((r + 1) * w == r * w + w) by (nonlinear_arith);
    assert(h * w == w * h) by (nonlinear_arith);
}

/// A colour filter array with a non-empty tile.
#[derive(Debug)]
pub struct CfaPattern {
    width: usize,
    height: usize,
    colors: Vec<CfaColor>,
}

impl View for CfaPattern {
    type V = CfaModel;

    closed spec fn view(&self) -> CfaModel {
        CfaModel { width: self.width as nat, height: self.height as nat, colors: self.colors@ }
    }
}

impl CfaPattern {
    #[verifier::type_invariant]
    closed spec fn inv(&self) -> bool {
        self@.wf()
    }

    /// Build a pattern from its tile, given row by row. An empty tile, or one
    /// whose number of colours is not `width * height`, is refused.
    pub fn new(width: usize, height: usize, colors: Vec<CfaColor>) -> (res: Result<
        CfaPattern,
        DecodeError,
    >)
        ensures
            res is Ok <==> width > 0 && height > 0 && colors@.len() == width * height,
            res matches Ok(p) ==> p@ == (CfaModel {
                width: width as nat,
                height: height as nat,
                colors: colors@,
            }) && p@.wf(),
            res matches Err(e) ==> e == DecodeError::UnsupportedFormat,
    {
        if width == 0 || height == 0 {
            return Err(DecodeError::UnsupportedFormat);
        }
        let len: usize = colors.len();
        // width * height == len, tested without forming the product
        if len % width != 0 || len / width != height {
            proof {
                if len == width * height {
                    vstd::arithmetic::div_mod::lemma_fundamental_div_mod_converse(
                        len as int,
                        width as int,
                        height as int,
                        0,
                    );
                }
            }
            return Err(DecodeError::UnsupportedFormat);
        }
        proof {
            vstd::arithmetic::div_mod::lemma_fundamental_div_mod(len as int, width as int);
            assert(width * height == height * width) by (nonlinear_arith);
        }
        Ok(CfaPattern { width, height, colors })
    }

    /// The 2x2 tile with red top left and blue bottom right.
    pub fn rggb() -> (p: CfaPattern)
        ensures
            p@.wf(),
            p@.width == 2,
            p@.height == 2,
            p@.colors == seq![CfaColor::Red, CfaColor::Green, CfaColor::Green, CfaColor::Blue],
    {
        let mut colors: Vec<CfaColor> = Vec::new();
        colors.push(CfaColor::Red);
        colors.push(CfaColor::Green);
        colors.push(CfaColor::Green);
        colors.push(CfaColor::Blue);
        assert(colors@ =~= seq![CfaColor::Red, CfaColor::Green, CfaColor::Green, CfaColor::Blue]);
        CfaPattern { width: 2, height: 2, colors }
    }

    /// The colour over the photosite in row `row`, column `col` of the sensor.
    pub fn color_at(&self, row: usize, col: usize) -> (c: CfaColor)
        ensures
            c == self@.color_at(row as int, col as int),
            self@.wf(),
    {
        proof {
            use_type_invariant(self);
            lemma_cfa_index(self@, row as int, col as int);
        }
        let r: usize = row % self.height;
        let k: usize = col % self.width;
        let n: usize = self.colors.len();
        assert(r * self.width + k < n);
        assert(0 <= r * self.width) by (nonlinear_arith)
            requires
                0 <= r,
                0 <= self.width,
        ;
        self.colors[r * self.width + k]
    }
}

/// The sample value that stands for full exposure, for each colour.
#[derive(Clone, Copy, Debug, PartialEq, Eq, Structural)]
pub struct WhiteLevels {
    pub red: u16,
    pub green: u16,
    pub blue: u16,
}

impl WhiteLevels {
    /// The white level of the given colour.
    pub open spec fn of(self, c: CfaColor) -> int {
        match c {
            CfaColor::Red => self.red as int,
            CfaColor::Green => self.green as int,
            CfaColor::Blue => self.blue as int,
        }
    }

    /// No white level is zero.
    pub open spec fn positive(self) -> bool {
        self.red > 0 && self.green > 0 && self.blue > 0
    }
}

/// What a sensor frame is.
pub struct FrameModel {
    pub width: nat,
    pub height: nat,
    pub samples: Seq<u16>,
    pub white: WhiteLevels,
    pub cfa: CfaModel,
}

impl FrameModel {
    /// The frame is not empty, holds one sample per photosite, has a usable
    /// white level for every colour and a well-formed filter array.
    pub open spec fn wf(self) -> bool {
        &&& 0 < self.width <= u32::MAX
        &&& 0 < self.height <= u32::MAX
        &&& self.samples.len() == self.width * self.height
        &&& self.white.positive()
        &&& self.cfa.wf()
    }
}

/// A decoded sensor frame. It never changes once built.
#[derive(Debug)]
pub struct RawSensorFrame {
    width: u32,
    height: u32,
    samples: Vec<u16>,
    white: WhiteLevels,
    cfa: CfaPattern,
}

impl View for RawSensorFrame {
    type V = FrameModel;

    closed spec fn view(&self) -> FrameModel {
        FrameModel {
            width: self.width as nat,
            height: self.height as nat,
            samples: self.samples@,
            white: self.white,
            cfa: self.cfa@,
        }
    }
}

/// What `RawSensorFrame::new` accepts.
pub open spec fn frame_accepted(
    width: u32,
    height: u32,
    samples: Seq<u16>,
    white: WhiteLevels,
) -> bool {
    &&& width > 0
    &&& height > 0
    &&& samples.len() == (width as nat) * (height as nat)
    &&& white.positive()
}

impl RawSensorFrame {
    #[verifier::type_invariant]
    closed spec fn inv(&self) -> bool {
        self@.wf()
    }

    /// Build a frame from its parts. A frame with no pixels, with a white
    /// level of zero, or whose number of samples is not `width * height`, is
    /// refused.
    pub fn new(
        width: u32,
        height: u32,
        samples: Vec<u16>,
        white: WhiteLevels,
        cfa: CfaPattern,
    ) -> (res: Result<RawSensorFrame, DecodeError>)
        ensures
            res is Ok <==> frame_accepted(width, height, samples@, white),
            res matches Ok(f) ==> f@ == (FrameModel {
                width: width as nat,
                height: height as nat,
                samples: samples@,
                white,
                cfa: cfa@,
            }) && f@.wf(),
            res matches Err(e) ==> e == DecodeError::UnsupportedFormat,
    {
        proof {
            use_type_invariant(&cfa);
        }
        if width == 0 || height == 0 || white.red == 0 || white.green == 0 || white.blue == 0 {
            return Err(DecodeError::UnsupportedFormat);
        }
        assert((width as int) * (height as int) <= 0xFFFF_FFFF * 0xFFFF_FFFF) by (nonlinear_arith)
            requires
                0 <= width <= 0xFFFF_FFFF,
                0 <= height <= 0xFFFF_FFFF,
        ;
        let pixels: u64 = (width as u64) * (height as u64);
        if (samples.len() as u64) != pixels {
            return Err(DecodeError::UnsupportedFormat);
        }
        Ok(RawSensorFrame { width, height, samples, white, cfa })
    }

    /// Width in photosites.
    pub fn width(&self) -> (w: u32)
        ensures
            w == self@.width,
            self@.wf(),
    {
        proof {
            use_type_invariant(self);
        }
        self.width
    }

    /// Height in photosites.
    pub fn height(&self) -> (h: u32)
        ensures
            h == self@.height,
            self@.wf(),
    {
        proof {
            use_type_invariant(self);
        }
        self.height
    }

    /// The white levels.
    pub fn white(&self) -> (w: WhiteLevels)
        ensures
            w == self@.white,
            self@.wf(),
    {
        proof {
            use_type_invariant(self);
        }
        self.white
    }

    /// The colour over the photosite in row `row`, column `col`.
    pub fn color_at(&self, row: usize, col: usize) -> (c: CfaColor)
        ensures
            c == self@.cfa.color_at(row as int, col as int),
            self@.wf(),
    {
        proof {
            use_type_invariant(self);
        }
        self.cfa.color_at(row, col)
    }

    /// The sample in column `x` of row `y`.
    pub fn sample(&self, x: u32, y: u32) -> (s: u16)
        requires
            x < self@.width,
            y < self@.height,
        ensures
            self@.wf(),
            0 <= y * self@.width + x < self@.samples.len(),
            s == self@.samples[y * self@.width + x],
    {
        proof {
            use_type_invariant(self);
            let w = self.width as int;
            let h = self.height as int;
            assert(0 <= (y as int) * w && (y as int) * w + w <= w * h) by (nonlinear_arith)
                requires
                    0 <= y < h,
                    0 < w,
            ;
        }
        let n: usize = self.samples.len();
        let at: u64 = (y as u64) * (self.width as u64) + (x as u64);
        assert(at < n);
        let i: usize = at as usize;
        self.samples[i]
    }
}

} // verus!
