//! Planar YUV 4:2:0 to packed BGRA8.
//!
//! The conversion is the BT.601 one, `B = Y + 1.772 (U - 128)`,
//! `G = Y - 0.344 (U - 128) - 0.714 (V - 128)`, `R = Y + 1.402 (V - 128)`,
//! worked out exactly in thousandths. A channel is then cut to a whole number
//! toward zero, and one that falls outside `0..=255` saturates: it does not
//! wrap around.

use vstd::arithmetic::div_mod::lemma_fundamental_div_mod_converse;
use vstd::prelude::*;

verus! {

/// The byte for a channel value given in thousandths.
pub open spec fn channel(thousandths: int) -> u8 {
    if thousandths < 0 {
        0
    } else if thousandths / 1000 > 255 {
        255
    } else {
        (thousandths / 1000) as u8
    }
}

/// Blue of a pixel with luma `luma` and blue projection `cb`.
pub open spec fn blue(luma: u8, cb: u8) -> u8 {
    channel(1000 * luma + 1772 * (cb - 128))
}

/// Green of a pixel with luma `luma` and projections `cb` and `cr`.
pub open spec fn green(luma: u8, cb: u8, cr: u8) -> u8 {
    channel(1000 * luma - 344 * (cb - 128) - 714 * (cr - 128))
}

/// Red of a pixel with luma `luma` and red projection `cr`.
pub open spec fn red(luma: u8, cr: u8) -> u8 {
    channel(1000 * luma + 1402 * (cr - 128))
}

/// Where the sample of row `row` and column `col` lies in a plane whose rows
/// are `stride` bytes apart.
pub open spec fn sample_index(stride: int, row: int, col: int) -> int {
    row * stride + col
}

/// One decoded picture: a luma plane at full resolution and two chroma planes
/// at half resolution in both directions, each with its own row stride.
#[derive(Debug)]
pub struct YuvPlanes {
    pub y: Vec<u8>,
    pub u: Vec<u8>,
    pub v: Vec<u8>,
    pub stride_y: usize,
    pub stride_u: usize,
    pub stride_v: usize,
    pub width: usize,
    pub height: usize,
}

impl YuvPlanes {
    /// The planes hold the samples of every pixel, and the packed picture fits
    /// in memory. With rows and columns counted from zero, it is enough that
    /// the samples of the last pixel of the last row lie inside the planes.
    pub open spec fn covered(&self) -> bool {
        &&& self.width * self.height * 4 <= usize::MAX
        &&& self.width > 0 && self.height > 0 ==> {
            &&& sample_index(self.stride_y as int, self.height - 1, self.width - 1)
                < self.y@.len()
            &&& sample_index(
                self.stride_u as int,
                (self.height - 1) / 2,
                (self.width - 1) / 2,
            ) < self.u@.len()
            &&& sample_index(
                self.stride_v as int,
                (self.height - 1) / 2,
                (self.width - 1) / 2,
            ) < self.v@.len()
        }
    }

    /// Luma of the pixel in column `x` of row `y`.
    pub open spec fn luma(&self, x: int, y: int) -> u8 {
        self.y@[sample_index(self.stride_y as int, y, x)]
    }

    /// Blue projection of the pixel in column `x` of row `y`.
    pub open spec fn cb(&self, x: int, y: int) -> u8 {
        self.u@[sample_index(self.stride_u as int, y / 2, x / 2)]
    }

    /// Red projection of the pixel in column `x` of row `y`.
    pub open spec fn cr(&self, x: int, y: int) -> u8 {
        self.v@[sample_index(self.stride_v as int, y / 2, x / 2)]
    }

    /// Byte `k` (blue, green, red, alpha) of the pixel in column `x` of row `y`.
    pub open spec fn pixel_byte(&self, x: int, y: int, k: int) -> u8 {
        if k == 0 {
            blue(self.luma(x, y), self.cb(x, y))
        } else if k == 1 {
            green(self.luma(x, y), self.cb(x, y), self.cr(x, y))
        } else if k == 2 {
            red(self.luma(x, y), self.cr(x, y))
        } else {
            255
        }
    }

    /// Byte `i` of the packed picture: pixels stand row by row, four bytes
    /// each.
    pub open spec fn byte_at(&self, i: int) -> u8 {
        self.pixel_byte((i / 4) % (self.width as int), (i / 4) / (self.width as int), i % 4)
    }

    /// The packed BGRA8 picture, `width * height * 4` bytes.
    pub open spec fn bgra8(&self) -> Seq<u8> {
        Seq::new((self.width * self.height * 4) as nat, |i: int| self.byte_at(i))
    }

    /// In planes that are covered the samples of every pixel lie inside.
    pub proof fn lemma_samples_inside(&self, x: int, y: int)
        requires
            self.covered(),
            0 <= x < self.width,
            0 <= y < self.height,
        ensures
            0 <= sample_index(self.stride_y as int, y, x) < self.y@.len(),
            0 <= sample_index(self.stride_u as int, y / 2, x / 2) < self.u@.len(),
            0 <= sample_index(self.stride_v as int, y / 2, x / 2) < self.v@.len(),
    {
        let w = self.width as int;
        let h = self.height as int;
        lemma_sample_order(self.stride_y as int, y, x, h - 1, w - 1);
        lemma_sample_order(self.stride_u as int, y / 2, x / 2, (h - 1) / 2, (w - 1) / 2);
        lemma_sample_order(self.stride_v as int, y / 2, x / 2, (h - 1) / 2, (w - 1) / 2);
    }

    /// In the packed picture the pixel in column `x` of row `y` stands at
    /// `(y * width + x) * 4`, as blue, green, red and an alpha of 255.
    pub proof fn lemma_pixel(&self, x: int, y: int)
        requires
            0 <= x < self.width,
            0 <= y < self.height,
        ensures
            (y * self.width + x) * 4 + 4 <= self.bgra8().len(),
            self.bgra8()[(y * self.width + x) * 4] == blue(self.luma(x, y), self.cb(x, y)),
            self.bgra8()[(y * self.width + x) * 4 + 1] == green(
                self.luma(x, y),
                self.cb(x, y),
                self.cr(x, y),
            ),
            self.bgra8()[(y * self.width + x) * 4 + 2] == red(self.luma(x, y), self.cr(x, y)),
            self.bgra8()[(y * self.width + x) * 4 + 3] == 255,
    {
        let w = self.width as int;
        let h = self.height as int;
        lemma_pixel_position(w, h, x, y);
        lemma_fundamental_div_mod_converse(y * w + x, w, y, x);
    }

    /// Whether the planes hold the samples of every pixel and the packed
    /// picture fits in memory.
    pub fn covers(&self) -> (ok: bool)
        ensures
            ok == self.covered(),
    {
        let fits = match self.width.checked_mul(self.height) {
            Some(area) => area.checked_mul(4).is_some(),
            None => false,
        };
        if !fits {
            false
        } else if self.width == 0 || self.height == 0 {
            true
        } else {
            let row = self.height - 1;
            let col = self.width - 1;
            sample_within(self.stride_y, row, col, self.y.len()) && sample_within(
                self.stride_u,
                row / 2,
                col / 2,
                self.u.len(),
            ) && sample_within(self.stride_v, row / 2, col / 2, self.v.len())
        }
    }

    /// Converts the picture to packed BGRA8.
    pub fn write_bgra8(&self) -> (pixels: Vec<u8>)
        requires
            self.covered(),
        ensures
            pixels@ == self.bgra8(),
    {
        let mut pixels: Vec<u8> = Vec::with_capacity(self.width * self.height * 4);
        let mut row: usize = 0;
        while row < self.height
            invariant
                self.covered(),
                row <= self.height,
                pixels@.len() == row * self.width * 4,
                forall|i: int| 0 <= i < pixels@.len() ==> pixels@[i] == self.byte_at(i),
            decreases self.height - row,
        {
            let mut col: usize = 0;
            while col < self.width
                invariant
                    self.covered(),
                    row < self.height,
                    col <= self.width,
                    pixels@.len() == (row * self.width + col) * 4,
                    forall|i: int| 0 <= i < pixels@.len() ==> pixels@[i] == self.byte_at(i),
                decreases self.width - col,
            {
                proof {
                    let w = self.width as int;
                    let h = self.height as int;
                    self.lemma_samples_inside(col as int, row as int);
                    lemma_sample_order(self.stride_y as int, row as int, 0, row as int, col as int);
                    lemma_sample_order(
                        self.stride_u as int,
                        row as int / 2,
                        0,
                        row as int / 2,
                        col as int / 2,
                    );
                    lemma_sample_order(
                        self.stride_v as int,
                        row as int / 2,
                        0,
                        row as int / 2,
                        col as int / 2,
                    );
                    lemma_pixel_position(w, h, col as int, row as int);
                    lemma_fundamental_div_mod_converse(row * w + col, w, row as int, col as int);
                    assert(self.y.len() == self.y@.len());
                    assert(self.u.len() == self.u@.len());
                    assert(self.v.len() == self.v@.len());
                }
                let luma = self.y[row * self.stride_y + col];
                let cb = self.u[row / 2 * self.stride_u + col / 2];
                let cr = self.v[row / 2 * self.stride_v + col / 2];
                pixels.push(to_blue(luma, cb));
                pixels.push(to_green(luma, cb, cr));
                pixels.push(to_red(luma, cr));
                pixels.push(255);
                col += 1;
            }
            assert((row * self.width + col) * 4 == (row + 1) * self.width * 4)
                by (nonlinear_arith)
                requires
                    col == self.width,
            ;
            row += 1;
        }
        assert(row * self.width * 4 == self.width * self.height * 4) by (nonlinear_arith)
            requires
                row == self.height,
        ;
        assert(pixels@ =~= self.bgra8());
        pixels
    }
}

/// Blue of a pixel, as [`blue`] defines it.
pub fn to_blue(luma: u8, cb: u8) -> (byte: u8)
    ensures
        byte == blue(luma, cb),
{
    to_channel(1000 * (luma as i32) + 1772 * (cb as i32 - 128))
}

/// Green of a pixel, as [`green`] defines it.
pub fn to_green(luma: u8, cb: u8, cr: u8) -> (byte: u8)
    ensures
        byte == green(luma, cb, cr),
{
    to_channel(1000 * (luma as i32) - 344 * (cb as i32 - 128) - 714 * (cr as i32 - 128))
}

/// Red of a pixel, as [`red`] defines it.
pub fn to_red(luma: u8, cr: u8) -> (byte: u8)
    ensures
        byte == red(luma, cr),
{
    to_channel(1000 * (luma as i32) + 1402 * (cr as i32 - 128))
}

fn to_channel(thousandths: i32) -> (byte: u8)
    ensures
        byte == channel(thousandths as int),
{
    if thousandths < 0 {
        0
    } else {
        let whole = thousandths / 1000;
        if whole > 255 {
            255
        } else {
            whole as u8
        }
    }
}

fn sample_within(stride: usize, row: usize, col: usize, len: usize) -> (ok: bool)
    ensures
        ok == (sample_index(stride as int, row as int, col as int) < len),
{
    match row.checked_mul(stride) {
        Some(start) => match start.checked_add(col) {
            Some(index) => index < len,
            None => false,
        },
        None => false,
    }
}

proof fn lemma_sample_order(stride: int, row: int, col: int, last_row: int, last_col: int)
    by (nonlinear_arith)
    requires
        0 <= stride,
        0 <= row <= last_row,
        0 <= col <= last_col,
    ensures
        0 <= row * stride,
        0 <= sample_index(stride, row, col) <= sample_index(stride, last_row, last_col),
{
}

proof fn lemma_pixel_position(width: int, height: int, x: int, y: int)
    by (nonlinear_arith)
    requires
        0 <= x < width,
        0 <= y < height,
    ensures
        0 <= y * width + x < width * height,
        (y * width + x) * 4 + 4 <= width * height * 4,
{
}

} // verus!
