//! The mathematical model of an image: a width, a height and the pixels in
//! row-major order.

use vstd::prelude::*;
use crate::pixel::Rgba;

verus! {

/// An image as contracts see it.
pub struct Raster {
    pub width: nat,
    pub height: nat,
    pub pixels: Seq<Rgba>,
}

impl Raster {
    /// The pixel sequence has one entry per position.
    pub open spec fn wf(self) -> bool {
        self.pixels.len() == self.width * self.height
    }

    /// Whether `(x, y)` is a position of the image.
    pub open spec fn contains(self, x: int, y: int) -> bool {
        0 <= x < self.width && 0 <= y < self.height
    }

    /// The pixel at column `x` of row `y`.
    pub open spec fn pixel_at(self, x: int, y: int) -> Rgba {
        self.pixels[y * self.width + x]
    }

    /// Column of the pixel with row-major index `i`.
    pub open spec fn col(self, i: int) -> int {
        if self.width == 0 { 0 } else { i % (self.width as int) }
    }

    /// Row of the pixel with row-major index `i`.
    pub open spec fn row(self, i: int) -> int {
        if self.width == 0 { 0 } else { i / (self.width as int) }
    }

    /// The image with the pixel at `(x, y)` replaced by `p`.
    pub open spec fn with_pixel(self, x: int, y: int, p: Rgba) -> Raster {
        Raster { pixels: self.pixels.update(y * self.width + x, p), ..self }
    }
}

/// A fully transparent image.
pub open spec fn blank(width: nat, height: nat) -> Raster {
    Raster {
        width,
        height,
        pixels: Seq::new(width * height, |i: int| Rgba { r: 0, g: 0, b: 0, a: 0 }),
    }
}

/// A position inside a `w` by `h` grid has a row-major index inside the
/// grid, and the index gives the position back.
pub proof fn lemma_index_join(w: int, h: int, x: int, y: int)
    requires
        0 <= x < w,
        0 <= y < h,
    ensures
        0 <= y * w + x < w * h,
        (y * w + x) / w == y,
        (y * w + x) % w == x,
{
    assert(0 <= y * w && y * w + w <= w * h) by (nonlinear_arith)
        requires 0 <= y < h, 0 < w;
    vstd::arithmetic::div_mod::lemma_fundamental_div_mod_converse(y * w + x, w, y, x);
}

/// A row-major index inside a `w` by `h` grid splits into a position inside
/// the grid.
pub proof fn lemma_index_split(w: int, h: int, i: int)
    requires
        0 <= i < w * h,
        0 <= w,
        0 <= h,
    ensures
        0 < w,
        0 <= i % w < w,
        0 <= i / w < h,
        i == (i / w) * w + i % w,
{
    assert(0 < w) by (nonlinear_arith)
        requires 0 <= i < w * h, 0 <= w;
    vstd::arithmetic::div_mod::lemma_fundamental_div_mod(i, w);
    vstd::arithmetic::div_mod::lemma_mod_bound(i, w);
    let q = i / w;
    assert(i == w * q + i % w);
    assert(q * w == w * q) by (nonlinear_arith);
    assert(0 <= q < h) by (nonlinear_arith)
        requires 0 <= i < w * h, 0 < w, i == w * q + i % w, 0 <= i % w < w, 0 <= h;
}

} // verus!
