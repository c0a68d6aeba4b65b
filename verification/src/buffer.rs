//! An owned RGBA image buffer: four bytes per pixel, rows from top to bottom.

use vstd::prelude::*;
use crate::pixel::Rgba;
use crate::raster::{blank, lemma_index_join, Raster};

verus! {

/// A rectangular grid of pixels that owns its bytes.
pub struct RgbaImage {
    pub(crate) width: u32,
    pub(crate) height: u32,
    pub(crate) data: Vec<u8>,
}

/// The pixel that the four bytes from `4 * i` on encode.
pub open spec fn pixel_of_bytes(data: Seq<u8>, i: int) -> Rgba {
    Rgba { r: data[4 * i], g: data[4 * i + 1], b: data[4 * i + 2], a: data[4 * i + 3] }
}

/// The area of a grid whose sides fit in 32 bits fits in 64 bits.
pub proof fn lemma_area_bound(w: int, h: int)
    requires
        0 <= w <= u32::MAX,
        0 <= h <= u32::MAX,
    ensures
        0 <= w * h <= 0xFFFF_FFFE_0000_0001,
        4 * w * h == 4 * (w * h),
{
    assert(0 <= w * h <= 0xFFFF_FFFF * 0xFFFF_FFFF) by (nonlinear_arith)
        requires 0 <= w <= 0xFFFF_FFFF, 0 <= h <= 0xFFFF_FFFF;
    assert(4 * w * h == 4 * (w * h)) by (nonlinear_arith);
}

impl View for RgbaImage {
    type V = Raster;

    closed spec fn view(&self) -> Raster {
        Raster {
            width: self.width as nat,
            height: self.height as nat,
            pixels: Seq::new(
                (self.width as nat) * (self.height as nat),
                |i: int| pixel_of_bytes(self.data@, i),
            ),
        }
    }
}

impl RgbaImage {
    /// The buffer holds exactly four bytes for each pixel.
    pub closed spec fn wf(&self) -> bool {
        self.data@.len() == 4 * (self.width as nat) * (self.height as nat)
    }

    /// The bytes of the image, row by row.
    pub closed spec fn bytes(&self) -> Seq<u8> {
        self.data@
    }

    /// A well-formed buffer has a well-formed model, and its bytes are the
    /// channels of the model's pixels in order.
    pub proof fn lemma_view(&self)
        requires
            self.wf(),
        ensures
            self@.wf(),
            self@.width <= u32::MAX,
            self@.height <= u32::MAX,
            self.bytes().len() == 4 * self@.width * self@.height,
            self.bytes().len() == 4 * self@.pixels.len(),
            forall|i: int| 0 <= i < self@.pixels.len() ==>
                #[trigger] self@.pixels[i] == pixel_of_bytes(self.bytes(), i),
    {
        lemma_area_bound(self.width as int, self.height as int);
    }

    /// A fully transparent image, or `None` where its bytes would not fit in
    /// memory.
    pub fn new(width: u32, height: u32) -> (r: Option<RgbaImage>)
        ensures
            r is Some <==> 4 * (width as int) * (height as int) <= usize::MAX,
            r matches Some(img) ==> img.wf() && img@ == blank(width as nat, height as nat),
    {
        proof {
            lemma_area_bound(width as int, height as int);
        }
        let area: u64 = (width as u64) * (height as u64);
        let n: u128 = 4u128 * (area as u128);
        if n > usize::MAX as u128 {
            return None;
        }
        let data: Vec<u8> = vec![0u8; n as usize];
        let img = RgbaImage { width, height, data };
        proof {
            assert(img@.pixels =~= blank(width as nat, height as nat).pixels);
        }
        Some(img)
    }

    /// Takes over `data` as the bytes of a `width` by `height` image, or
    /// gives `None` where the length is not four bytes per pixel.
    pub fn from_raw(width: u32, height: u32, data: Vec<u8>) -> (r: Option<RgbaImage>)
        ensures
            r is Some <==> data@.len() == 4 * (width as int) * (height as int),
            r matches Some(img) ==> img.wf() && img.bytes() == data@
                && img@.width == width && img@.height == height,
    {
        proof {
            lemma_area_bound(width as int, height as int);
        }
        let area: u64 = (width as u64) * (height as u64);
        let n: u128 = 4u128 * (area as u128);
        if data.len() as u128 != n {
            return None;
        }
        Some(RgbaImage { width, height, data })
    }

    /// Gives the bytes back, row by row.
    pub fn into_raw(self) -> (data: Vec<u8>)
        ensures
            data@ == self.bytes(),
    {
        self.data
    }

    pub fn width(&self) -> (w: u32)
        ensures
            w == self@.width,
    {
        self.width
    }

    pub fn height(&self) -> (h: u32)
        ensures
            h == self@.height,
    {
        self.height
    }

    pub fn dimensions(&self) -> (d: (u32, u32))
        ensures
            d.0 == self@.width,
            d.1 == self@.height,
    {
        (self.width, self.height)
    }

    /// The pixel at column `x` of row `y`.
    pub fn get_pixel(&self, x: u32, y: u32) -> (p: Rgba)
        requires
            self.wf(),
            self@.contains(x as int, y as int),
        ensures
            p == self@.pixel_at(x as int, y as int),
    {
        proof {
            lemma_index_join(self.width as int, self.height as int, x as int, y as int);
            lemma_area_bound(self.width as int, self.height as int);
        }
        let len: usize = self.data.len();
        let i: usize = (y as usize) * (self.width as usize) + (x as usize);
        Rgba {
            r: self.data[4 * i],
            g: self.data[4 * i + 1],
            b: self.data[4 * i + 2],
            a: self.data[4 * i + 3],
        }
    }

    /// Stores `p` at column `x` of row `y`; every other pixel stays.
    pub fn put_pixel(&mut self, x: u32, y: u32, p: Rgba)
        requires
            old(self).wf(),
            old(self)@.contains(x as int, y as int),
        ensures
            final(self).wf(),
            final(self)@ == old(self)@.with_pixel(x as int, y as int, p),
    {
        proof {
            lemma_index_join(self.width as int, self.height as int, x as int, y as int);
            lemma_area_bound(self.width as int, self.height as int);
        }
        let len: usize = self.data.len();
        let i: usize = (y as usize) * (self.width as usize) + (x as usize);
        self.data.set(4 * i, p.r);
        self.data.set(4 * i + 1, p.g);
        self.data.set(4 * i + 2, p.b);
        self.data.set(4 * i + 3, p.a);
        proof {
            assert(self@.pixels =~= old(self)@.with_pixel(x as int, y as int, p).pixels);
        }
    }
}

/// Well-formed buffers with the same model hold the same bytes.
pub proof fn lemma_same_view_same_bytes(a: &RgbaImage, b: &RgbaImage)
    requires
        a.wf(),
        b.wf(),
        a@ == b@,
    ensures
        a.bytes() == b.bytes(),
{
    a.lemma_view();
    b.lemma_view();
    assert forall|j: int| 0 <= j < a.bytes().len() implies a.bytes()[j] == b.bytes()[j] by {
        let i = j / 4;
        assert(0 <= i < a@.pixels.len());
        assert(a@.pixels[i] == pixel_of_bytes(a.bytes(), i));
        assert(b@.pixels[i] == pixel_of_bytes(b.bytes(), i));
    }
    assert(a.bytes() =~= b.bytes());
}

} // verus!
