//! A drawing surface that blends colour into a pixel store and keeps each
//! pixel's alpha as it was.

use vstd::prelude::*;
use crate::buffer::RgbaImage;
use crate::pixel::{draw_over, drawn_over, Rgba};
use crate::raster::{lemma_index_join, Raster};

verus! {

/// An indexable two-dimensional store of RGBA pixels.
pub trait PixelStore: Sized {
    /// The store's own invariant.
    spec fn valid(&self) -> bool;

    /// The image that the store holds.
    spec fn raster(&self) -> Raster;

    /// A valid store holds one pixel per position.
    proof fn lemma_raster_wf(&self)
        requires
            self.valid(),
        ensures
            self.raster().wf(),
    ;

    /// Width and height.
    fn store_dimensions(&self) -> (d: (u32, u32))
        ensures
            d.0 == self.raster().width,
            d.1 == self.raster().height,
    ;

    /// The pixel at `(x, y)`.
    fn load_pixel(&self, x: u32, y: u32) -> (p: Rgba)
        requires
            self.valid(),
            self.raster().contains(x as int, y as int),
        ensures
            p == self.raster().pixel_at(x as int, y as int),
    ;

    /// Replaces the pixel at `(x, y)`; every other pixel stays.
    fn store_pixel(&mut self, x: u32, y: u32, p: Rgba)
        requires
            old(self).valid(),
            old(self).raster().contains(x as int, y as int),
        ensures
            final(self).valid(),
            final(self).raster() == old(self).raster().with_pixel(x as int, y as int, p),
    ;
}

impl PixelStore for RgbaImage {
    open spec fn valid(&self) -> bool {
        self.wf()
    }

    open spec fn raster(&self) -> Raster {
        self@
    }

    proof fn lemma_raster_wf(&self) {
        self.lemma_view();
    }

    fn store_dimensions(&self) -> (d: (u32, u32)) {
        self.dimensions()
    }

    fn load_pixel(&self, x: u32, y: u32) -> (p: Rgba) {
        self.get_pixel(x, y)
    }

    fn store_pixel(&mut self, x: u32, y: u32, p: Rgba) {
        self.put_pixel(x, y, p)
    }
}

/// Wraps a pixel store so that drawing on it never alters its silhouette.
pub struct MyBlend<I>(pub I);

impl<I: PixelStore> MyBlend<I> {
    /// Width and height of the wrapped store.
    pub fn dimensions(&self) -> (d: (u32, u32))
        ensures
            d.0 == self.0.raster().width,
            d.1 == self.0.raster().height,
    {
        self.0.store_dimensions()
    }

    /// The current pixel at `(x, y)`.
    pub fn get_pixel(&self, x: u32, y: u32) -> (p: Rgba)
        requires
            self.0.valid(),
            self.0.raster().contains(x as int, y as int),
        ensures
            p == self.0.raster().pixel_at(x as int, y as int),
    {
        self.0.load_pixel(x, y)
    }

    /// Blends `color` onto the pixel at `(x, y)` and restores that pixel's
    /// alpha; every other pixel stays.
    pub fn draw_pixel(&mut self, x: u32, y: u32, color: Rgba)
        requires
            old(self).0.valid(),
            old(self).0.raster().contains(x as int, y as int),
        ensures
            final(self).0.valid(),
            final(self).0.raster() == old(self).0.raster().with_pixel(
                x as int,
                y as int,
                drawn_over(old(self).0.raster().pixel_at(x as int, y as int), color),
            ),
            final(self).0.raster().pixel_at(x as int, y as int).a == old(self).0.raster().pixel_at(
                x as int,
                y as int,
            ).a,
    {
        let pix = self.0.load_pixel(x, y);
        let out = draw_over(pix, color);
        proof {
            self.0.lemma_raster_wf();
            lemma_index_join(
                self.0.raster().width as int,
                self.0.raster().height as int,
                x as int,
                y as int,
            );
        }
        self.0.store_pixel(x, y, out);
    }
}

} // verus!
