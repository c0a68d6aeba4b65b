//! Stacking one image on another, and tinting an image through the
//! alpha-preserving surface.

use vstd::prelude::*;
use crate::blend::MyBlend;
use crate::buffer::RgbaImage;
use crate::pixel::{blended, drawn_over, tint_of, tint_pixel, SkinColour};
use crate::raster::{lemma_index_join, lemma_index_split, Raster};

verus! {

/// `bottom` after `top` was blended onto it with the top's corner at
/// `(x, y)` of the bottom. Where the top does not reach, or reaches outside
/// the bottom, nothing changes.
pub open spec fn overlaid(bottom: Raster, top: Raster, x: int, y: int) -> Raster {
    Raster {
        width: bottom.width,
        height: bottom.height,
        pixels: Seq::new(
            bottom.pixels.len(),
            |i: int|
                if top.contains(bottom.col(i) - x, bottom.row(i) - y) {
                    blended(bottom.pixels[i], top.pixel_at(bottom.col(i) - x, bottom.row(i) - y))
                } else {
                    bottom.pixels[i]
                },
        ),
    }
}

/// Offset that centres a layer of size `layer` on a canvas of size
/// `canvas`; both halves are truncated, and the offset is negative where
/// the layer is the larger one.
pub open spec fn centre_offset(canvas: nat, layer: nat) -> int {
    (canvas / 2) as int - (layer / 2) as int
}

/// `bottom` with `top` blended onto its centre.
pub open spec fn centred(bottom: Raster, top: Raster) -> Raster {
    overlaid(
        bottom,
        top,
        centre_offset(bottom.width, top.width),
        centre_offset(bottom.height, top.height),
    )
}

/// `src` after the rectangle of `w` by `h` pixels at its origin was filled
/// with `colour` through the alpha-preserving surface.
pub open spec fn tinted(src: Raster, w: nat, h: nat, colour: SkinColour) -> Raster {
    Raster {
        width: src.width,
        height: src.height,
        pixels: Seq::new(
            src.pixels.len(),
            |i: int|
                if src.col(i) < w && src.row(i) < h {
                    drawn_over(src.pixels[i], tint_pixel(colour))
                } else {
                    src.pixels[i]
                },
        ),
    }
}

/// Calls `image::imageops::overlay`: for every position of `bottom` that
/// `top`, placed with its corner at `(x, y)`, covers, the crate blends the
/// top's pixel into the bottom's; all other pixels and the size stay.
#[verifier::external_body]
pub(crate) fn overlay(bottom: &mut RgbaImage, top: &RgbaImage, x: i64, y: i64)
    requires
        old(bottom).wf(),
        top.wf(),
    ensures
        final(bottom).wf(),
        final(bottom)@ == overlaid(old(bottom)@, top@, x as int, y as int),
{
    let taken = std::mem::take(&mut bottom.data);
    let mut b = image::RgbaImage::from_raw(bottom.width, bottom.height, taken).unwrap();
    let t: image::ImageBuffer<image::Rgba<u8>, &[u8]> =
        image::ImageBuffer::from_raw(top.width, top.height, top.data.as_slice()).unwrap();
    image::imageops::overlay(&mut b, &t, x, y);
    bottom.data = b.into_raw();
}

/// Blends `top` onto the centre of `bottom`.
pub fn overlay_centred(bottom: &mut RgbaImage, top: &RgbaImage)
    requires
        old(bottom).wf(),
        top.wf(),
    ensures
        final(bottom).wf(),
        final(bottom)@ == centred(old(bottom)@, top@),
{
    let x: i64 = (bottom.width() / 2) as i64 - (top.width() / 2) as i64;
    let y: i64 = (bottom.height() / 2) as i64 - (top.height() / 2) as i64;
    overlay(bottom, top, x, y);
}

/// Fills the rectangle of `w` by `h` pixels at the origin of `image` with
/// `color` at the fixed tint alpha, clipped to the image. Colour is blended
/// in; the alpha of every pixel stays what it was.
pub fn colorize_image(image: &mut MyBlend<RgbaImage>, w: u32, h: u32, color: SkinColour)
    requires
        old(image).0.wf(),
    ensures
        final(image).0.wf(),
        final(image).0@ == tinted(old(image).0@, w as nat, h as nat, color),
        forall|i: int|
            0 <= i < old(image).0@.pixels.len() ==> (#[trigger] final(image).0@.pixels[i]).a == old(
                image,
            ).0@.pixels[i].a,
{
    let tint = tint_of(color);
    let (iw, ih) = image.dimensions();
    let cw: u32 = if w < iw { w } else { iw };
    let ch: u32 = if h < ih { h } else { ih };
    let ghost start = image.0@;
    proof {
        image.0.lemma_view();
    }
    let mut y: u32 = 0;
    while y < ch
        invariant
            y <= ch,
            ch <= ih,
            cw <= iw,
            image.0.wf(),
            start.wf(),
            start.width == iw,
            start.height == ih,
            image.0@.width == iw,
            image.0@.height == ih,
            image.0@.pixels.len() == start.pixels.len(),
            forall|i: int|
                0 <= i < start.pixels.len() ==> #[trigger] image.0@.pixels[i] == if start.col(i)
                    < cw && start.row(i) < y {
                    drawn_over(start.pixels[i], tint)
                } else {
                    start.pixels[i]
                },
        decreases ch - y,
    {
        let mut x: u32 = 0;
        while x < cw
            invariant
                x <= cw,
                y < ch,
                ch <= ih,
                cw <= iw,
                image.0.wf(),
                start.wf(),
                start.width == iw,
                start.height == ih,
                image.0@.width == iw,
                image.0@.height == ih,
                image.0@.pixels.len() == start.pixels.len(),
                forall|i: int|
                    0 <= i < start.pixels.len() ==> #[trigger] image.0@.pixels[i] == if start.col(i)
                        < cw && (start.row(i) < y || (start.row(i) == y && start.col(i) < x)) {
                        drawn_over(start.pixels[i], tint)
                    } else {
                        start.pixels[i]
                    },
            decreases cw - x,
        {
            let ghost before = image.0@;
            proof {
                lemma_index_join(iw as int, ih as int, x as int, y as int);
            }
            image.draw_pixel(x, y, tint);
            proof {
                let k = (y as int) * (iw as int) + (x as int);
                assert(before.pixel_at(x as int, y as int) == start.pixels[k]);
                assert forall|i: int| 0 <= i < start.pixels.len() implies #[trigger] image.0@.pixels[i]
                    == if start.col(i) < cw && (start.row(i) < y || (start.row(i) == y
                    && start.col(i) < x + 1)) {
                    drawn_over(start.pixels[i], tint)
                } else {
                    start.pixels[i]
                } by {
                    lemma_index_split(iw as int, ih as int, i);
                    if i != k {
                        assert(image.0@.pixels[i] == before.pixels[i]);
                    }
                }
            }
            x = x + 1;
        }
        y = y + 1;
    }
    proof {
        let goal = tinted(start, w as nat, h as nat, color);
        assert forall|i: int| 0 <= i < start.pixels.len() implies image.0@.pixels[i]
            == goal.pixels[i] by {
            lemma_index_split(iw as int, ih as int, i);
        }
        assert(image.0@.pixels =~= goal.pixels);
    }
}

} // verus!
