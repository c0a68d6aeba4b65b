//! Straight-alpha RGBA pixels and the source-over blend of one onto another.

use vstd::prelude::*;

verus! {

/// Four 8-bit channels, non-premultiplied alpha.
#[derive(Clone, Copy, Debug, PartialEq, Eq, Structural)]
pub struct Rgba {
    pub r: u8,
    pub g: u8,
    pub b: u8,
    pub a: u8,
}

/// An RGB triple; it never carries alpha.
pub type SkinColour = (u8, u8, u8);

/// Alpha that a tint colour is given while it is blended.
pub const TINT_ALPHA: u8 = 100;

/// Alpha of a fully opaque pixel.
pub const OPAQUE: u8 = 255;

/// What `image`'s `Pixel::blend` leaves in `dst` after blending a partly
/// transparent `src` (alpha strictly between 0 and 255) into it. The crate
/// computes it in `f32`; it depends on the eight channels alone.
pub uninterp spec fn mixed(dst: Rgba, src: Rgba) -> Rgba;

/// Source-over blend of `src` onto `dst`: a fully transparent source leaves
/// the destination as it is, a fully opaque source replaces it, and anything
/// in between is mixed.
pub open spec fn blended(dst: Rgba, src: Rgba) -> Rgba {
    if src.a == 0 {
        dst
    } else if src.a == OPAQUE {
        src
    } else {
        mixed(dst, src)
    }
}

/// The pixel that a tint colour is drawn with.
pub open spec fn tint_pixel(colour: SkinColour) -> Rgba {
    Rgba { r: colour.0, g: colour.1, b: colour.2, a: TINT_ALPHA }
}

/// `dst` after `src` was drawn on it with the destination's alpha kept.
pub open spec fn drawn_over(dst: Rgba, src: Rgba) -> Rgba {
    let mix = blended(dst, src);
    Rgba { r: mix.r, g: mix.g, b: mix.b, a: dst.a }
}

/// Calls `image::Pixel::blend` on `image::Rgba<u8>`: the result is `dst` where
/// `src` is fully transparent, `src` where it is fully opaque, and else the
/// value the crate computes from the two pixels, which is only named here.
#[verifier::external_body]
pub(crate) fn blend(dst: Rgba, src: Rgba) -> (out: Rgba)
    ensures
        src.a == 0 ==> out == dst,
        src.a == OPAQUE ==> out == src,
        0 < src.a < OPAQUE ==> out == mixed(dst, src),
{
    let mut p = image::Rgba([dst.r, dst.g, dst.b, dst.a]);
    image::Pixel::blend(&mut p, &image::Rgba([src.r, src.g, src.b, src.a]));
    Rgba { r: p.0[0], g: p.0[1], b: p.0[2], a: p.0[3] }
}

/// Builds the pixel a tint colour is drawn with.
pub fn tint_of(colour: SkinColour) -> (p: Rgba)
    ensures
        p == tint_pixel(colour),
{
    Rgba { r: colour.0, g: colour.1, b: colour.2, a: TINT_ALPHA }
}

/// Blends `src` onto `dst` and restores the destination's alpha.
pub fn draw_over(dst: Rgba, src: Rgba) -> (out: Rgba)
    ensures
        out == drawn_over(dst, src),
        out.a == dst.a,
{
    let mix = blend(dst, src);
    Rgba { r: mix.r, g: mix.g, b: mix.b, a: dst.a }
}

} // verus!
