//! Resampling an image to new bounds, with the limits under which it can
//! be done.

use vstd::prelude::*;
use crate::buffer::RgbaImage;
use crate::raster::Raster;

verus! {

/// How pixels are sampled when an image changes size.
#[derive(Clone, Copy, Debug, PartialEq, Eq, Structural)]
pub enum Filter {
    /// Nearest neighbour: fast, no smoothing.
    Nearest,
    /// Catmull-Rom cubic: smooth.
    CatmullRom,
}

/// Why a set of assets cannot be turned into sprites.
#[derive(Clone, Copy, Debug, PartialEq, Eq, Structural)]
pub enum AssetError {
    /// An image that has to be resampled has no pixels.
    EmptyImage,
    /// An image would need more memory than the machine can address.
    TooLarge,
    /// There is not exactly one glyph for each digit.
    MissingGlyph,
}

/// The image that `image`'s `DynamicImage::resize` makes of `src` for the
/// bounds `nwidth` by `nheight`, where the bounds differ from the size of
/// `src`. The crate keeps the aspect ratio and resamples in floating point;
/// the result depends on these four values alone.
pub uninterp spec fn resampled(src: Raster, nwidth: u32, nheight: u32, filter: Filter) -> Raster;

/// `src` resized to fit the bounds: itself where it already has that size,
/// else resampled.
pub open spec fn resized(src: Raster, nwidth: u32, nheight: u32, filter: Filter) -> Raster {
    if nwidth == src.width && nheight == src.height {
        src
    } else {
        resampled(src, nwidth, nheight, filter)
    }
}

/// Whether the buffers that resampling an image of width `width` to the
/// bounds allocates can be addressed: an intermediate one of `width`
/// columns with four 32-bit channels per pixel, and the result.
pub open spec fn resize_fits(width: nat, nwidth: u32, nheight: u32) -> bool {
    let nw: int = if nwidth == 0 { 1 } else { nwidth as int };
    let nh: int = if nheight == 0 { 1 } else { nheight as int };
    16 * (width * nh) <= isize::MAX && 4 * (nw * nh) <= isize::MAX
}

/// The error, if any, that stops `src` from being resized to the bounds.
pub open spec fn resize_error(src: Raster, nwidth: u32, nheight: u32) -> Option<AssetError> {
    if src.width == 0 || src.height == 0 {
        Some(AssetError::EmptyImage)
    } else if !resize_fits(src.width, nwidth, nheight) {
        Some(AssetError::TooLarge)
    } else {
        None
    }
}

/// Calls `image::DynamicImage::resize` on an RGBA image. The call hands back
/// a copy where the bounds equal the image's size, and else a resampled
/// image that is only named here; either way the result has at least one
/// row and one column and four bytes per pixel. The `requires` keeps out
/// what makes the crate panic: an image without pixels, and buffers whose
/// length overflows.
#[verifier::external_body]
pub(crate) fn resize(img: &RgbaImage, nwidth: u32, nheight: u32, filter: Filter) -> (out: RgbaImage)
    requires
        img.wf(),
        img@.width > 0,
        img@.height > 0,
        resize_fits(img@.width, nwidth, nheight),
    ensures
        out.wf(),
        out@.width >= 1,
        out@.height >= 1,
        nwidth == img@.width && nheight == img@.height ==> out@ == img@,
        !(nwidth == img@.width && nheight == img@.height) ==> out@ == resampled(
            img@,
            nwidth,
            nheight,
            filter,
        ),
{
    let f = match filter {
        Filter::Nearest => image::imageops::FilterType::Nearest,
        Filter::CatmullRom => image::imageops::FilterType::CatmullRom,
    };
    let buf = image::RgbaImage::from_raw(img.width, img.height, img.data.clone()).unwrap();
    let res = image::DynamicImage::ImageRgba8(buf).resize(nwidth, nheight, f).into_rgba8();
    RgbaImage { width: res.width(), height: res.height(), data: res.into_raw() }
}

/// Decides whether resampling to the bounds stays within memory.
pub fn check_resize_fits(width: u32, nwidth: u32, nheight: u32) -> (ok: bool)
    ensures
        ok == resize_fits(width as nat, nwidth, nheight),
{
    let nw: u64 = if nwidth == 0 { 1 } else { nwidth as u64 };
    let nh: u64 = if nheight == 0 { 1 } else { nheight as u64 };
    proof {
        crate::buffer::lemma_area_bound(width as int, nh as int);
        crate::buffer::lemma_area_bound(nw as int, nh as int);
    }
    let tmp: u64 = (width as u64) * nh;
    let res: u64 = nw * nh;
    16u128 * (tmp as u128) <= isize::MAX as u128 && 4u128 * (res as u128) <= isize::MAX as u128
}

/// Resizes `img` to fit the bounds, or says why it cannot be done.
pub fn resize_checked(img: &RgbaImage, nwidth: u32, nheight: u32, filter: Filter) -> (r: Result<
    RgbaImage,
    AssetError,
>)
    requires
        img.wf(),
    ensures
        match r {
            Ok(out) => resize_error(img@, nwidth, nheight) is None && out.wf() && out@ == resized(
                img@,
                nwidth,
                nheight,
                filter,
            ) && out@.width >= 1 && out@.height >= 1,
            Err(e) => resize_error(img@, nwidth, nheight) == Some(e),
        },
{
    if img.width() == 0 || img.height() == 0 {
        return Err(AssetError::EmptyImage);
    }
    if !check_resize_fits(img.width(), nwidth, nheight) {
        return Err(AssetError::TooLarge);
    }
    Ok(resize(img, nwidth, nheight, filter))
}

} // verus!
