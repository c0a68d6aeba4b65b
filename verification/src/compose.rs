//! The compositor: density reconciliation of the three kinds of asset, the
//! cosmetic upscale of circle and overlay, and the layering of one sprite
//! per digit.

use vstd::prelude::*;
use crate::blend::MyBlend;
use crate::buffer::RgbaImage;
use crate::layer::{centred, colorize_image, overlay_centred, tinted};
use crate::pixel::SkinColour;
use crate::raster::{blank, Raster};
use crate::resample::{resize_checked, resize_error, resized, AssetError, Filter};

verus! {

/// Number of digit sprites in a set.
pub const DIGITS: usize = 10;

/// Glyph naming and stacking, as the skin configures them.
pub struct FontsConfig {
    /// Prefix of the glyph file names.
    pub prefix: String,
    /// When set, the overlay is stacked first and the glyph on top of it;
    /// else the glyph first and the overlay on top of it.
    pub overlay_above_number: bool,
}

/// An asset shipped at double density is brought back to single density
/// unless both of its siblings are at double density too.
pub open spec fn needs_halving(
    own_hd: bool,
    first_sibling_hd: bool,
    second_sibling_hd: bool,
) -> bool {
    own_hd && !(first_sibling_hd && second_sibling_hd)
}

/// A side of `n` pixels scaled by 1.25, truncated, and capped at what a
/// side can hold.
pub open spec fn upscaled_side(n: nat) -> u32 {
    if n * 5 / 4 > u32::MAX {
        u32::MAX
    } else {
        (n * 5 / 4) as u32
    }
}

/// Half of a side, truncated.
pub open spec fn halved_side(n: nat) -> u32 {
    if n / 2 > u32::MAX {
        u32::MAX
    } else {
        (n / 2) as u32
    }
}

/// Outcome of the density correction of one asset: halved with the nearest
/// neighbour filter where `halve` holds, else untouched.
pub open spec fn reconciled(src: Raster, halve: bool) -> Result<Raster, AssetError> {
    if halve {
        match resize_error(src, halved_side(src.width), halved_side(src.height)) {
            Some(e) => Err(e),
            None => Ok(
                resized(src, halved_side(src.width), halved_side(src.height), Filter::Nearest),
            ),
        }
    } else {
        Ok(src)
    }
}

/// Outcome of the cosmetic upscale by 1.25 with the smooth filter.
pub open spec fn softened(src: Raster) -> Result<Raster, AssetError> {
    match resize_error(src, upscaled_side(src.width), upscaled_side(src.height)) {
        Some(e) => Err(e),
        None => Ok(
            resized(src, upscaled_side(src.width), upscaled_side(src.height), Filter::CatmullRom),
        ),
    }
}

/// Outcome of preparing circle or overlay: density correction, then the
/// cosmetic upscale.
pub open spec fn prepared_ring(src: Raster, halve: bool) -> Result<Raster, AssetError> {
    match reconciled(src, halve) {
        Err(e) => Err(e),
        Ok(mid) => softened(mid),
    }
}

/// The circle as it is layered: tinted over its whole area where a colour
/// is given.
pub open spec fn coloured(circle: Raster, colour: Option<SkinColour>) -> Raster {
    match colour {
        Some(c) => tinted(circle, circle.width, circle.height, c),
        None => circle,
    }
}

/// Width of the canvas for a circle and an overlay.
pub open spec fn canvas_width(circle: Raster, overlay: Raster) -> nat {
    if circle.width >= overlay.width { circle.width } else { overlay.width }
}

/// Height of the canvas for a circle and an overlay.
pub open spec fn canvas_height(circle: Raster, overlay: Raster) -> nat {
    if circle.height >= overlay.height { circle.height } else { overlay.height }
}

/// Whether the canvas for a circle and an overlay can be addressed.
pub open spec fn canvas_fits(circle: Raster, overlay: Raster) -> bool {
    4 * (canvas_width(circle, overlay) as int) * (canvas_height(circle, overlay) as int)
        <= usize::MAX
}

/// One sprite: on a transparent canvas the circle, then glyph and overlay
/// in the configured order, each centred.
pub open spec fn composite(
    circle: Raster,
    overlay: Raster,
    glyph: Raster,
    overlay_above_number: bool,
) -> Raster {
    let base = centred(
        blank(canvas_width(circle, overlay), canvas_height(circle, overlay)),
        circle,
    );
    if overlay_above_number {
        centred(centred(base, overlay), glyph)
    } else {
        centred(centred(base, glyph), overlay)
    }
}

/// Outcome for one digit: its glyph is density-corrected and the sprite is
/// layered.
pub open spec fn sprite(
    circle: Raster,
    overlay: Raster,
    glyph: Raster,
    halve_glyph: bool,
    overlay_above_number: bool,
) -> Result<Raster, AssetError> {
    match reconciled(glyph, halve_glyph) {
        Err(e) => Err(e),
        Ok(g) => if canvas_fits(circle, overlay) {
            Ok(composite(circle, overlay, g, overlay_above_number))
        } else {
            Err(AssetError::TooLarge)
        },
    }
}

/// Outcome for a run of glyphs: the sprites in order, or the error of the
/// first glyph that fails.
pub open spec fn sprites(
    circle: Raster,
    overlay: Raster,
    glyphs: Seq<Raster>,
    halve_glyph: bool,
    overlay_above_number: bool,
) -> Result<Seq<Raster>, AssetError>
    decreases glyphs.len(),
{
    if glyphs.len() == 0 {
        Ok(Seq::empty())
    } else {
        match sprites(circle, overlay, glyphs.drop_last(), halve_glyph, overlay_above_number) {
            Err(e) => Err(e),
            Ok(done) => match sprite(
                circle,
                overlay,
                glyphs.last(),
                halve_glyph,
                overlay_above_number,
            ) {
                Err(e) => Err(e),
                Ok(img) => Ok(done.push(img)),
            },
        }
    }
}

/// Outcome of a whole generation run.
pub open spec fn generated(
    circle: Raster,
    overlay: Raster,
    glyphs: Seq<Raster>,
    overlay_above_number: bool,
    colour: Option<SkinColour>,
    is_circle_hd: bool,
    is_circle_overlay_hd: bool,
    is_numbers_hd: bool,
) -> Result<Seq<Raster>, AssetError> {
    if glyphs.len() != DIGITS {
        Err(AssetError::MissingGlyph)
    } else {
        match prepared_ring(overlay, needs_halving(is_circle_overlay_hd, is_circle_hd, is_numbers_hd)) {
            Err(e) => Err(e),
            Ok(ring) => match prepared_ring(
                circle,
                needs_halving(is_circle_hd, is_circle_overlay_hd, is_numbers_hd),
            ) {
                Err(e) => Err(e),
                Ok(disc) => sprites(
                    coloured(disc, colour),
                    ring,
                    glyphs,
                    needs_halving(is_numbers_hd, is_circle_hd, is_circle_overlay_hd),
                    overlay_above_number,
                ),
            },
        }
    }
}

/// The models of a sequence of images.
pub open spec fn rasters(images: Seq<RgbaImage>) -> Seq<Raster> {
    Seq::new(images.len(), |i: int| images[i]@)
}

/// Every image of a sequence is well formed.
pub open spec fn all_wf(images: Seq<RgbaImage>) -> bool {
    forall|i: int| 0 <= i < images.len() ==> (#[trigger] images[i]).wf()
}

/// Decides whether an asset has to be halved.
pub fn must_halve(own_hd: bool, first_sibling_hd: bool, second_sibling_hd: bool) -> (halve: bool)
    ensures
        halve == needs_halving(own_hd, first_sibling_hd, second_sibling_hd),
{
    own_hd && !(first_sibling_hd && second_sibling_hd)
}

/// A side scaled by 1.25.
pub fn upscale_side(n: u32) -> (m: u32)
    ensures
        m == upscaled_side(n as nat),
{
    let wide: u64 = (n as u64) * 5 / 4;
    if wide > u32::MAX as u64 {
        u32::MAX
    } else {
        wide as u32
    }
}

/// Halves a double-density image with the nearest neighbour filter.
pub fn halve(img: &RgbaImage) -> (r: Result<RgbaImage, AssetError>)
    requires
        img.wf(),
    ensures
        match r {
            Ok(out) => out.wf() && reconciled(img@, true) == Ok::<Raster, AssetError>(out@),
            Err(e) => reconciled(img@, true) == Err::<Raster, AssetError>(e),
        },
{
    resize_checked(img, img.width() / 2, img.height() / 2, Filter::Nearest)
}

/// Prepares circle or overlay: density correction where `halve_first`
/// holds, then the cosmetic upscale by 1.25.
pub fn prepare_ring(img: &RgbaImage, halve_first: bool) -> (r: Result<RgbaImage, AssetError>)
    requires
        img.wf(),
    ensures
        match r {
            Ok(out) => out.wf() && prepared_ring(img@, halve_first) == Ok::<Raster, AssetError>(
                out@,
            ),
            Err(e) => prepared_ring(img@, halve_first) == Err::<Raster, AssetError>(e),
        },
{
    if halve_first {
        match halve(img) {
            Err(e) => Err(e),
            Ok(mid) => {
                let nw = upscale_side(mid.width());
                let nh = upscale_side(mid.height());
                resize_checked(&mid, nw, nh, Filter::CatmullRom)
            },
        }
    } else {
        let nw = upscale_side(img.width());
        let nh = upscale_side(img.height());
        resize_checked(img, nw, nh, Filter::CatmullRom)
    }
}

/// Layers one sprite from the prepared circle, overlay and glyph.
pub fn compose_digit(
    circle: &RgbaImage,
    overlay: &RgbaImage,
    glyph: &RgbaImage,
    overlay_above_number: bool,
) -> (r: Result<RgbaImage, AssetError>)
    requires
        circle.wf(),
        overlay.wf(),
        glyph.wf(),
    ensures
        match r {
            Ok(out) => canvas_fits(circle@, overlay@) && out.wf() && out@ == composite(
                circle@,
                overlay@,
                glyph@,
                overlay_above_number,
            ),
            Err(e) => !canvas_fits(circle@, overlay@) && e == AssetError::TooLarge,
        },
{
    let w: u32 = if circle.width() >= overlay.width() { circle.width() } else { overlay.width() };
    let h: u32 = if circle.height() >= overlay.height() { circle.height() } else { overlay.height() };
    match RgbaImage::new(w, h) {
        None => Err(AssetError::TooLarge),
        Some(canvas) => {
            let mut canvas = canvas;
            overlay_centred(&mut canvas, circle);
            if overlay_above_number {
                overlay_centred(&mut canvas, overlay);
                overlay_centred(&mut canvas, glyph);
            } else {
                overlay_centred(&mut canvas, glyph);
                overlay_centred(&mut canvas, overlay);
            }
            Ok(canvas)
        },
    }
}

/// Makes the sprite of one digit from the prepared circle and overlay and
/// the digit's glyph as it was loaded.
pub fn make_sprite(
    circle: &RgbaImage,
    overlay: &RgbaImage,
    glyph: &RgbaImage,
    halve_glyph: bool,
    overlay_above_number: bool,
) -> (r: Result<RgbaImage, AssetError>)
    requires
        circle.wf(),
        overlay.wf(),
        glyph.wf(),
    ensures
        match r {
            Ok(out) => out.wf() && sprite(
                circle@,
                overlay@,
                glyph@,
                halve_glyph,
                overlay_above_number,
            ) == Ok::<Raster, AssetError>(out@),
            Err(e) => sprite(circle@, overlay@, glyph@, halve_glyph, overlay_above_number)
                == Err::<Raster, AssetError>(e),
        },
{
    if halve_glyph {
        match halve(glyph) {
            Err(e) => Err(e),
            Ok(small) => compose_digit(circle, overlay, &small, overlay_above_number),
        }
    } else {
        compose_digit(circle, overlay, glyph, overlay_above_number)
    }
}

/// Once a glyph has failed, the outcome of any longer run is that failure.
pub proof fn lemma_failure_stays(
    circle: Raster,
    overlay: Raster,
    glyphs: Seq<Raster>,
    halve_glyph: bool,
    overlay_above_number: bool,
    n: int,
)
    requires
        0 <= n <= glyphs.len(),
        sprites(circle, overlay, glyphs.take(n), halve_glyph, overlay_above_number) is Err,
    ensures
        sprites(circle, overlay, glyphs, halve_glyph, overlay_above_number) == sprites(
            circle,
            overlay,
            glyphs.take(n),
            halve_glyph,
            overlay_above_number,
        ),
    decreases glyphs.len(),
{
    if n == glyphs.len() {
        assert(glyphs.take(n) =~= glyphs);
    } else {
        assert(glyphs.drop_last().take(n) =~= glyphs.take(n));
        lemma_failure_stays(circle, overlay, glyphs.drop_last(), halve_glyph, overlay_above_number, n);
    }
}

/// Produces the ten digit sprites from the assets as they were loaded: the
/// circle and the overlay are density-corrected and upscaled, the circle is
/// tinted where a colour is given, and for each digit the glyph is
/// density-corrected and the three are layered.
pub fn generate_images(
    circle: &RgbaImage,
    overlay: &RgbaImage,
    glyphs: &Vec<RgbaImage>,
    fonts_config: &FontsConfig,
    colour: Option<SkinColour>,
    is_circle_hd: bool,
    is_circle_overlay_hd: bool,
    is_numbers_hd: bool,
) -> (r: Result<Vec<RgbaImage>, AssetError>)
    requires
        circle.wf(),
        overlay.wf(),
        all_wf(glyphs@),
    ensures
        match r {
            Ok(images) => all_wf(images@) && images@.len() == DIGITS && generated(
                circle@,
                overlay@,
                rasters(glyphs@),
                fonts_config.overlay_above_number,
                colour,
                is_circle_hd,
                is_circle_overlay_hd,
                is_numbers_hd,
            ) == Ok::<Seq<Raster>, AssetError>(rasters(images@)),
            Err(e) => generated(
                circle@,
                overlay@,
                rasters(glyphs@),
                fonts_config.overlay_above_number,
                colour,
                is_circle_hd,
                is_circle_overlay_hd,
                is_numbers_hd,
            ) == Err::<Seq<Raster>, AssetError>(e),
        },
{
    if glyphs.len() != DIGITS {
        return Err(AssetError::MissingGlyph);
    }
    let ring = match prepare_ring(overlay, must_halve(is_circle_overlay_hd, is_circle_hd, is_numbers_hd)) {
        Err(e) => { return Err(e); },
        Ok(ring) => ring,
    };
    let disc = match prepare_ring(circle, must_halve(is_circle_hd, is_circle_overlay_hd, is_numbers_hd)) {
        Err(e) => { return Err(e); },
        Ok(disc) => disc,
    };
    let ghost plain = disc@;
    let (hcw, hch) = disc.dimensions();
    let mut surface = MyBlend(disc);
    if let Some(c) = colour {
        colorize_image(&mut surface, hcw, hch, c);
    }
    let disc = surface.0;
    assert(disc@ == coloured(plain, colour));
    let halve_glyph = must_halve(is_numbers_hd, is_circle_hd, is_circle_overlay_hd);
    let above = fonts_config.overlay_above_number;
    let ghost all = rasters(glyphs@);
    let mut images: Vec<RgbaImage> = Vec::new();
    let mut i: usize = 0;
    proof {
        assert(generated(
                circle@,
                overlay@,
                all,
                fonts_config.overlay_above_number,
                colour,
                is_circle_hd,
                is_circle_overlay_hd,
                is_numbers_hd,
            ) == sprites(disc@, ring@, all, halve_glyph, above));
        assert(all.take(0).len() == 0);
        assert(rasters(images@) =~= Seq::<Raster>::empty());
    }
    while i < DIGITS
        invariant
            i <= DIGITS,
            glyphs@.len() == DIGITS,
            all == rasters(glyphs@),
            all_wf(glyphs@),
            generated(
                circle@,
                overlay@,
                all,
                fonts_config.overlay_above_number,
                colour,
                is_circle_hd,
                is_circle_overlay_hd,
                is_numbers_hd,
            ) == sprites(disc@, ring@, all, halve_glyph, above),
            disc.wf(),
            ring.wf(),
            all_wf(images@),
            images@.len() == i,
            sprites(disc@, ring@, all.take(i as int), halve_glyph, above) == Ok::<
                Seq<Raster>,
                AssetError,
            >(rasters(images@)),
        decreases DIGITS - i,
    {
        let ghost done = rasters(images@);
        proof {
            assert(all.take(i + 1).drop_last() =~= all.take(i as int));
            assert(all.take(i + 1).last() == glyphs@[i as int]@);
        }
        match make_sprite(&disc, &ring, &glyphs[i], halve_glyph, above) {
            Err(e) => {
                proof {
                    assert(sprites(disc@, ring@, all.take(i + 1), halve_glyph, above)
                        == Err::<Seq<Raster>, AssetError>(e));
                    lemma_failure_stays(disc@, ring@, all, halve_glyph, above, i + 1);
                }
                return Err(e);
            },
            Ok(img) => {
                images.push(img);
                proof {
                    assert(rasters(images@) =~= done.push(img@));
                    assert(sprites(disc@, ring@, all.take(i + 1), halve_glyph, above)
                        == Ok::<Seq<Raster>, AssetError>(done.push(img@)));
                }
            },
        }
        i = i + 1;
    }
    proof {
        assert(all.take(DIGITS as int) =~= all);
    }
    Ok(images)
}

} // verus!
