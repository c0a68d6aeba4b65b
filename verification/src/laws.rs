//! What holds of the compositor as a whole, proved over its models.

use vstd::prelude::*;
use crate::buffer::{lemma_same_view_same_bytes, RgbaImage};
use crate::compose::{
    all_wf, canvas_height, canvas_width, coloured, composite, generated, needs_halving,
    prepared_ring, rasters, sprites, DIGITS,
};
use crate::layer::{centre_offset, centred, overlaid, tinted};
use crate::pixel::{blended, drawn_over, Rgba, SkinColour, OPAQUE};
use crate::raster::{blank, lemma_index_join, Raster};
use crate::resample::AssetError;

verus! {

/// Drawing through the alpha-preserving surface never changes a pixel's
/// alpha, whatever the colour drawn and whatever its alpha.
pub proof fn lemma_draw_keeps_alpha(dst: Rgba, src: Rgba)
    ensures
        drawn_over(dst, src).a == dst.a,
{
}

/// Tinting leaves the size of an image and the alpha of each of its pixels
/// as they were.
pub proof fn lemma_tint_keeps_alpha(src: Raster, w: nat, h: nat, colour: SkinColour, i: int)
    requires
        0 <= i < src.pixels.len(),
    ensures
        tinted(src, w, h, colour).width == src.width,
        tinted(src, w, h, colour).height == src.height,
        tinted(src, w, h, colour).pixels.len() == src.pixels.len(),
        tinted(src, w, h, colour).pixels[i].a == src.pixels[i].a,
{
}

/// Tinting the circle, or leaving it untinted, keeps its size and the alpha
/// of every pixel: the silhouette is the one the circle had before.
pub proof fn lemma_coloured_keeps_alpha(circle: Raster, colour: Option<SkinColour>, i: int)
    requires
        0 <= i < circle.pixels.len(),
    ensures
        coloured(circle, colour).width == circle.width,
        coloured(circle, colour).height == circle.height,
        coloured(circle, colour).pixels.len() == circle.pixels.len(),
        coloured(circle, colour).pixels[i].a == circle.pixels[i].a,
{
}

/// Whether an asset is halved depends on the three density flags alone: it
/// is halved exactly where it is at double density and a sibling is not.
/// So with all three at double density nothing is halved, and an asset at
/// single density never is.
pub proof fn lemma_density_rule(own_hd: bool, first_sibling_hd: bool, second_sibling_hd: bool)
    ensures
        needs_halving(own_hd, first_sibling_hd, second_sibling_hd) <==> own_hd && (
        !first_sibling_hd || !second_sibling_hd),
        needs_halving(own_hd, first_sibling_hd, second_sibling_hd) == needs_halving(
            own_hd,
            second_sibling_hd,
            first_sibling_hd,
        ),
        !needs_halving(true, true, true),
        !needs_halving(false, first_sibling_hd, second_sibling_hd),
{
}

/// The pixel of a stacked image at a position of the bottom image: the
/// blend of the two pixels where the top covers the position, else the
/// bottom's pixel.
pub proof fn lemma_overlaid_pixel(bottom: Raster, top: Raster, x: int, y: int, px: int, py: int)
    requires
        bottom.wf(),
        bottom.contains(px, py),
    ensures
        overlaid(bottom, top, x, y).wf(),
        overlaid(bottom, top, x, y).pixel_at(px, py) == if top.contains(px - x, py - y) {
            blended(bottom.pixel_at(px, py), top.pixel_at(px - x, py - y))
        } else {
            bottom.pixel_at(px, py)
        },
{
    lemma_index_join(bottom.width as int, bottom.height as int, px, py);
}

/// A sprite has the size of its canvas, the larger of circle and overlay in
/// each direction, and one pixel per position.
pub proof fn lemma_composite_size(
    circle: Raster,
    overlay: Raster,
    glyph: Raster,
    overlay_above_number: bool,
)
    ensures
        composite(circle, overlay, glyph, overlay_above_number).width == canvas_width(
            circle,
            overlay,
        ),
        composite(circle, overlay, glyph, overlay_above_number).height == canvas_height(
            circle,
            overlay,
        ),
        composite(circle, overlay, glyph, overlay_above_number).wf(),
{
}

/// Where the layer that is stacked last has an opaque pixel over a
/// position of the canvas, the sprite shows that pixel there: the glyph's
/// with `overlay_above_number` set, else the overlay's.
pub proof fn lemma_last_layer_shows(
    circle: Raster,
    overlay: Raster,
    glyph: Raster,
    overlay_above_number: bool,
    px: int,
    py: int,
)
    requires
        0 <= px < canvas_width(circle, overlay),
        0 <= py < canvas_height(circle, overlay),
        ({
            let last = if overlay_above_number { glyph } else { overlay };
            let x = centre_offset(canvas_width(circle, overlay), last.width);
            let y = centre_offset(canvas_height(circle, overlay), last.height);
            last.contains(px - x, py - y) && last.pixel_at(px - x, py - y).a == OPAQUE
        }),
    ensures
        ({
            let last = if overlay_above_number { glyph } else { overlay };
            let x = centre_offset(canvas_width(circle, overlay), last.width);
            let y = centre_offset(canvas_height(circle, overlay), last.height);
            composite(circle, overlay, glyph, overlay_above_number).pixel_at(px, py)
                == last.pixel_at(px - x, py - y)
        }),
{
    let w = canvas_width(circle, overlay);
    let h = canvas_height(circle, overlay);
    let base = centred(blank(w, h), circle);
    let first = if overlay_above_number { overlay } else { glyph };
    let last = if overlay_above_number { glyph } else { overlay };
    let mid = centred(base, first);
    assert(mid.wf());
    lemma_overlaid_pixel(mid, last, centre_offset(w, last.width), centre_offset(h, last.height), px, py);
}

/// Where a layer is fully transparent over a position, or does not reach
/// it, stacking it changes nothing there.
pub proof fn lemma_transparent_layer_adds_nothing(bottom: Raster, top: Raster, px: int, py: int)
    requires
        bottom.wf(),
        bottom.contains(px, py),
        ({
            let x = centre_offset(bottom.width, top.width);
            let y = centre_offset(bottom.height, top.height);
            top.contains(px - x, py - y) ==> top.pixel_at(px - x, py - y).a == 0
        }),
    ensures
        centred(bottom, top).pixel_at(px, py) == bottom.pixel_at(px, py),
{
    lemma_overlaid_pixel(
        bottom,
        top,
        centre_offset(bottom.width, top.width),
        centre_offset(bottom.height, top.height),
        px,
        py,
    );
}

/// A run of sprites has one sprite per glyph, each of the canvas size.
pub proof fn lemma_sprites_uniform(
    circle: Raster,
    overlay: Raster,
    glyphs: Seq<Raster>,
    halve_glyph: bool,
    overlay_above_number: bool,
)
    requires
        sprites(circle, overlay, glyphs, halve_glyph, overlay_above_number) is Ok,
    ensures
        ({
            let out = sprites(circle, overlay, glyphs, halve_glyph, overlay_above_number)->Ok_0;
            &&& out.len() == glyphs.len()
            &&& forall|i: int|
                0 <= i < out.len() ==> (#[trigger] out[i]).width == canvas_width(circle, overlay)
                    && out[i].height == canvas_height(circle, overlay)
        }),
    decreases glyphs.len(),
{
    if glyphs.len() > 0 {
        lemma_sprites_uniform(circle, overlay, glyphs.drop_last(), halve_glyph, overlay_above_number);
    }
}

/// Every generation run that succeeds yields ten images of one size: in
/// each direction the larger of the prepared circle and the prepared
/// overlay.
pub proof fn lemma_output_uniform(
    circle: Raster,
    overlay: Raster,
    glyphs: Seq<Raster>,
    overlay_above_number: bool,
    colour: Option<SkinColour>,
    is_circle_hd: bool,
    is_circle_overlay_hd: bool,
    is_numbers_hd: bool,
)
    requires
        generated(
            circle,
            overlay,
            glyphs,
            overlay_above_number,
            colour,
            is_circle_hd,
            is_circle_overlay_hd,
            is_numbers_hd,
        ) is Ok,
    ensures
        ({
            let out = generated(
                circle,
                overlay,
                glyphs,
                overlay_above_number,
                colour,
                is_circle_hd,
                is_circle_overlay_hd,
                is_numbers_hd,
            )->Ok_0;
            let ring = prepared_ring(
                overlay,
                needs_halving(is_circle_overlay_hd, is_circle_hd, is_numbers_hd),
            );
            let disc = prepared_ring(
                circle,
                needs_halving(is_circle_hd, is_circle_overlay_hd, is_numbers_hd),
            );
            &&& out.len() == DIGITS
            &&& ring is Ok
            &&& disc is Ok
            &&& forall|i: int|
                0 <= i < out.len() ==> (#[trigger] out[i]).width == canvas_width(
                    disc->Ok_0,
                    ring->Ok_0,
                ) && out[i].height == canvas_height(disc->Ok_0, ring->Ok_0)
        }),
{
    let ring = prepared_ring(
        overlay,
        needs_halving(is_circle_overlay_hd, is_circle_hd, is_numbers_hd),
    )->Ok_0;
    let disc = prepared_ring(
        circle,
        needs_halving(is_circle_hd, is_circle_overlay_hd, is_numbers_hd),
    )->Ok_0;
    lemma_sprites_uniform(
        coloured(disc, colour),
        ring,
        glyphs,
        needs_halving(is_numbers_hd, is_circle_hd, is_circle_overlay_hd),
        overlay_above_number,
    );
}

/// Two runs on the same assets, flags and colour that both succeed give
/// the same images, byte for byte.
pub proof fn lemma_generation_repeatable(
    first: Seq<RgbaImage>,
    second: Seq<RgbaImage>,
    circle: Raster,
    overlay: Raster,
    glyphs: Seq<Raster>,
    overlay_above_number: bool,
    colour: Option<SkinColour>,
    is_circle_hd: bool,
    is_circle_overlay_hd: bool,
    is_numbers_hd: bool,
)
    requires
        all_wf(first),
        all_wf(second),
        generated(
            circle,
            overlay,
            glyphs,
            overlay_above_number,
            colour,
            is_circle_hd,
            is_circle_overlay_hd,
            is_numbers_hd,
        ) == Ok::<Seq<Raster>, AssetError>(rasters(first)),
        generated(
            circle,
            overlay,
            glyphs,
            overlay_above_number,
            colour,
            is_circle_hd,
            is_circle_overlay_hd,
            is_numbers_hd,
        ) == Ok::<Seq<Raster>, AssetError>(rasters(second)),
    ensures
        first.len() == second.len(),
        forall|i: int|
            0 <= i < first.len() ==> (#[trigger] first[i]).bytes() == second[i].bytes()
                && first[i]@ == second[i]@,
{
    assert(rasters(first) == rasters(second));
    assert(rasters(first).len() == first.len());
    assert(rasters(second).len() == second.len());
    assert forall|i: int| 0 <= i < first.len() implies (#[trigger] first[i]).bytes()
        == second[i].bytes() && first[i]@ == second[i]@ by {
        assert(rasters(first)[i] == first[i]@);
        assert(rasters(second)[i] == second[i]@);
        lemma_same_view_same_bytes(&first[i], &second[i]);
    }
}

} // verus!
