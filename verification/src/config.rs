//! What a skin's configuration means for a generation run: glyph naming
//! and stacking, and the combo colours on offer.

use vstd::prelude::*;
use crate::compose::FontsConfig;
use crate::pixel::SkinColour;

verus! {

/// Glyph prefix of a skin that names none.
pub open spec fn default_prefix() -> Seq<char> {
    "default"@
}

/// The combo colours of a skin that names none.
pub open spec fn default_palette() -> Seq<SkinColour> {
    seq![(255u8, 192u8, 0u8), (0u8, 202u8, 0u8), (18u8, 124u8, 255u8), (242u8, 24u8, 57u8)]
}

/// The colour written back for a run without a tint.
pub open spec fn untinted() -> SkinColour {
    (255u8, 255u8, 255u8)
}

/// Whether `text` is the single character `1`.
pub fn is_one(text: &str) -> (yes: bool)
    ensures
        yes == (text@ == seq!['1']),
{
    if text.unicode_len() == 1 {
        let c = text.get_char(0);
        proof {
            if c == '1' {
                assert(text@ =~= seq!['1']);
            }
        }
        c == '1'
    } else {
        false
    }
}

/// Reads the fonts section of a skin. Without a section the prefix is the
/// default one and the stacking flag is set; with a section a missing
/// prefix is the default one, and the flag is set only where its entry is
/// the text `1`.
pub fn fonts_config(
    has_section: bool,
    prefix: Option<String>,
    overlay_above_number: Option<&str>,
) -> (cfg: FontsConfig)
    ensures
        cfg.prefix@ == (if has_section && prefix is Some {
            prefix->Some_0@
        } else {
            default_prefix()
        }),
        cfg.overlay_above_number == (if !has_section {
            true
        } else if overlay_above_number is Some {
            overlay_above_number->Some_0@ == seq!['1']
        } else {
            false
        }),
{
    if !has_section {
        return FontsConfig { prefix: String::from_str("default"), overlay_above_number: true };
    }
    let name = match prefix {
        Some(p) => p,
        None => String::from_str("default"),
    };
    let above = match overlay_above_number {
        Some(text) => is_one(text),
        None => false,
    };
    FontsConfig { prefix: name, overlay_above_number: above }
}

/// The four colours offered where a skin configures none.
pub fn default_colours() -> (palette: Vec<SkinColour>)
    ensures
        palette@ == default_palette(),
{
    let mut palette: Vec<SkinColour> = Vec::new();
    palette.push((255, 192, 0));
    palette.push((0, 202, 0));
    palette.push((18, 124, 255));
    palette.push((242, 24, 57));
    proof {
        assert(palette@ =~= default_palette());
    }
    palette
}

/// The colours on offer: those the skin configures, or the default ones
/// where it configures none.
pub fn colours_or_default(configured: Vec<SkinColour>) -> (palette: Vec<SkinColour>)
    ensures
        palette@ == (if configured@.len() > 0 { configured@ } else { default_palette() }),
{
    if configured.len() > 0 {
        configured
    } else {
        default_colours()
    }
}

/// The tint that a selection stands for: entry 0 of the menu is "no tint",
/// entry `n` is colour `n - 1`.
pub fn chosen_colour(palette: &Vec<SkinColour>, selection: usize) -> (colour: Option<SkinColour>)
    requires
        selection <= palette@.len(),
    ensures
        selection == 0 ==> colour is None,
        selection > 0 ==> colour == Some(palette@[selection - 1]),
{
    if selection == 0 {
        None
    } else {
        Some(palette[selection - 1])
    }
}

/// The colour that is written back to the skin's configuration.
pub fn written_colour(colour: Option<SkinColour>) -> (c: SkinColour)
    ensures
        c == (match colour {
            Some(t) => t,
            None => untinted(),
        }),
{
    match colour {
        Some(t) => t,
        None => (255, 255, 255),
    }
}

} // verus!
