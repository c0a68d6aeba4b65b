//! File names of the assets of a skin, and what follows from the density
//! flags for the files that are written.

use vstd::prelude::*;

verus! {

/// Name of the circle image at single or double density.
pub open spec fn circle_name(hd: bool) -> Seq<char> {
    if hd { "hitcircle@2x.png"@ } else { "hitcircle.png"@ }
}

/// Name of the overlay image at single or double density.
pub open spec fn overlay_name(hd: bool) -> Seq<char> {
    if hd { "hitcircleoverlay@2x.png"@ } else { "hitcircleoverlay.png"@ }
}

/// The decimal digit `digit` as text; empty for anything above nine.
pub open spec fn digit_text(digit: u8) -> Seq<char> {
    if digit == 0 {
        "0"@
    } else if digit == 1 {
        "1"@
    } else if digit == 2 {
        "2"@
    } else if digit == 3 {
        "3"@
    } else if digit == 4 {
        "4"@
    } else if digit == 5 {
        "5"@
    } else if digit == 6 {
        "6"@
    } else if digit == 7 {
        "7"@
    } else if digit == 8 {
        "8"@
    } else if digit == 9 {
        "9"@
    } else {
        ""@
    }
}

/// File extension, with the density marker where `hd` holds.
pub open spec fn suffix(hd: bool) -> Seq<char> {
    if hd { "@2x.png"@ } else { ".png"@ }
}

/// Name of the glyph of `digit`: prefix, hyphen, digit, suffix.
pub open spec fn glyph_name(prefix: Seq<char>, digit: u8, hd: bool) -> Seq<char> {
    prefix + "-"@ + digit_text(digit) + suffix(hd)
}

/// The sprites are written at double density only where all three kinds of
/// asset were at double density.
pub open spec fn output_is_hd(
    is_circle_hd: bool,
    is_circle_overlay_hd: bool,
    is_numbers_hd: bool,
) -> bool {
    is_circle_hd && is_circle_overlay_hd && is_numbers_hd
}

/// The overlap of neighbouring digits that goes with sprites of width
/// `width`: the width in single-density pixels.
pub open spec fn overlap(width: u32, hd: bool) -> u32 {
    if hd { width / 2 } else { width }
}

pub fn circle_file(hd: bool) -> (name: &'static str)
    ensures
        name@ == circle_name(hd),
{
    if hd { "hitcircle@2x.png" } else { "hitcircle.png" }
}

pub fn overlay_file(hd: bool) -> (name: &'static str)
    ensures
        name@ == overlay_name(hd),
{
    if hd { "hitcircleoverlay@2x.png" } else { "hitcircleoverlay.png" }
}

/// Text of a decimal digit, or `None` for a number above nine.
pub fn digit_str(digit: u8) -> (text: Option<&'static str>)
    ensures
        text is Some <==> digit <= 9,
        text matches Some(t) ==> t@ == digit_text(digit),
{
    match digit {
        0 => Some("0"),
        1 => Some("1"),
        2 => Some("2"),
        3 => Some("3"),
        4 => Some("4"),
        5 => Some("5"),
        6 => Some("6"),
        7 => Some("7"),
        8 => Some("8"),
        9 => Some("9"),
        _ => None,
    }
}

/// File name of the glyph of `digit`, or `None` where `digit` is no digit.
pub fn glyph_file(prefix: &str, digit: u8, hd: bool) -> (name: Option<String>)
    ensures
        name is Some <==> digit <= 9,
        name matches Some(n) ==> n@ == glyph_name(prefix@, digit, hd),
{
    match digit_str(digit) {
        None => None,
        Some(text) => {
            let mut name = String::from_str(prefix);
            name.append("-");
            name.append(text);
            name.append(if hd { "@2x.png" } else { ".png" });
            Some(name)
        },
    }
}

/// Whether the sprites are written as double-density files.
pub fn writes_hd(is_circle_hd: bool, is_circle_overlay_hd: bool, is_numbers_hd: bool) -> (hd: bool)
    ensures
        hd == output_is_hd(is_circle_hd, is_circle_overlay_hd, is_numbers_hd),
{
    is_circle_hd && is_circle_overlay_hd && is_numbers_hd
}

/// The digit overlap to configure for sprites of width `width`.
pub fn hit_circle_overlap(width: u32, hd: bool) -> (n: u32)
    ensures
        n == overlap(width, hd),
{
    if hd { width / 2 } else { width }
}

} // verus!
