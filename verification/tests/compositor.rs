use instafade::buffer::RgbaImage;
use instafade::compose::{
    compose_digit, generate_images, halve, make_sprite, must_halve, prepare_ring, upscale_side,
    FontsConfig, DIGITS,
};
use instafade::layer::overlay_centred;
use instafade::names::{
    circle_file, digit_str, glyph_file, hit_circle_overlap, overlay_file, writes_hd,
};
use instafade::pixel::Rgba;
use instafade::resample::{check_resize_fits, resize_checked, AssetError, Filter};

const RED: Rgba = Rgba { r: 255, g: 0, b: 0, a: 255 };
const GREEN: Rgba = Rgba { r: 0, g: 255, b: 0, a: 255 };
const BLUE: Rgba = Rgba { r: 0, g: 0, b: 255, a: 255 };
const CLEAR: Rgba = Rgba { r: 0, g: 0, b: 0, a: 0 };

fn filled(w: u32, h: u32, p: Rgba) -> RgbaImage {
    let mut img = RgbaImage::new(w, h).unwrap();
    for y in 0..h {
        for x in 0..w {
            img.put_pixel(x, y, p);
        }
    }
    img
}

fn glyphs(n: usize, side: u32, p: Rgba) -> Vec<RgbaImage> {
    (0..n).map(|_| filled(side, side, p)).collect()
}

fn config(overlay_above_number: bool) -> FontsConfig {
    FontsConfig { prefix: "default".to_string(), overlay_above_number }
}

fn close(a: Rgba, b: Rgba) -> bool {
    (a.r as i32 - b.r as i32).abs() <= 1
        && (a.g as i32 - b.g as i32).abs() <= 1
        && (a.b as i32 - b.b as i32).abs() <= 1
        && (a.a as i32 - b.a as i32).abs() <= 1
}

#[test]
fn halving_rule_for_all_flag_combinations() {
    for own in [false, true] {
        for a in [false, true] {
            for b in [false, true] {
                assert_eq!(must_halve(own, a, b), own && !(a && b));
            }
        }
    }
    assert!(!must_halve(true, true, true));
    assert!(must_halve(true, true, false));
    assert!(must_halve(true, false, true));
    assert!(!must_halve(false, false, false));
}

#[test]
fn upscale_side_values() {
    assert_eq!(upscale_side(0), 0);
    assert_eq!(upscale_side(1), 1);
    assert_eq!(upscale_side(3), 3);
    assert_eq!(upscale_side(4), 5);
    assert_eq!(upscale_side(64), 80);
    assert_eq!(upscale_side(96), 120);
    assert_eq!(upscale_side(128), 160);
    assert_eq!(upscale_side(u32::MAX), u32::MAX);
}

#[test]
fn resize_checked_same_size_is_a_copy() {
    let mut img = filled(3, 2, RED);
    img.put_pixel(1, 1, BLUE);
    let out = resize_checked(&img, 3, 2, Filter::CatmullRom).unwrap();
    assert_eq!(out.dimensions(), (3, 2));
    assert_eq!(out.into_raw(), img.into_raw());
}

#[test]
fn resize_checked_nearest_halves() {
    let img = filled(8, 6, GREEN);
    let out = resize_checked(&img, 4, 3, Filter::Nearest).unwrap();
    assert_eq!(out.dimensions(), (4, 3));
    for y in 0..3 {
        for x in 0..4 {
            assert_eq!(out.get_pixel(x, y), GREEN);
        }
    }
}

#[test]
fn resize_checked_keeps_the_aspect_ratio() {
    let img = filled(8, 4, GREEN);
    let out = resize_checked(&img, 4, 4, Filter::Nearest).unwrap();
    assert_eq!(out.dimensions(), (4, 2));
}

#[test]
fn resize_checked_never_gives_an_empty_image() {
    let img = filled(1, 1, GREEN);
    let out = resize_checked(&img, 0, 0, Filter::Nearest).unwrap();
    assert_eq!(out.dimensions(), (1, 1));
}

#[test]
fn resize_checked_rejects_an_empty_image() {
    let img = RgbaImage::new(0, 5).unwrap();
    assert_eq!(resize_checked(&img, 4, 4, Filter::Nearest).err(), Some(AssetError::EmptyImage));
    let img = RgbaImage::new(5, 0).unwrap();
    assert_eq!(resize_checked(&img, 4, 4, Filter::CatmullRom).err(), Some(AssetError::EmptyImage));
}

#[test]
fn resize_checked_rejects_what_cannot_be_addressed() {
    let img = filled(1, 1, GREEN);
    assert_eq!(
        resize_checked(&img, u32::MAX, u32::MAX, Filter::Nearest).err(),
        Some(AssetError::TooLarge)
    );
    assert!(!check_resize_fits(1, u32::MAX, u32::MAX));
    assert!(check_resize_fits(64, 80, 80));
}

#[test]
fn halve_gives_half_the_size() {
    let out = halve(&filled(128, 64, RED)).unwrap();
    assert_eq!(out.dimensions(), (64, 32));
    assert_eq!(out.get_pixel(10, 10), RED);
}

#[test]
fn prepare_ring_sizes() {
    assert_eq!(prepare_ring(&filled(64, 64, RED), false).unwrap().dimensions(), (80, 80));
    assert_eq!(prepare_ring(&filled(128, 128, RED), true).unwrap().dimensions(), (80, 80));
    assert_eq!(prepare_ring(&filled(128, 128, RED), false).unwrap().dimensions(), (160, 160));
    assert_eq!(
        prepare_ring(&RgbaImage::new(0, 0).unwrap(), false).err(),
        Some(AssetError::EmptyImage)
    );
}

#[test]
fn centring_truncates_both_halves() {
    // canvas 5, layer 2: 5/2 - 2/2 = 1
    let mut canvas = RgbaImage::new(5, 5).unwrap();
    overlay_centred(&mut canvas, &filled(2, 2, RED));
    for y in 0..5 {
        for x in 0..5 {
            let inside = (1..3).contains(&x) && (1..3).contains(&y);
            assert_eq!(canvas.get_pixel(x, y), if inside { RED } else { CLEAR });
        }
    }
    // canvas 4, layer 3: 4/2 - 3/2 = 1
    let mut canvas = RgbaImage::new(4, 4).unwrap();
    overlay_centred(&mut canvas, &filled(3, 3, BLUE));
    for y in 0..4 {
        for x in 0..4 {
            let inside = (1..4).contains(&x) && (1..4).contains(&y);
            assert_eq!(canvas.get_pixel(x, y), if inside { BLUE } else { CLEAR });
        }
    }
}

#[test]
fn a_layer_larger_than_the_canvas_is_clipped() {
    let mut top = filled(6, 2, RED);
    top.put_pixel(2, 0, BLUE);
    let mut canvas = RgbaImage::new(2, 4).unwrap();
    // offsets: 2/2 - 6/2 = -2 and 4/2 - 2/2 = 1
    overlay_centred(&mut canvas, &top);
    assert_eq!(canvas.get_pixel(0, 0), CLEAR);
    assert_eq!(canvas.get_pixel(0, 1), BLUE);
    assert_eq!(canvas.get_pixel(1, 1), RED);
    assert_eq!(canvas.get_pixel(0, 2), RED);
    assert_eq!(canvas.get_pixel(1, 3), CLEAR);
}

#[test]
fn layer_order_follows_the_flag() {
    let circle = filled(8, 8, RED);
    let overlay = filled(8, 8, CLEAR);
    let mut overlay = overlay;
    overlay.put_pixel(4, 4, GREEN);
    overlay.put_pixel(0, 0, GREEN);
    let mut glyph = filled(2, 2, CLEAR);
    // the glyph sits at (3,3)-(5,5): its pixel (1,1) lies over (4,4)
    glyph.put_pixel(1, 1, BLUE);
    glyph.put_pixel(0, 0, BLUE);

    let glyph_last = compose_digit(&circle, &overlay, &glyph, true).unwrap();
    assert_eq!(glyph_last.get_pixel(4, 4), BLUE);
    assert_eq!(glyph_last.get_pixel(3, 3), BLUE);
    assert_eq!(glyph_last.get_pixel(0, 0), GREEN);
    assert_eq!(glyph_last.get_pixel(5, 5), RED);

    let overlay_last = compose_digit(&circle, &overlay, &glyph, false).unwrap();
    assert_eq!(overlay_last.get_pixel(4, 4), GREEN);
    assert_eq!(overlay_last.get_pixel(3, 3), BLUE);
    assert_eq!(overlay_last.get_pixel(0, 0), GREEN);
    assert_eq!(overlay_last.get_pixel(5, 5), RED);
}

#[test]
fn compose_digit_layers_on_the_larger_canvas() {
    let circle = filled(64, 64, RED);
    let overlay = filled(96, 96, CLEAR);
    let glyph = filled(32, 32, BLUE);
    let out = compose_digit(&circle, &overlay, &glyph, false).unwrap();
    assert_eq!(out.dimensions(), (96, 96));
    for y in 0..96 {
        for x in 0..96 {
            let in_glyph = (32..64).contains(&x) && (32..64).contains(&y);
            let in_circle = (16..80).contains(&x) && (16..80).contains(&y);
            let want = if in_glyph { BLUE } else if in_circle { RED } else { CLEAR };
            assert_eq!(out.get_pixel(x, y), want);
        }
    }
}

#[test]
fn compose_digit_uses_the_larger_side_in_each_direction() {
    let out = compose_digit(&filled(10, 2, RED), &filled(4, 6, GREEN), &filled(1, 1, BLUE), true).unwrap();
    assert_eq!(out.dimensions(), (10, 6));
}

#[test]
fn make_sprite_halves_the_glyph_when_asked() {
    let circle = filled(16, 16, RED);
    let overlay = filled(16, 16, CLEAR);
    let glyph = filled(8, 8, BLUE);
    let whole = make_sprite(&circle, &overlay, &glyph, false, true).unwrap();
    assert_eq!(whole.get_pixel(4, 4), BLUE);
    assert_eq!(whole.get_pixel(3, 3), RED);
    let halved = make_sprite(&circle, &overlay, &glyph, true, true).unwrap();
    assert_eq!(halved.get_pixel(4, 4), RED);
    assert_eq!(halved.get_pixel(6, 6), BLUE);
    assert_eq!(halved.get_pixel(9, 9), BLUE);
    assert_eq!(halved.get_pixel(10, 10), RED);
}

#[test]
fn final_sizes_for_all_flag_combinations() {
    for circle_hd in [false, true] {
        for overlay_hd in [false, true] {
            for numbers_hd in [false, true] {
                let circle = filled(if circle_hd { 128 } else { 64 }, if circle_hd { 128 } else { 64 }, RED);
                let overlay = filled(if overlay_hd { 192 } else { 96 }, if overlay_hd { 192 } else { 96 }, CLEAR);
                let side = if numbers_hd { 64 } else { 32 };
                let all = circle_hd && overlay_hd && numbers_hd;
                let out = generate_images(
                    &circle,
                    &overlay,
                    &glyphs(10, side, BLUE),
                    &config(true),
                    None,
                    circle_hd,
                    overlay_hd,
                    numbers_hd,
                )
                .unwrap();
                // the overlay is the larger asset: 96 * 1.25 = 120, or 192 * 1.25 = 240 where
                // it is neither halved nor shipped at single density
                let overlay_kept = overlay_hd && circle_hd && numbers_hd;
                let canvas = if overlay_kept { 240 } else { 120 };
                // the circle and the glyph, by the same rule
                let circle_side = if circle_hd && overlay_hd && numbers_hd { 160 } else { 80 };
                let glyph_side = if numbers_hd && circle_hd && overlay_hd { 64 } else { 32 };
                assert_eq!(all, overlay_kept);
                assert_eq!(out.len(), 10);
                for img in out.iter() {
                    assert_eq!(img.dimensions(), (canvas, canvas));
                    let g0 = canvas / 2 - glyph_side / 2;
                    let c0 = canvas / 2 - circle_side / 2;
                    assert_eq!(img.get_pixel(g0, g0), BLUE);
                    assert_eq!(img.get_pixel(g0 + glyph_side - 1, g0 + glyph_side - 1), BLUE);
                    assert!(close(img.get_pixel(g0 - 1, g0 - 1), RED));
                    assert!(close(img.get_pixel(g0 + glyph_side, g0 + glyph_side), RED));
                    assert!(close(img.get_pixel(c0 + 2, c0 + 2), RED));
                    assert_eq!(img.get_pixel(c0 - 3, c0 - 3).a, 0);
                }
            }
        }
    }
}

#[test]
fn mixed_density_sizes() {
    // circle at double density alone: halved to 50, then 62; overlay 40, then 50
    let out = generate_images(
        &filled(100, 100, RED),
        &filled(40, 40, GREEN),
        &glyphs(10, 4, BLUE),
        &config(false),
        None,
        true,
        false,
        false,
    )
    .unwrap();
    for img in out.iter() {
        assert_eq!(img.dimensions(), (62, 62));
    }
}

#[test]
fn all_ten_images_have_the_canvas_size() {
    let many: Vec<RgbaImage> = (0..10u32).map(|i| filled(3 + i, 20 - i, BLUE)).collect();
    let out = generate_images(
        &filled(40, 20, RED),
        &filled(16, 48, GREEN),
        &many,
        &config(true),
        Some((18, 124, 255)),
        false,
        false,
        false,
    )
    .unwrap();
    assert_eq!(out.len(), DIGITS);
    for img in out.iter() {
        assert_eq!(img.dimensions(), (50, 60));
    }
}

#[test]
fn end_to_end_scenario() {
    let out = generate_images(
        &filled(64, 64, RED),
        &filled(96, 96, CLEAR),
        &glyphs(10, 32, BLUE),
        &config(false),
        Some((0, 255, 0)),
        false,
        false,
        false,
    )
    .unwrap();
    assert_eq!(out.len(), 10);
    // red under a green tint of alpha 100: 255 * 155/255 = 155 and 255 * 100/255 = 100
    let tinted = Rgba { r: 155, g: 100, b: 0, a: 255 };
    for img in out.iter() {
        assert_eq!(img.dimensions(), (120, 120));
        for y in 0..120 {
            for x in 0..120 {
                let got = img.get_pixel(x, y);
                let in_glyph = (44..76).contains(&x) && (44..76).contains(&y);
                let in_circle = (20..100).contains(&x) && (20..100).contains(&y);
                if in_glyph {
                    assert_eq!(got, BLUE);
                } else if in_circle {
                    assert!(close(got, tinted), "{:?} at {}, {}", got, x, y);
                    assert_eq!(got.a, 255);
                } else {
                    assert_eq!(got.a, 0);
                }
            }
        }
    }
}

#[test]
fn no_tint_leaves_the_circle_as_it_is() {
    let out = generate_images(
        &filled(64, 64, RED),
        &filled(64, 64, CLEAR),
        &glyphs(10, 2, BLUE),
        &config(false),
        None,
        false,
        false,
        false,
    )
    .unwrap();
    assert!(close(out[3].get_pixel(10, 10), RED));
}

#[test]
fn two_runs_give_the_same_bytes() {
    let run = || {
        let mut circle = filled(33, 31, RED);
        circle.put_pixel(5, 7, Rgba { r: 9, g: 99, b: 199, a: 120 });
        let mut overlay = filled(41, 40, CLEAR);
        overlay.put_pixel(20, 20, Rgba { r: 250, g: 240, b: 230, a: 77 });
        generate_images(
            &circle,
            &overlay,
            &glyphs(10, 9, Rgba { r: 1, g: 2, b: 3, a: 200 }),
            &config(true),
            Some((242, 24, 57)),
            true,
            true,
            false,
        )
        .unwrap()
    };
    let first: Vec<Vec<u8>> = run().into_iter().map(|i| i.into_raw()).collect();
    let second: Vec<Vec<u8>> = run().into_iter().map(|i| i.into_raw()).collect();
    assert_eq!(first, second);
}

#[test]
fn a_missing_glyph_fails_the_run() {
    let r = generate_images(
        &filled(4, 4, RED),
        &filled(4, 4, CLEAR),
        &glyphs(9, 2, BLUE),
        &config(false),
        None,
        false,
        false,
        false,
    );
    assert_eq!(r.err(), Some(AssetError::MissingGlyph));
    let r = generate_images(
        &filled(4, 4, RED),
        &filled(4, 4, CLEAR),
        &glyphs(11, 2, BLUE),
        &config(false),
        None,
        false,
        false,
        false,
    );
    assert_eq!(r.err(), Some(AssetError::MissingGlyph));
}

#[test]
fn an_empty_asset_fails_the_run() {
    let r = generate_images(
        &RgbaImage::new(0, 0).unwrap(),
        &filled(4, 4, CLEAR),
        &glyphs(10, 2, BLUE),
        &config(false),
        None,
        false,
        false,
        false,
    );
    assert_eq!(r.err(), Some(AssetError::EmptyImage));
    let mut some_empty = glyphs(10, 2, BLUE);
    some_empty[7] = RgbaImage::new(0, 3).unwrap();
    let r = generate_images(
        &filled(4, 4, RED),
        &filled(4, 4, CLEAR),
        &some_empty,
        &config(false),
        None,
        false,
        false,
        true,
    );
    assert_eq!(r.err(), Some(AssetError::EmptyImage));
}

#[test]
fn asset_file_names() {
    assert_eq!(circle_file(false), "hitcircle.png");
    assert_eq!(circle_file(true), "hitcircle@2x.png");
    assert_eq!(overlay_file(false), "hitcircleoverlay.png");
    assert_eq!(overlay_file(true), "hitcircleoverlay@2x.png");
    assert_eq!(glyph_file("default", 0, false), Some("default-0.png".to_string()));
    assert_eq!(glyph_file("default", 3, true), Some("default-3@2x.png".to_string()));
    assert_eq!(glyph_file("fonts/score", 9, false), Some("fonts/score-9.png".to_string()));
    assert_eq!(glyph_file("default", 10, false), None);
    assert_eq!(digit_str(7), Some("7"));
    assert_eq!(digit_str(10), None);
}

#[test]
fn output_density_and_overlap() {
    assert!(writes_hd(true, true, true));
    assert!(!writes_hd(true, true, false));
    assert!(!writes_hd(false, true, true));
    assert!(!writes_hd(true, false, true));
    assert_eq!(hit_circle_overlap(240, true), 120);
    assert_eq!(hit_circle_overlap(120, false), 120);
    assert_eq!(hit_circle_overlap(5, true), 2);
}
