use protractor_plus::raster::bgra_from_rgba;
use protractor_plus::raster::{
    blend_coverage, ceil_div, composite_glyph, floor_div, premultiply, source_pixel, Rgba8,
};
use tiny_skia::Pixmap;

fn c(r: u8, g: u8, b: u8, a: u8) -> Rgba8 {
    Rgba8 { r, g, b, a }
}

#[test]
fn blending_full_coverage_paints_the_colour() {
    assert_eq!(blend_coverage(c(0, 0, 0, 0), c(255, 0, 0, 255), 255), c(255, 0, 0, 255));
}

#[test]
fn blending_half_coverage_mixes() {
    assert_eq!(blend_coverage(c(0, 0, 0, 255), c(255, 255, 255, 255), 128), c(128, 128, 128, 255));
    assert_eq!(blend_coverage(c(0, 0, 0, 0), c(255, 255, 255, 255), 128), c(128, 128, 128, 128));
}

#[test]
fn blending_nothing_keeps_the_pixel() {
    let dst = c(10, 20, 30, 40);
    assert_eq!(blend_coverage(dst, c(255, 255, 255, 255), 0), dst);
    assert_eq!(blend_coverage(dst, c(255, 255, 255, 0), 255), dst);
}

#[test]
fn blended_pixels_stay_premultiplied() {
    for cov in [1u8, 60, 128, 200, 255] {
        for dst in [c(0, 0, 0, 0), c(255, 0, 128, 255), c(10, 10, 10, 12)] {
            let out = blend_coverage(dst, c(250, 5, 100, 200), cov);
            assert!(out.r <= out.a && out.g <= out.a && out.b <= out.a);
        }
    }
}

#[test]
fn floor_and_ceil_division() {
    assert_eq!(floor_div(7, 4), 1);
    assert_eq!(floor_div(-5, 4), -2);
    assert_eq!(floor_div(-8, 4), -2);
    assert_eq!(ceil_div(7, 4), 2);
    assert_eq!(ceil_div(8, 4), 2);
    assert_eq!(ceil_div(-5, 4), -1);
    assert_eq!(floor_div(i32::MIN, 4), i32::MIN / 4);
    assert_eq!(ceil_div(i32::MAX, 4), 536870912);
}

#[test]
fn premultiplying_rounds_each_channel() {
    assert_eq!(premultiply(c(200, 100, 50, 128)), c(100, 50, 25, 128));
    assert_eq!(premultiply(c(200, 100, 50, 255)), c(200, 100, 50, 255));
    assert_eq!(premultiply(c(200, 100, 50, 0)), c(0, 0, 0, 0));
}

#[test]
fn source_pixel_reads_row_major_rgba() {
    let data: Vec<u8> = (0u8..32).collect();
    assert_eq!(source_pixel(&data, 2, 1, 1), c(12, 13, 14, 15));
    assert_eq!(source_pixel(&data, 4, 3, 0), c(12, 13, 14, 15));
}

fn pixel(p: &Pixmap, i: usize) -> Rgba8 {
    let px = p.pixels()[i];
    c(px.red(), px.green(), px.blue(), px.alpha())
}

#[test]
fn a_full_glyph_cell_paints_one_pixel() {
    let mut p = Pixmap::new(2, 2).unwrap();
    composite_glyph(&mut p, &vec![255u8; 16], 4, 4, 0, 0, c(255, 255, 255, 255));
    assert_eq!(pixel(&p, 0), c(255, 255, 255, 255));
    assert_eq!(pixel(&p, 1), c(0, 0, 0, 0));
    assert_eq!(pixel(&p, 2), c(0, 0, 0, 0));
    assert_eq!(pixel(&p, 3), c(0, 0, 0, 0));
}

#[test]
fn a_glyph_between_pixels_covers_both_by_half() {
    let mut p = Pixmap::new(3, 1).unwrap();
    composite_glyph(&mut p, &vec![255u8; 16], 4, 4, 2, 0, c(255, 255, 255, 255));
    assert_eq!(pixel(&p, 0), c(128, 128, 128, 128));
    assert_eq!(pixel(&p, 1), c(128, 128, 128, 128));
    assert_eq!(pixel(&p, 2), c(0, 0, 0, 0));
}

#[test]
fn glyph_samples_outside_the_pixmap_are_clipped() {
    let mut p = Pixmap::new(2, 2).unwrap();
    composite_glyph(&mut p, &vec![255u8; 64], 8, 8, -4, -4, c(0, 0, 255, 255));
    assert_eq!(pixel(&p, 0), c(0, 0, 255, 255));
    assert_eq!(pixel(&p, 1), c(0, 0, 0, 0));
    assert_eq!(pixel(&p, 2), c(0, 0, 0, 0));
}

#[test]
fn bgra_swaps_red_and_blue() {
    assert_eq!(bgra_from_rgba(&[1, 2, 3, 4, 5, 6, 7, 8, 9]), vec![3, 2, 1, 4, 7, 6, 5, 8]);
    assert!(bgra_from_rgba(&[1, 2]).is_empty());
}
