use protractor_plus::icon::{icon_rgba, window_icon};

fn px(rgba: &[u8], x: usize, y: usize) -> [u8; 4] {
    let i = (y * 32 + x) * 4;
    [rgba[i], rgba[i + 1], rgba[i + 2], rgba[i + 3]]
}

#[test]
fn icon_is_a_blue_disc_with_a_white_arrow() {
    let rgba = icon_rgba();
    assert_eq!(rgba.len(), 32 * 32 * 4);
    assert_eq!(px(&rgba, 0, 0), [0, 0, 0, 0]);
    assert_eq!(px(&rgba, 16, 4), [70, 120, 255, 255]);
    assert_eq!(px(&rgba, 16, 3), [70, 120, 255, 255]);
    assert_eq!(px(&rgba, 16, 2), [0, 0, 0, 0]);
    assert_eq!(px(&rgba, 5, 15), [255, 255, 255, 255]);
    assert_eq!(px(&rgba, 20, 20), [70, 120, 255, 255]);
    assert_eq!(px(&rgba, 20, 21), [70, 120, 255, 255]);
    assert_eq!(px(&rgba, 20, 19), [70, 120, 255, 255]);
    assert_eq!(px(&rgba, 10, 10), [70, 120, 255, 255]);
    assert_eq!(px(&rgba, 16, 16), [255, 255, 255, 255]);
    assert_eq!(px(&rgba, 27, 14), [255, 255, 255, 255]);
    assert_eq!(px(&rgba, 28, 15), [70, 120, 255, 255]);
    assert_eq!(px(&rgba, 15, 14), [255, 255, 255, 255]);
}

#[test]
fn icon_matches_the_float_drawing() {
    let rgba = icon_rgba();
    for y in 0..32u32 {
        for x in 0..32u32 {
            let mut want = [0u8; 4];
            let dx = x as f32 - 16.0;
            let dy = y as f32 - 16.0;
            if dx * dx + dy * dy <= 13.0 * 13.0 {
                want = [70, 120, 255, 255];
            }
            if (y >= 14 && y <= 17 && x >= 5 && x <= 27)
                || ((x as i32 - y as i32).abs() <= 1 && x >= 15 && x <= 27 && y >= 5 && y <= 17)
            {
                want = [255, 255, 255, 255];
            }
            assert_eq!(px(&rgba, x as usize, y as usize), want, "({x}, {y})");
        }
    }
}

#[test]
fn window_icon_is_made() {
    assert!(window_icon().is_ok());
}
