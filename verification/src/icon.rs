//! The window icon: a blue disc crossed by a white arrow, 32 × 32 pixels.
use vstd::prelude::*;
use winit::window::{BadIcon, Icon};

verus! {

#[verifier::external_type_specification]
#[verifier::external_body]
pub struct ExIcon(Icon);

#[verifier::external_type_specification]
#[verifier::external_body]
pub struct ExBadIcon(BadIcon);

/// The icon's width and height in pixels.
pub const ICON_SIZE: u32 = 32;

/// The colour of icon pixel `(x, y)`: white on the arrow (its horizontal bar
/// and its diagonal head), blue inside the disc of radius 13 around (16, 16),
/// transparent elsewhere.
pub open spec fn icon_pixel(x: int, y: int) -> (u8, u8, u8, u8) {
    let dx = x - 16;
    let dy = y - 16;
    let arrow = (14 <= y <= 17 && 5 <= x <= 27) || (-1 <= x - y <= 1 && 15 <= x <= 27 && 5 <= y
        <= 17);
    if arrow {
        (255, 255, 255, 255)
    } else if dx * dx + dy * dy <= 169 {
        (70, 120, 255, 255)
    } else {
        (0, 0, 0, 0)
    }
}

/// Channel `k` (red, green, blue, alpha) of a pixel.
pub open spec fn channel(p: (u8, u8, u8, u8), k: int) -> u8 {
    if k == 0 { p.0 } else if k == 1 { p.1 } else if k == 2 { p.2 } else { p.3 }
}

/// The icon's RGBA bytes, row by row.
pub fn icon_rgba() -> (rgba: Vec<u8>)
    ensures
        rgba@.len() == 32 * 32 * 4,
        forall|x: int, y: int, k: int|
            0 <= x < 32 && 0 <= y < 32 && 0 <= k < 4 ==> #[trigger] rgba@[(y * 32 + x) * 4 + k]
                == channel(icon_pixel(x, y), k),
{
    let mut rgba: Vec<u8> = Vec::new();
    let mut y: i32 = 0;
    while y < 32
        invariant
            0 <= y <= 32,
            rgba@.len() == y * 32 * 4,
            forall|px: int, py: int, k: int|
                0 <= px < 32 && 0 <= py < y && 0 <= k < 4 ==> #[trigger] rgba@[(py * 32 + px) * 4
                    + k] == channel(icon_pixel(px, py), k),
        decreases 32 - y,
    {
        let mut x: i32 = 0;
        while x < 32
            invariant
                0 <= y < 32,
                0 <= x <= 32,
                rgba@.len() == (y * 32 + x) * 4,
                forall|px: int, py: int, k: int|
                    0 <= px < 32 && 0 <= py < 32 && (py < y || (py == y && px < x)) && 0 <= k < 4
                        ==> #[trigger] rgba@[(py * 32 + px) * 4 + k] == channel(
                        icon_pixel(px, py),
                        k,
                    ),
            decreases 32 - x,
        {
            let dx = x - 16;
            let dy = y - 16;
            assert(0 <= dx * dx <= 256 && 0 <= dy * dy <= 256) by (nonlinear_arith)
                requires
                    -16 <= dx <= 16,
                    -16 <= dy <= 16,
            ;
            let arrow = (y >= 14 && y <= 17 && x >= 5 && x <= 27) || (x - y >= -1 && x - y <= 1
                && x >= 15 && x <= 27 && y >= 5 && y <= 17);
            let (r, g, b, a): (u8, u8, u8, u8) = if arrow {
                (255, 255, 255, 255)
            } else if dx * dx + dy * dy <= 169 {
                (70, 120, 255, 255)
            } else {
                (0, 0, 0, 0)
            };
            let ghost before = rgba@;
            rgba.push(r);
            rgba.push(g);
            rgba.push(b);
            rgba.push(a);
            assert(icon_pixel(x as int, y as int) == (r, g, b, a));
            assert forall|px: int, py: int, k: int|
                0 <= px < 32 && 0 <= py < 32 && (py < y || (py == y && px < x + 1)) && 0 <= k < 4
                    implies #[trigger] rgba@[(py * 32 + px) * 4 + k] == channel(
                    icon_pixel(px, py),
                    k,
                ) by {
                if py < y || px < x {
                    assert((py * 32 + px) * 4 + k < (y * 32 + x) * 4);
                    assert(rgba@[(py * 32 + px) * 4 + k] == before[(py * 32 + px) * 4 + k]);
                }
            }
            x = x + 1;
        }
        y = y + 1;
    }
    rgba
}

/// `Icon::from_rgba`: refuses RGBA data whose length is not a multiple of 4 or
/// does not hold `width` × `height` pixels; otherwise the platform may still
/// refuse to make the icon (nothing more is stated).
#[verifier::external_body]
fn icon_from_rgba(rgba: Vec<u8>, width: u32, height: u32) -> (r: Result<Icon, BadIcon>)
    requires
        width * height <= u32::MAX,
    ensures
        rgba@.len() % 4 != 0 || rgba@.len() / 4 != width * height ==> r is Err,
{
    Icon::from_rgba(rgba, width, height)
}

/// Why the window icon could not be made.
#[derive(Clone, Copy, Debug, PartialEq, Eq, Structural)]
pub enum IconError {
    /// The windowing library refused the pixels.
    Rejected,
}

/// The window icon made from the pixels of `icon_rgba`, 32 × 32. The pixels
/// pass the windowing library's own checks (their count matches the size);
/// the platform may still refuse to make the icon, so nothing is promised of
/// the result.
pub fn window_icon() -> (r: Result<Icon, IconError>)
{
    let rgba = icon_rgba();
    match icon_from_rgba(rgba, ICON_SIZE, ICON_SIZE) {
        Ok(icon) => Ok(icon),
        Err(_) => Err(IconError::Rejected),
    }
}

} // verus!
