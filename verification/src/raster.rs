//! Pixel arithmetic of the text renderer and the splash screen: blending
//! anti-aliased glyph coverage into premultiplied pixels, supersampled glyph
//! compositing, and premultiplying source pixels.
use vstd::prelude::*;
use tiny_skia::Pixmap;

verus! {

/// Four 8-bit channels: red, green, blue, alpha.
#[derive(Clone, Copy, Debug, PartialEq, Eq, Structural)]
pub struct Rgba8 {
    pub r: u8,
    pub g: u8,
    pub b: u8,
    pub a: u8,
}

/// A premultiplied colour: no colour channel exceeds alpha.
pub open spec fn is_premultiplied(c: Rgba8) -> bool {
    c.r <= c.a && c.g <= c.a && c.b <= c.a
}

/// `PremultipliedColorU8::from_rgba`: accepts the channels exactly when none of
/// red, green and blue exceeds alpha, and then holds them unchanged.
#[verifier::external_body]
fn checked_premultiplied(c: Rgba8) -> (r: Option<Rgba8>)
    ensures
        r == (if is_premultiplied(c) { Some(c) } else { None }),
{
    match tiny_skia::PremultipliedColorU8::from_rgba(c.r, c.g, c.b, c.a) {
        Some(p) => Some(Rgba8 { r: p.red(), g: p.green(), b: p.blue(), a: p.alpha() }),
        None => None,
    }
}

/// `x / 255`, rounded to nearest.
pub open spec fn div255(x: int) -> int {
    (x + 127) / 255
}

/// Source alpha of a colour drawn at `coverage`.
pub open spec fn source_alpha(color: Rgba8, coverage: u8) -> int {
    div255(coverage * color.a)
}

/// The smaller of two integers.
pub open spec fn min_int(a: int, b: int) -> int {
    if a < b { a } else { b }
}

/// A premultiplied destination pixel after drawing a straight-alpha colour over
/// it at the given coverage ("source over", each product rounded to nearest):
/// unchanged when the source alpha rounds to 0; channels clamped to alpha and
/// to 255.
pub open spec fn spec_blend(dst: Rgba8, color: Rgba8, coverage: u8) -> Rgba8 {
    let sa = source_alpha(color, coverage);
    if sa == 0 {
        dst
    } else {
        let inv = 255 - sa;
        let oa = min_int(sa + div255(dst.a * inv), 255);
        let or = min_int(min_int(div255(color.r * sa) + div255(dst.r * inv), oa), 255);
        let og = min_int(min_int(div255(color.g * sa) + div255(dst.g * inv), oa), 255);
        let ob = min_int(min_int(div255(color.b * sa) + div255(dst.b * inv), oa), 255);
        Rgba8 { r: or as u8, g: og as u8, b: ob as u8, a: oa as u8 }
    }
}

/// Draws `color` (straight alpha) over the premultiplied pixel `destination`
/// with anti-aliasing coverage `coverage`.
pub fn blend_coverage(destination: Rgba8, color: Rgba8, coverage: u8) -> (out: Rgba8)
    ensures
        out == spec_blend(destination, color, coverage),
        is_premultiplied(destination) ==> is_premultiplied(out),
        out != destination ==> is_premultiplied(out),
{
    assert(coverage as u32 * color.a as u32 <= 65025) by (nonlinear_arith)
        requires
            coverage <= 255,
            color.a <= 255,
    ;
    let source_alpha = (coverage as u32 * color.a as u32 + 127) / 255;
    if source_alpha == 0 {
        return destination;
    }
    assert(source_alpha <= 255) by (nonlinear_arith)
        requires
            source_alpha == (coverage as u32 * color.a as u32 + 127) / 255,
            coverage <= 255,
            color.a <= 255,
    ;
    let inverse_alpha = 255 - source_alpha;
    assert(color.r as u32 * source_alpha <= 65025 && color.g as u32 * source_alpha <= 65025
        && color.b as u32 * source_alpha <= 65025 && destination.a as u32 * inverse_alpha <= 65025
        && destination.r as u32 * inverse_alpha <= 65025 && destination.g as u32 * inverse_alpha
        <= 65025 && destination.b as u32 * inverse_alpha <= 65025) by (nonlinear_arith)
        requires
            source_alpha <= 255,
            inverse_alpha <= 255,
    ;
    let source_red = (color.r as u32 * source_alpha + 127) / 255;
    let source_green = (color.g as u32 * source_alpha + 127) / 255;
    let source_blue = (color.b as u32 * source_alpha + 127) / 255;

    let output_alpha = source_alpha + (destination.a as u32 * inverse_alpha + 127) / 255;
    let output_red = source_red + (destination.r as u32 * inverse_alpha + 127) / 255;
    let output_green = source_green + (destination.g as u32 * inverse_alpha + 127) / 255;
    let output_blue = source_blue + (destination.b as u32 * inverse_alpha + 127) / 255;

    let output_alpha: u32 = if output_alpha < 255 { output_alpha } else { 255 };
    let output_red: u32 = if output_red < output_alpha { output_red } else { output_alpha };
    let output_green: u32 = if output_green < output_alpha { output_green } else { output_alpha };
    let output_blue: u32 = if output_blue < output_alpha { output_blue } else { output_alpha };

    let candidate = Rgba8 {
        r: output_red as u8,
        g: output_green as u8,
        b: output_blue as u8,
        a: output_alpha as u8,
    };
    match checked_premultiplied(candidate) {
        Some(c) => c,
        None => candidate,
    }
}

/// `value / divisor` rounded toward negative infinity (`i32::div_euclid` for
/// a positive divisor).
pub fn floor_div(value: i32, divisor: i32) -> (q: i32)
    requires
        divisor > 0,
    ensures
        q == value as int / divisor as int,
        q * divisor <= value < q * divisor + divisor,
        value >= 0 ==> 0 <= q <= value,
        value < 0 ==> value <= q < 0,
{
    proof {
        let d = divisor as int;
        let x = value as int;
        vstd::arithmetic::div_mod::lemma_fundamental_div_mod(x, d);
        vstd::arithmetic::div_mod::lemma_mod_bound(x, d);
        let q = x / d;
        let r = x % d;
        assert(x >= 0 ==> 0 <= q <= x) by (nonlinear_arith)
            requires
                x == d * q + r,
                0 <= r < d,
                d >= 1,
        ;
        assert(x < 0 ==> x <= q < 0) by (nonlinear_arith)
            requires
                x == d * q + r,
                0 <= r < d,
                d >= 1,
        ;
        assert(q * d <= x < q * d + d) by (nonlinear_arith)
            requires
                x == d * q + r,
                0 <= r < d,
        ;
    }
    match value.checked_div_euclid(divisor) {
        Some(q) => q,
        None => 0,
    }
}

/// `value / divisor` rounded toward positive infinity.
pub fn ceil_div(value: i32, divisor: i32) -> (q: i32)
    requires
        divisor > 0,
        value > i32::MIN,
    ensures
        q == -((-value) as int / divisor as int),
        q * divisor - divisor < value <= q * divisor,
{
    let negated = -value;
    let f = floor_div(negated, divisor);
    assert((-f) * divisor - divisor < value <= (-f) * divisor) by (nonlinear_arith)
        requires
            f * divisor <= negated < f * divisor + divisor,
            negated == -value,
    ;
    -f
}

#[verifier::external_type_specification]
#[verifier::external_body]
pub struct ExPixmap(Pixmap);

/// The pixels of a pixmap, row by row, each as (red, green, blue, alpha).
pub uninterp spec fn pixmap_pixels(p: Pixmap) -> Seq<(u8, u8, u8, u8)>;

/// The width and height of a pixmap.
pub uninterp spec fn pixmap_size(p: Pixmap) -> (u32, u32);

/// A pixel as a colour.
pub open spec fn rgba_of(t: (u8, u8, u8, u8)) -> Rgba8 {
    Rgba8 { r: t.0, g: t.1, b: t.2, a: t.3 }
}

/// A colour as a pixel.
pub open spec fn pixel_of(c: Rgba8) -> (u8, u8, u8, u8) {
    (c.r, c.g, c.b, c.a)
}

/// `Pixmap::width`: the width; a pixmap holds width × height pixels.
#[verifier::external_body]
fn pixmap_width(p: &Pixmap) -> (w: u32)
    ensures
        w == pixmap_size(*p).0,
        pixmap_pixels(*p).len() == w * pixmap_size(*p).1,
        w * pixmap_size(*p).1 <= usize::MAX,
{
    p.width()
}

/// `Pixmap::height`: the height; a pixmap holds width × height pixels.
#[verifier::external_body]
fn pixmap_height(p: &Pixmap) -> (h: u32)
    ensures
        h == pixmap_size(*p).1,
        pixmap_pixels(*p).len() == pixmap_size(*p).0 * h,
{
    p.height()
}

/// `Pixmap::pixels`, read at index `i`.
#[verifier::external_body]
fn pixmap_pixel(p: &Pixmap, i: usize) -> (c: Rgba8)
    requires
        i < pixmap_pixels(*p).len(),
    ensures
        pixel_of(c) == pixmap_pixels(*p)[i as int],
{
    let px = p.pixels()[i];
    Rgba8 { r: px.red(), g: px.green(), b: px.blue(), a: px.alpha() }
}

/// `Pixmap::pixels_mut`, written at index `i` with a premultiplied colour
/// (made by `PremultipliedColorU8::from_rgba`); nothing else changes.
#[verifier::external_body]
fn set_pixmap_pixel(p: &mut Pixmap, i: usize, c: Rgba8)
    requires
        i < pixmap_pixels(*old(p)).len(),
        is_premultiplied(c),
    ensures
        pixmap_pixels(*final(p)) == pixmap_pixels(*old(p)).update(i as int, pixel_of(c)),
        pixmap_size(*final(p)) == pixmap_size(*old(p)),
{
    match tiny_skia::PremultipliedColorU8::from_rgba(c.r, c.g, c.b, c.a) {
        Some(px) => p.pixels_mut()[i] = px,
        None => {},
    }
}

/// Glyph coverage at high-resolution sample `(sx, sy)`: the bitmap value when
/// the sample falls inside the `w` × `h` glyph placed at `(gx, gy)`, else 0.
pub open spec fn glyph_sample(bitmap: Seq<u8>, w: int, h: int, gx: int, gy: int, sx: int, sy: int) -> int {
    let lx = sx - gx;
    let ly = sy - gy;
    if 0 <= lx < w && 0 <= ly < h {
        bitmap[ly * w + lx] as int
    } else {
        0
    }
}

/// The sum of the first `k` samples of sample row `sy`, from sample column `sx`.
pub open spec fn row_samples(bitmap: Seq<u8>, w: int, h: int, gx: int, gy: int, sx: int, sy: int, k: nat) -> int
    decreases k,
{
    if k == 0 {
        0
    } else {
        row_samples(bitmap, w, h, gx, gy, sx, sy, (k - 1) as nat) + glyph_sample(
            bitmap,
            w,
            h,
            gx,
            gy,
            sx + k - 1,
            sy,
        )
    }
}

/// The sum of the samples in the first `k` sample rows of pixel `(px, py)`;
/// each pixel covers 4 × 4 samples.
pub open spec fn block_samples(bitmap: Seq<u8>, w: int, h: int, gx: int, gy: int, px: int, py: int, k: nat) -> int
    decreases k,
{
    if k == 0 {
        0
    } else {
        block_samples(bitmap, w, h, gx, gy, px, py, (k - 1) as nat) + row_samples(
            bitmap,
            w,
            h,
            gx,
            gy,
            px * 4,
            py * 4 + k - 1,
            4,
        )
    }
}

/// The glyph's coverage of pixel `(px, py)`: the mean of its 16 samples,
/// rounded to nearest.
pub open spec fn glyph_coverage(bitmap: Seq<u8>, w: int, h: int, gx: int, gy: int, px: int, py: int) -> int {
    (block_samples(bitmap, w, h, gx, gy, px, py, 4) + 8) / 16
}

/// Pixel `(px, py)` lies in the pixel box that the glyph's samples touch.
pub open spec fn in_glyph_box(w: int, h: int, gx: int, gy: int, px: int, py: int) -> bool {
    &&& gx / 4 <= px < -((-(gx + w)) / 4)
    &&& gy / 4 <= py < -((-(gy + h)) / 4)
}

/// Pixel `(px, py)` after drawing the glyph over it in `color`.
pub open spec fn composited(
    old: (u8, u8, u8, u8),
    bitmap: Seq<u8>,
    w: int,
    h: int,
    gx: int,
    gy: int,
    px: int,
    py: int,
    color: Rgba8,
) -> (u8, u8, u8, u8) {
    let c = glyph_coverage(bitmap, w, h, gx, gy, px, py);
    if in_glyph_box(w, h, gx, gy, px, py) && c != 0 {
        pixel_of(spec_blend(rgba_of(old), color, c as u8))
    } else {
        old
    }
}

/// Each sample is a byte.
proof fn lemma_sample_bound(bitmap: Seq<u8>, w: int, h: int, gx: int, gy: int, sx: int, sy: int)
    ensures
        0 <= glyph_sample(bitmap, w, h, gx, gy, sx, sy) <= 255,
{
}

/// The coverage of one pixel: the mean of its 4 × 4 samples.
fn pixel_coverage(bitmap: &Vec<u8>, w: usize, h: usize, gx: i32, gy: i32, px: i32, py: i32) -> (c: u8)
    requires
        bitmap@.len() == w * h,
        w + 8 <= i32::MAX,
        h + 8 <= i32::MAX,
        gx - 4 <= px * 4 <= gx + w + 4,
        gy - 4 <= py * 4 <= gy + h + 4,
        gx - 8 >= i32::MIN,
        gy - 8 >= i32::MIN,
        gx + w + 8 <= i32::MAX,
        gy + h + 8 <= i32::MAX,
    ensures
        c == glyph_coverage(bitmap@, w as int, h as int, gx as int, gy as int, px as int, py as int),
{
    let ghost bm = bitmap@;
    let blen = bitmap.len();
    let wi = w as i32;
    let hi = h as i32;
    let sample_top = py * 4;
    let sample_left = px * 4;
    let mut sum: u32 = 0;
    let mut dy: i32 = 0;
    while dy < 4
        invariant
            0 <= dy <= 4,
            bm == bitmap@,
            bitmap@.len() == w * h,
            blen == w * h,
            wi == w,
            hi == h,
            w + 8 <= i32::MAX,
            h + 8 <= i32::MAX,
            sample_top == py * 4,
            sample_left == px * 4,
            gx - 4 <= px * 4 <= gx + w + 4,
            gy - 4 <= py * 4 <= gy + h + 4,
            gx - 8 >= i32::MIN,
            gy - 8 >= i32::MIN,
            gx + w + 8 <= i32::MAX,
            gy + h + 8 <= i32::MAX,
            sum == block_samples(bm, w as int, h as int, gx as int, gy as int, px as int, py as int, dy as nat),
            sum <= 1020 * dy,
        decreases 4 - dy,
    {
        let high_y = sample_top + dy;
        assert(gy - 4 <= high_y <= gy + h + 8);
        let local_y = high_y - gy;
        let mut row: u32 = 0;
        let mut dx: i32 = 0;
        while dx < 4
            invariant
                0 <= dx <= 4,
                0 <= dy < 4,
                bm == bitmap@,
                bitmap@.len() == w * h,
                blen == w * h,
                wi == w,
                hi == h,
                w + 8 <= i32::MAX,
                h + 8 <= i32::MAX,
                sample_left == px * 4,
                -8 <= local_y <= h + 8,
                high_y == py * 4 + dy,
                local_y == high_y - gy,
                gx - 4 <= px * 4 <= gx + w + 4,
                gx - 8 >= i32::MIN,
                gx + w + 8 <= i32::MAX,
                row == row_samples(bm, w as int, h as int, gx as int, gy as int, px * 4, high_y as int, dx as nat),
                row <= 255 * dx,
            decreases 4 - dx,
        {
            let high_x = sample_left + dx;
            assert(gx - 4 <= high_x <= gx + w + 8);
            let local_x = high_x - gx;
            proof {
                lemma_sample_bound(bm, w as int, h as int, gx as int, gy as int, high_x as int, high_y as int);
            }
            if local_y >= 0 && local_y < hi && local_x >= 0 && local_x < wi {
                let ly = local_y as usize;
                let lx = local_x as usize;
                assert(ly * w + lx < w * h) by (nonlinear_arith)
                    requires
                        ly < h,
                        lx < w,
                ;
                assert(w * h == blen);
                row = row + bitmap[ly * w + lx] as u32;
            }
            dx = dx + 1;
        }
        sum = sum + row;
        dy = dy + 1;
    }
    ((sum + 8) / 16) as u8
}

/// Index `i` of a grid `w` wide lies in column `i % w` of row `i / w`.
proof fn lemma_grid_index(i: int, w: int)
    requires
        w > 0,
        i >= 0,
    ensures
        i == (i / w) * w + i % w,
        0 <= i % w < w,
        i / w >= 0,
{
    vstd::arithmetic::div_mod::lemma_fundamental_div_mod(i, w);
    vstd::arithmetic::div_mod::lemma_mod_bound(i, w);
    assert(i / w >= 0) by {
        vstd::arithmetic::div_mod::lemma_div_pos_is_pos(i, w);
    }
    assert((i / w) * w == w * (i / w)) by (nonlinear_arith);
}

/// The cell at column `x` of row `y` has index `y * w + x`, and no other does.
proof fn lemma_grid_cell(x: int, y: int, w: int)
    requires
        w > 0,
        0 <= x < w,
        y >= 0,
    ensures
        (y * w + x) / w == y,
        (y * w + x) % w == x,
{
    vstd::arithmetic::div_mod::lemma_fundamental_div_mod_converse(y * w + x, w, y, x);
}

/// The pixels of the glyph box clipped to the pixmap that the compositing
/// loop has drawn: rows `pt..py` whole (columns `pl..pr`), then row `py` up to
/// column `px`.
pub open spec fn drawn(x: int, y: int, pl: int, pr: int, pt: int, py: int, px: int) -> bool {
    ||| (pt <= y < py && pl <= x < pr)
    ||| (y == py && pl <= x < px)
}

/// Draws a glyph in `color` onto the pixmap: `bitmap` holds the glyph's
/// coverage, `w` × `h` samples at four samples per pixel in each direction,
/// placed with its top-left sample at `(gx, gy)`. Each pixel of the box that
/// the glyph touches takes the mean coverage of its 4 × 4 samples and, when
/// that is not 0, is blended with `color`. A pixmap wider or taller than
/// `i32::MAX` pixels is left as it is.
pub fn composite_glyph(
    pixmap: &mut Pixmap,
    bitmap: &Vec<u8>,
    w: usize,
    h: usize,
    gx: i32,
    gy: i32,
    color: Rgba8,
)
    requires
        bitmap@.len() == w * h,
        w + 8 <= i32::MAX,
        h + 8 <= i32::MAX,
        gx - 8 >= i32::MIN,
        gy - 8 >= i32::MIN,
        gx + w + 8 <= i32::MAX,
        gy + h + 8 <= i32::MAX,
    ensures
        pixmap_size(*final(pixmap)) == pixmap_size(*old(pixmap)),
        pixmap_pixels(*final(pixmap)).len() == pixmap_pixels(*old(pixmap)).len(),
        pixmap_size(*old(pixmap)).0 <= i32::MAX && pixmap_size(*old(pixmap)).1 <= i32::MAX
            ==> forall|i: int|
            0 <= i < pixmap_pixels(*old(pixmap)).len() ==> #[trigger] pixmap_pixels(
                *final(pixmap),
            )[i] == composited(
                pixmap_pixels(*old(pixmap))[i],
                bitmap@,
                w as int,
                h as int,
                gx as int,
                gy as int,
                i % (pixmap_size(*old(pixmap)).0 as int),
                i / (pixmap_size(*old(pixmap)).0 as int),
                color,
            ),
        !(pixmap_size(*old(pixmap)).0 <= i32::MAX && pixmap_size(*old(pixmap)).1 <= i32::MAX)
            ==> pixmap_pixels(*final(pixmap)) == pixmap_pixels(*old(pixmap)),
{
    let pw = pixmap_width(pixmap);
    let ph = pixmap_height(pixmap);
    if pw > 0x7FFF_FFFF || ph > 0x7FFF_FFFF {
        return;
    }
    let ghost old_px = pixmap_pixels(*pixmap);
    let ghost size = pixmap_size(*pixmap);
    let ghost bm = bitmap@;
    let ghost wd = pw as int;
    let pwi = pw as i32;
    let phi = ph as i32;
    let left = floor_div(gx, 4);
    let top = floor_div(gy, 4);
    let right = ceil_div(gx + w as i32, 4);
    let bottom = ceil_div(gy + h as i32, 4);
    let pl: i32 = if left > 0 { left } else { 0 };
    let pr: i32 = if right < pwi { right } else { pwi };
    let pt: i32 = if top > 0 { top } else { 0 };
    let pb: i32 = if bottom < phi { bottom } else { phi };
    let mut py = pt;
    while py < pb
        invariant
            pixmap_size(*pixmap) == size,
            size == (pw, ph),
            pw <= i32::MAX,
            ph <= i32::MAX,
            pwi == pw,
            phi == ph,
            wd == pw,
            old_px.len() == pw * ph,
            pixmap_pixels(*pixmap).len() == old_px.len(),
            old_px.len() <= usize::MAX,
            bm == bitmap@,
            bitmap@.len() == w * h,
            w + 8 <= i32::MAX,
            h + 8 <= i32::MAX,
            gx - 8 >= i32::MIN,
            gy - 8 >= i32::MIN,
            gx + w + 8 <= i32::MAX,
            gy + h + 8 <= i32::MAX,
            left == gx / 4,
            top == gy / 4,
            right == -((-(gx + w)) / 4),
            bottom == -((-(gy + h)) / 4),
            left * 4 <= gx,
            top * 4 <= gy,
            right * 4 - 4 < gx + w,
            bottom * 4 - 4 < gy + h,
            pl == (if left > 0 { left } else { 0 }),
            pr == (if right < pwi { right } else { pwi }),
            pt == (if top > 0 { top } else { 0 }),
            pb == (if bottom < phi { bottom } else { phi }),
            pt <= py,
            forall|i: int|
                0 <= i < old_px.len() ==> #[trigger] pixmap_pixels(*pixmap)[i] == (if drawn(
                    i % wd,
                    i / wd,
                    pl as int,
                    pr as int,
                    pt as int,
                    py as int,
                    pl as int,
                ) {
                    composited(old_px[i], bm, w as int, h as int, gx as int, gy as int, i % wd, i / wd, color)
                } else {
                    old_px[i]
                }),
        decreases pb - py,
    {
        let mut px = pl;
        while px < pr
            invariant
                pixmap_size(*pixmap) == size,
                size == (pw, ph),
                pw <= i32::MAX,
                ph <= i32::MAX,
                pwi == pw,
                phi == ph,
                wd == pw,
                old_px.len() == pw * ph,
                pixmap_pixels(*pixmap).len() == old_px.len(),
                old_px.len() <= usize::MAX,
                bm == bitmap@,
                bitmap@.len() == w * h,
                w + 8 <= i32::MAX,
                h + 8 <= i32::MAX,
                gx - 8 >= i32::MIN,
                gy - 8 >= i32::MIN,
                gx + w + 8 <= i32::MAX,
                gy + h + 8 <= i32::MAX,
                left == gx / 4,
                top == gy / 4,
                right == -((-(gx + w)) / 4),
                bottom == -((-(gy + h)) / 4),
                left * 4 <= gx,
                top * 4 <= gy,
                right * 4 - 4 < gx + w,
                bottom * 4 - 4 < gy + h,
                pl == (if left > 0 { left } else { 0 }),
                pr == (if right < pwi { right } else { pwi }),
                pt == (if top > 0 { top } else { 0 }),
                pb == (if bottom < phi { bottom } else { phi }),
                pt <= py < pb,
                pl <= px,
                forall|i: int|
                    0 <= i < old_px.len() ==> #[trigger] pixmap_pixels(*pixmap)[i] == (if drawn(
                        i % wd,
                        i / wd,
                        pl as int,
                        pr as int,
                        pt as int,
                        py as int,
                        px as int,
                    ) {
                        composited(old_px[i], bm, w as int, h as int, gx as int, gy as int, i % wd, i / wd, color)
                    } else {
                        old_px[i]
                    }),
            decreases pr - px,
        {
            let c = pixel_coverage(bitmap, w, h, gx, gy, px, py);
            let ghost i0 = py * wd + px;
            proof {
                assert(0 <= py < ph);
                assert(0 <= px < pw);
                assert(py * wd + px < wd * ph) by (nonlinear_arith)
                    requires
                        0 <= py < ph,
                        0 <= px < wd,
                ;
                lemma_grid_cell(px as int, py as int, wd);
            }
            if c != 0 {
                let idx = py as usize * pw as usize + px as usize;
                assert(idx == i0);
                let dst = pixmap_pixel(pixmap, idx);
                let out = blend_coverage(dst, color, c);
                if out != dst {
                    set_pixmap_pixel(pixmap, idx, out);
                }
            }
            proof {
                assert forall|i: int|
                    0 <= i < old_px.len() implies #[trigger] pixmap_pixels(*pixmap)[i] == (if drawn(
                        i % wd,
                        i / wd,
                        pl as int,
                        pr as int,
                        pt as int,
                        py as int,
                        px + 1,
                    ) {
                        composited(old_px[i], bm, w as int, h as int, gx as int, gy as int, i % wd, i / wd, color)
                    } else {
                        old_px[i]
                    }) by {
                    lemma_grid_index(i, wd);
                    if i != i0 {
                        if i % wd == px && i / wd == py {
                            assert(i == (i / wd) * wd + i % wd);
                        }
                    }
                }
            }
            px = px + 1;
        }
        proof {
            assert forall|i: int|
                0 <= i < old_px.len() implies #[trigger] pixmap_pixels(*pixmap)[i] == (if drawn(
                    i % wd,
                    i / wd,
                    pl as int,
                    pr as int,
                    pt as int,
                    py + 1,
                    pl as int,
                ) {
                    composited(old_px[i], bm, w as int, h as int, gx as int, gy as int, i % wd, i / wd, color)
                } else {
                    old_px[i]
                }) by {
                lemma_grid_index(i, wd);
            }
        }
        py = py + 1;
    }
    proof {
        assert forall|i: int|
            0 <= i < old_px.len() implies #[trigger] pixmap_pixels(*pixmap)[i] == composited(
                old_px[i],
                bm,
                w as int,
                h as int,
                gx as int,
                gy as int,
                i % wd,
                i / wd,
                color,
            ) by {
            assert(wd > 0) by (nonlinear_arith)
                requires
                    0 <= i < wd * ph,
                    ph >= 0,
                    wd >= 0,
            ;
            lemma_grid_index(i, wd);
            assert(i / wd < ph) by (nonlinear_arith)
                requires
                    i == (i / wd) * wd + i % wd,
                    0 <= i % wd,
                    i < wd * ph,
                    wd > 0,
            ;
        }
    }
}

/// A straight-alpha channel premultiplied by alpha, rounded to nearest.
pub open spec fn premultiplied_channel(c: u8, a: u8) -> u8 {
    ((c * a + 127) / 255) as u8
}

/// Premultiplies a straight-alpha colour.
pub fn premultiply(c: Rgba8) -> (p: Rgba8)
    ensures
        p == (Rgba8 {
            r: premultiplied_channel(c.r, c.a),
            g: premultiplied_channel(c.g, c.a),
            b: premultiplied_channel(c.b, c.a),
            a: c.a,
        }),
        is_premultiplied(p),
{
    assert(c.r as u16 * c.a as u16 <= 65025 && c.g as u16 * c.a as u16 <= 65025 && c.b as u16
        * c.a as u16 <= 65025) by (nonlinear_arith);
    let r = ((c.r as u16 * c.a as u16 + 127) / 255) as u8;
    let g = ((c.g as u16 * c.a as u16 + 127) / 255) as u8;
    let b = ((c.b as u16 * c.a as u16 + 127) / 255) as u8;
    assert(r <= c.a && g <= c.a && b <= c.a) by (nonlinear_arith)
        requires
            r == (c.r * c.a + 127) / 255,
            g == (c.g * c.a + 127) / 255,
            b == (c.b * c.a + 127) / 255,
            c.r <= 255,
            c.g <= 255,
            c.b <= 255,
    ;
    let candidate = Rgba8 { r, g, b, a: c.a };
    match checked_premultiplied(candidate) {
        Some(p) => p,
        None => candidate,
    }
}

/// Pixel `(x, y)` of an RGBA image `width` pixels wide, stored row by row.
pub fn source_pixel(data: &Vec<u8>, width: usize, x: usize, y: usize) -> (p: Rgba8)
    requires
        x < width,
        (y * width + x) * 4 + 3 < data@.len(),
    ensures
        p == (Rgba8 {
            r: data@[(y * width + x) * 4],
            g: data@[(y * width + x) * 4 + 1],
            b: data@[(y * width + x) * 4 + 2],
            a: data@[(y * width + x) * 4 + 3],
        }),
{
    let n = data.len();
    assert((y * width + x) * 4 + 3 < n);
    let index = (y * width + x) * 4;
    Rgba8 { r: data[index], g: data[index + 1], b: data[index + 2], a: data[index + 3] }
}

/// The premultiplied RGBA bytes `rgba` reordered as BGRA, as a Windows
/// bitmap takes them; a last partial pixel is left out.
pub open spec fn spec_bgra(rgba: Seq<u8>) -> Seq<u8> {
    Seq::new(
        (rgba.len() / 4 * 4) as nat,
        |i: int|
            {
                let base = i / 4 * 4;
                let k = i % 4;
                if k == 0 {
                    rgba[base + 2]
                } else if k == 2 {
                    rgba[base]
                } else {
                    rgba[i]
                }
            },
    )
}

/// The RGBA bytes reordered as BGRA.
pub fn bgra_from_rgba(rgba: &[u8]) -> (out: Vec<u8>)
    ensures
        out@ == spec_bgra(rgba@),
{
    let len = rgba.len();
    let n = len / 4;
    let mut out: Vec<u8> = Vec::new();
    let mut p: usize = 0;
    while p < n
        invariant
            len == rgba@.len(),
            n == len / 4,
            p <= n,
            out@.len() == 4 * p,
            forall|i: int| 0 <= i < out@.len() ==> out@[i] == #[trigger] spec_bgra(rgba@)[i],
        decreases n - p,
    {
        let base = 4 * p;
        out.push(rgba[base + 2]);
        out.push(rgba[base + 1]);
        out.push(rgba[base]);
        out.push(rgba[base + 3]);
        proof {
            assert forall|i: int| 4 * p <= i < 4 * p + 4 implies out@[i] == #[trigger] spec_bgra(rgba@)[i] by {
                assert(i / 4 == p as int);
            }
        }
        p = p + 1;
    }
    assert(out@ =~= spec_bgra(rgba@));
    out
}

/// Blending works channel by channel. The source alpha is the coverage times
/// the colour's alpha, rounded from 255ths; when it rounds to 0 the pixel is
/// left as it was. Otherwise each colour channel of the result is that
/// channel of the colour scaled by the source alpha plus the same channel of
/// the destination scaled by what the source leaves, capped at the result's
/// alpha, and the result's alpha is the source alpha plus the destination's
/// alpha scaled the same way, capped at 255.
pub proof fn lemma_blend_per_channel(dst: Rgba8, color: Rgba8, coverage: u8)
    ensures
        ({
            let sa = (coverage * color.a + 127) / 255;
            let out = spec_blend(dst, color, coverage);
            let keep = 255 - sa;
            &&& sa == 0 ==> out == dst
            &&& sa != 0 ==> out.a == min_int(sa + (dst.a * keep + 127) / 255, 255)
            &&& sa != 0 ==> out.r == min_int((color.r * sa + 127) / 255 + (dst.r * keep + 127) / 255, out.a as int)
            &&& sa != 0 ==> out.g == min_int((color.g * sa + 127) / 255 + (dst.g * keep + 127) / 255, out.a as int)
            &&& sa != 0 ==> out.b == min_int((color.b * sa + 127) / 255 + (dst.b * keep + 127) / 255, out.a as int)
        }),
{
    let sa = source_alpha(color, coverage);
    assert(0 <= sa <= 255) by (nonlinear_arith)
        requires
            sa == (coverage * color.a + 127) / 255,
            coverage <= 255,
            color.a <= 255,
    ;
    let keep = 255 - sa;
    assert(0 <= dst.a * keep && 0 <= dst.r * keep && 0 <= dst.g * keep && 0 <= dst.b * keep
        && 0 <= color.r * sa && 0 <= color.g * sa && 0 <= color.b * sa) by (nonlinear_arith)
        requires
            0 <= sa <= 255,
            keep == 255 - sa,
    ;
}

/// Each channel of a blend depends on nothing but that channel and the
/// alphas: two destinations that agree on a channel and on alpha give
/// results that agree on that channel and on alpha, and so do two colours.
pub proof fn lemma_blend_channel_locality(d1: Rgba8, d2: Rgba8, c1: Rgba8, c2: Rgba8, coverage: u8)
    requires
        d1.a == d2.a,
        c1.a == c2.a,
    ensures
        spec_blend(d1, c1, coverage).a == spec_blend(d2, c2, coverage).a,
        d1.r == d2.r && c1.r == c2.r ==> spec_blend(d1, c1, coverage).r == spec_blend(d2, c2, coverage).r,
        d1.g == d2.g && c1.g == c2.g ==> spec_blend(d1, c1, coverage).g == spec_blend(d2, c2, coverage).g,
        d1.b == d2.b && c1.b == c2.b ==> spec_blend(d1, c1, coverage).b == spec_blend(d2, c2, coverage).b,
{
    lemma_blend_per_channel(d1, c1, coverage);
    lemma_blend_per_channel(d2, c2, coverage);
}

/// Reordering to BGRA swaps the first and third byte of each whole pixel and
/// keeps the second and fourth.
pub proof fn lemma_bgra_pixels(rgba: Seq<u8>, p: int)
    requires
        0 <= p < rgba.len() / 4,
    ensures
        spec_bgra(rgba).len() == rgba.len() / 4 * 4,
        spec_bgra(rgba)[4 * p] == rgba[4 * p + 2],
        spec_bgra(rgba)[4 * p + 1] == rgba[4 * p + 1],
        spec_bgra(rgba)[4 * p + 2] == rgba[4 * p],
        spec_bgra(rgba)[4 * p + 3] == rgba[4 * p + 3],
{
    assert((4 * p) / 4 == p && (4 * p) % 4 == 0);
    assert((4 * p + 1) / 4 == p && (4 * p + 1) % 4 == 1);
    assert((4 * p + 2) / 4 == p && (4 * p + 2) % 4 == 2);
    assert((4 * p + 3) / 4 == p && (4 * p + 3) % 4 == 3);
    assert(4 * p + 3 < rgba.len() / 4 * 4);
}

/// Reordering twice gives back the whole pixels of the input.
pub proof fn lemma_bgra_twice(rgba: Seq<u8>)
    ensures
        spec_bgra(spec_bgra(rgba)) =~= rgba.subrange(0, (rgba.len() / 4 * 4) as int),
{
    let once = spec_bgra(rgba);
    assert(once.len() / 4 * 4 == rgba.len() / 4 * 4);
    assert forall|i: int| 0 <= i < rgba.len() / 4 * 4 implies #[trigger] spec_bgra(once)[i]
        == rgba[i] by {
        let base = i / 4 * 4;
        let k = i % 4;
        assert(base + 3 < rgba.len() / 4 * 4);
        assert((base + 2) / 4 * 4 == base && (base + 2) % 4 == 2);
        assert(base / 4 * 4 == base && base % 4 == 0);
        assert(i == base + k);
    }
}

} // verus!
