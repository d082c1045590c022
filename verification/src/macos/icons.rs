//! The icon in the menu bar.

use vstd::prelude::*;

verus! {

/// The side of the icon in pixels.
pub const SIDE: u64 = 36;

/// The layout of a pixel of red, green, blue and alpha, as the format of the picture numbers
/// it.
pub const RGBA: u8 = 6;

/// The bits of one channel of a pixel.
pub const DEPTH: u8 = 8;

/// What the `png` crate makes of the bytes of a picture: the width, the height, the layout of a
/// pixel as the format of the picture numbers it, the bits of one channel, and the bytes of the
/// first frame.
pub uninterp spec fn picture_of(bytes: Seq<u8>) -> Option<(u32, u32, u8, u8, Seq<u8>)>;

/// The contents of a picture.
pub open spec fn picture_view(r: Option<(u32, u32, u8, u8, Vec<u8>)>) -> Option<(u32, u32, u8, u8, Seq<u8>)> {
    match r {
        Some((width, height, layout, depth, pixels)) => Some((width, height, layout, depth, pixels@)),
        None => None,
    }
}

/// Trusted: `png::Decoder::read_info`, then `Reader::output_buffer_size` and
/// `Reader::next_frame` into a buffer of that size, with the `OutputInfo` that it returns: the
/// color type and the bit depth by their numbers in the format. What they return is a function
/// of the bytes alone, as far as the picture fits into memory; it is absent where one of them
/// fails.
#[verifier::external_body]
fn decode(bytes: &[u8]) -> (r: Option<(u32, u32, u8, u8, Vec<u8>)>)
    ensures
        picture_view(r) == picture_of(bytes@),
{
    let mut reader = png::Decoder::new(std::io::Cursor::new(bytes)).read_info().ok()?;
    let mut pixels: Vec<u8> = vec![0; reader.output_buffer_size()?];
    let info = reader.next_frame(&mut pixels).ok()?;
    Some((info.width, info.height, info.color_type as u8, info.bit_depth as u8, pixels))
}

/// The sum of the alpha bytes of a row of pixels from one column up to another.
pub open spec fn row_alpha(pixels: Seq<u8>, width: int, y: int, from: int, to: int) -> nat
    decreases to - from,
{
    if to <= from {
        0
    } else {
        row_alpha(pixels, width, y, from, to - 1) + pixels[(y * width + to - 1) * 4 + 3] as nat
    }
}

/// The sum of the alpha bytes of a part of a picture.
pub open spec fn area_alpha(pixels: Seq<u8>, width: int, top: int, bottom: int, left: int, right: int) -> nat
    decreases bottom - top,
{
    if bottom <= top {
        0
    } else {
        area_alpha(pixels, width, top, bottom - 1, left, right) + row_alpha(pixels, width, bottom - 1, left, right)
    }
}

/// The rounded average of the alpha bytes under a pixel of the icon.
pub open spec fn average_alpha(pixels: Seq<u8>, width: int, height: int, x: int, y: int) -> int {
    let (top, bottom) = (y * height / SIDE as int, (y + 1) * height / SIDE as int);
    let (left, right) = (x * width / SIDE as int, (x + 1) * width / SIDE as int);
    let samples = (bottom - top) * (right - left);
    (area_alpha(pixels, width, top, bottom, left, right) + samples / 2) / samples
}

/// A byte of the icon: the color is left to the system, the alpha is that of the picture.
pub open spec fn icon_byte(pixels: Seq<u8>, width: int, height: int, i: int) -> u8 {
    if i % 4 == 3 {
        average_alpha(pixels, width, height, i / 4 % SIDE as int, i / 4 / SIDE as int) as u8
    } else {
        0
    }
}

/// The bytes of the icon.
pub open spec fn icon_of(pixels: Seq<u8>, width: int, height: int) -> Seq<u8> {
    Seq::new((SIDE * SIDE * 4) as nat, |i: int| icon_byte(pixels, width, height, i))
}

/// Whether a picture can be made an icon: each pixel of the icon covers some of the picture.
pub open spec fn usable(width: u32, height: u32, pixels: Seq<u8>) -> bool {
    SIDE <= width && SIDE <= height && width * height * 4 <= pixels.len()
}

/// A sum over a row is at most 255 for each pixel.
proof fn row_alpha_bounded(pixels: Seq<u8>, width: int, y: int, from: int, to: int)
    requires
        from <= to,
    ensures
        row_alpha(pixels, width, y, from, to) <= 255 * (to - from),
    decreases to - from,
{
    if from < to {
        row_alpha_bounded(pixels, width, y, from, to - 1);
    }
}

/// A sum over an area is at most 255 for each pixel.
proof fn area_alpha_bounded(pixels: Seq<u8>, width: int, top: int, bottom: int, left: int, right: int)
    requires
        top <= bottom,
        left <= right,
    ensures
        area_alpha(pixels, width, top, bottom, left, right) <= 255 * ((bottom - top) * (right - left)),
    decreases bottom - top,
{
    if top < bottom {
        area_alpha_bounded(pixels, width, top, bottom - 1, left, right);
        row_alpha_bounded(pixels, width, bottom - 1, left, right);
        assert((bottom - top) * (right - left) == (bottom - 1 - top) * (right - left) + (right - left))
            by (nonlinear_arith);
    } else {
        assert((bottom - top) * (right - left) == 0) by (nonlinear_arith)
            requires
                bottom == top,
        ;
    }
}

/// The parts of a side that the pixels of the icon cover: none is empty, and they stay
/// within the side.
proof fn parts_cover(side: int, i: int)
    requires
        SIDE <= side,
        0 <= i < SIDE,
    ensures
        0 <= i * side / SIDE as int,
        (i * side / SIDE as int) < (i + 1) * side / SIDE as int,
        (i + 1) * side / SIDE as int <= side,
{
    let n = SIDE as int;
    assert((i + 1) * side == i * side + side) by (nonlinear_arith);
    assert(0 <= i * side) by (nonlinear_arith)
        requires
            0 <= i,
            0 <= side,
    ;
    assert((i + 1) * side <= n * side) by (nonlinear_arith)
        requires
            i + 1 <= n,
            0 <= side,
    ;
    assert((i * side + side) / 36 >= i * side / 36 + 1);
    assert((n * side) / 36 == side);
}

/// The alpha of one pixel of the icon.
fn alpha_at(pixels: &Vec<u8>, width: u32, height: u32, x: u64, y: u64) -> (r: u8)
    requires
        usable(width, height, pixels@),
        x < SIDE,
        y < SIDE,
    ensures
        r == average_alpha(pixels@, width as int, height as int, x as int, y as int),
{
    proof {
        parts_cover(height as int, y as int);
        parts_cover(width as int, x as int);
        assert((y + 1) * height <= 36 * 0xffff_ffff) by (nonlinear_arith)
            requires
                y < 36,
                height <= 0xffff_ffff,
        ;
        assert(y * height <= (y + 1) * height) by (nonlinear_arith)
            requires
                0 <= height,
        ;
        assert((x + 1) * width <= 36 * 0xffff_ffff) by (nonlinear_arith)
            requires
                x < 36,
                width <= 0xffff_ffff,
        ;
        assert(x * width <= (x + 1) * width) by (nonlinear_arith)
            requires
                0 <= width,
        ;
    }
    let top: u64 = y * height as u64 / SIDE;
    let bottom: u64 = (y + 1) * height as u64 / SIDE;
    let left: u64 = x * width as u64 / SIDE;
    let right: u64 = (x + 1) * width as u64 / SIDE;
    let ghost w = width as int;
    let count: usize = pixels.len();
    let mut alpha: u128 = 0;
    let mut sy: u64 = top;
    while sy < bottom
        invariant
            usable(width, height, pixels@),
            pixels@.len() == count,
            w == width,
            top <= sy <= bottom <= height,
            left <= right <= width,
            alpha == area_alpha(pixels@, w, top as int, sy as int, left as int, right as int),
        decreases bottom - sy,
    {
        let ghost above = alpha;
        let mut sx: u64 = left;
        while sx < right
            invariant
                usable(width, height, pixels@),
                pixels@.len() == count,
                w == width,
                top <= sy < bottom <= height,
                left <= sx <= right <= width,
                above == area_alpha(pixels@, w, top as int, sy as int, left as int, right as int),
                alpha == above + row_alpha(pixels@, w, sy as int, left as int, sx as int),
            decreases right - sx,
        {
            proof {
                let h = height as int;
                assert(sy * w + sx < w * h) by (nonlinear_arith)
                    requires
                        0 <= sy <= h - 1,
                        0 <= sx < w,
                ;
                area_alpha_bounded(pixels@, w, top as int, sy as int, left as int, right as int);
                row_alpha_bounded(pixels@, w, sy as int, left as int, sx as int);
                assert((sy - top) * (right - left) <= 0xffff_ffff * 0xffff_ffff) by (nonlinear_arith)
                    requires
                        0 <= sy - top <= 0xffff_ffff,
                        0 <= right - left <= 0xffff_ffff,
                ;
                assert(0 <= sy * w <= w * h) by (nonlinear_arith)
                    requires
                        0 <= sy <= h,
                        0 <= w,
                ;
                assert(w * h * 4 <= usize::MAX);
                assert(h <= w * h && w <= w * h) by (nonlinear_arith)
                    requires
                        1 <= w,
                        1 <= h,
                ;
            }
            let at: usize = (sy as usize * width as usize + sx as usize) * 4 + 3;
            alpha = alpha + pixels[at] as u128;
            sx += 1;
        }
        sy += 1;
    }
    proof {
        area_alpha_bounded(pixels@, w, top as int, bottom as int, left as int, right as int);
        let s = (bottom - top) * (right - left);
        assert(1 <= s <= 0xffff_ffff * 0xffff_ffff) by (nonlinear_arith)
            requires
                1 <= bottom - top <= 0xffff_ffff,
                1 <= right - left <= 0xffff_ffff,
                s == (bottom - top) * (right - left),
        ;
        average_fits(alpha as int, s);
    }
    let samples: u128 = (bottom - top) as u128 * (right - left) as u128;
    ((alpha + samples / 2) / samples) as u8
}

/// A rounded average of bytes is a byte.
proof fn average_fits(sum: int, samples: int)
    requires
        1 <= samples,
        0 <= sum <= 255 * samples,
    ensures
        0 <= (sum + samples / 2) / samples <= 255,
{
    assert((sum + samples / 2) / samples <= 255) by (nonlinear_arith)
        requires
            1 <= samples,
            0 <= sum <= 255 * samples,
    ;
    assert(0 <= (sum + samples / 2) / samples) by (nonlinear_arith)
        requires
            1 <= samples,
            0 <= sum,
    ;
}

/// The icon that a picture makes.
pub fn template(width: u32, height: u32, pixels: &Vec<u8>) -> (r: Vec<u8>)
    requires
        usable(width, height, pixels@),
    ensures
        r@ == icon_of(pixels@, width as int, height as int),
{
    let mut rgba: Vec<u8> = Vec::new();
    let mut y: u64 = 0;
    while y < SIDE
        invariant
            usable(width, height, pixels@),
            y <= SIDE,
            rgba@ =~= icon_of(pixels@, width as int, height as int).take(y * SIDE * 4),
        decreases SIDE - y,
    {
        let mut x: u64 = 0;
        while x < SIDE
            invariant
                usable(width, height, pixels@),
                y < SIDE,
                x <= SIDE,
                rgba@ =~= icon_of(pixels@, width as int, height as int).take((y * SIDE + x) * 4),
            decreases SIDE - x,
        {
            let alpha = alpha_at(pixels, width, height, x, y);
            let ghost n = (y * SIDE + x) * 4;
            let ghost all = icon_of(pixels@, width as int, height as int);
            rgba.push(0);
            rgba.push(0);
            rgba.push(0);
            rgba.push(alpha);
            assert((n + 3) / 4 / 36 == y && (n + 3) / 4 % 36 == x && (n + 3) % 4 == 3);
            assert(n % 4 == 0 && (n + 1) % 4 == 1 && (n + 2) % 4 == 2);
            assert(all[n] == 0 && all[n + 1] == 0 && all[n + 2] == 0 && all[n + 3] == alpha);
            x += 1;
        }
        y += 1;
    }
    rgba
}

/// The icon that the bytes of a picture make, if the picture can be made one.
pub open spec fn icon_of_picture(picture: Option<(u32, u32, u8, u8, Seq<u8>)>) -> Option<Seq<u8>> {
    match picture {
        Some((width, height, layout, depth, pixels)) => if layout == RGBA && depth == DEPTH && usable(
            width,
            height,
            pixels,
        ) {
            Some(icon_of(pixels, width as int, height as int))
        } else {
            None
        },
        None => None,
    }
}

/// The icon that the bytes of a picture make, if the picture can be made one.
pub fn template_rgba(bytes: &[u8]) -> (r: Option<Vec<u8>>)
    ensures
        match r {
            Some(icon) => icon_of_picture(picture_of(bytes@)) == Some(icon@),
            None => icon_of_picture(picture_of(bytes@)) is None,
        },
{
    match decode(bytes) {
        Some((width, height, layout, depth, pixels)) => {
            assert(width * height <= 0xffff_ffff * 0xffff_ffff) by (nonlinear_arith)
                requires
                    width <= 0xffff_ffff,
                    height <= 0xffff_ffff,
            ;
            if layout == RGBA && depth == DEPTH && SIDE <= width as u64 && SIDE <= height as u64 && width as u128
                * height as u128 * 4 <= pixels.len() as u128 {
                Some(template(width, height, &pixels))
            } else {
                None
            }
        },
        None => None,
    }
}

// ---------------------------------------------------------------- laws

/// The icon is a mask: it has no color of its own.
pub proof fn icons_are_masks(pixels: Seq<u8>, width: int, height: int, i: int)
    requires
        0 <= i < SIDE * SIDE * 4,
        i % 4 != 3,
    ensures
        icon_of(pixels, width, height)[i] == 0,
        icon_of(pixels, width, height).len() == SIDE * SIDE * 4,
{
}

} // verus!
