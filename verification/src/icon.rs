//! The picture of the tray icon: a blue disc with a white pointer on it.

use vstd::prelude::*;

verus! {

/// Width and height of the picture.
pub const ICON_SIZE: usize = 32;

/// The pixel is on the disc. Distances are counted in half pixels from the
/// middle of the picture.
pub open spec fn on_disc(x: int, y: int) -> bool {
    (2 * x - 31) * (2 * x - 31) + (2 * y - 31) * (2 * y - 31) <= 31 * 31
}

/// The pixel is on the pointer: a slanted band, nine pixels wide for every
/// twenty down, in the middle of the picture.
pub open spec fn on_pointer(x: int, y: int) -> bool {
    &&& -4 < 2 * y - 31 < 16
    &&& -240 < 20 * (2 * x - 31) - 9 * (2 * y - 31) < -40
}

/// Red, green, blue and opacity of a pixel.
pub open spec fn pixel(x: int, y: int) -> Seq<u8> {
    if !on_disc(x, y) {
        seq![0u8, 0, 0, 0]
    } else if on_pointer(x, y) {
        seq![0xFFu8, 0xFF, 0xFF, 0xFF]
    } else {
        seq![0x00u8, 0x78, 0xD7, 0xFF]
    }
}

/// The bytes of the picture up to pixel `k`, row by row from the top.
pub open spec fn pixels(k: int) -> Seq<u8>
    decreases k,
{
    if k <= 0 {
        seq![]
    } else {
        pixels(k - 1) + pixel((k - 1) % 32, (k - 1) / 32)
    }
}

/// The picture, row by row from the top, four bytes per pixel.
pub fn icon_rgba() -> (r: Vec<u8>)
    ensures
        r@ == pixels(1024),
        r@.len() == 4096,
{
    let mut rgba: Vec<u8> = Vec::new();
    let mut k: i32 = 0;
    while k < 1024
        invariant
            0 <= k <= 1024,
            rgba@ == pixels(k as int),
            rgba@.len() == 4 * k,
        decreases 1024 - k,
    {
        let x: i32 = 2 * (k % 32) - 31;
        let y: i32 = 2 * (k / 32) - 31;
        let ghost before = rgba@;
        assert(0 <= x * x <= 961) by (nonlinear_arith)
            requires
                -31 <= x <= 31,
        ;
        assert(0 <= y * y <= 961) by (nonlinear_arith)
            requires
                -31 <= y <= 31,
        ;
        if x * x + y * y > 961 {
            rgba.push(0);
            rgba.push(0);
            rgba.push(0);
            rgba.push(0);
        } else if y > -4 && y < 16 && 20 * x - 9 * y > -240 && 20 * x - 9 * y < -40 {
            rgba.push(0xFF);
            rgba.push(0xFF);
            rgba.push(0xFF);
            rgba.push(0xFF);
        } else {
            rgba.push(0x00);
            rgba.push(0x78);
            rgba.push(0xD7);
            rgba.push(0xFF);
        }
        assert(rgba@ =~= before + pixel(k as int % 32, k as int / 32));
        k = k + 1;
    }
    rgba
}

proof fn lemma_pixels_len(k: int)
    requires
        0 <= k,
    ensures
        pixels(k).len() == 4 * k,
    decreases k,
{
    if k > 0 {
        lemma_pixels_len(k - 1);
    }
}

/// The picture holds its pixels row by row: the four bytes of the pixel at `x`,
/// `y` stand behind those of the rows above and of the pixels left of it.
pub proof fn law_picture_goes_row_by_row(x: int, y: int, k: int)
    requires
        0 <= x < 32,
        0 <= y < 32,
        32 * y + x < k <= 1024,
    ensures
        pixels(k).subrange(4 * (32 * y + x), 4 * (32 * y + x) + 4) == pixel(x, y),
    decreases k,
{
    let at = 32 * y + x;
    lemma_pixels_len(k);
    lemma_pixels_len(k - 1);
    if k - 1 == at {
        assert(at % 32 == x && at / 32 == y);
        assert(pixels(k).subrange(4 * at, 4 * at + 4) =~= pixel(x, y));
    } else {
        law_picture_goes_row_by_row(x, y, k - 1);
        assert(pixels(k).subrange(4 * at, 4 * at + 4) =~= pixels(k - 1).subrange(
            4 * at,
            4 * at + 4,
        ));
    }
}

/// The disc looks the same from all four sides, and a pixel nearer to the middle
/// than one on it is on it too.
pub proof fn law_disc_is_round(x: int, y: int, nearer: int)
    ensures
        on_disc(x, y) == on_disc(31 - x, y),
        on_disc(x, y) == on_disc(x, 31 - y),
        on_disc(x, y) == on_disc(y, x),
        on_disc(x, y) && x <= nearer <= 15 ==> on_disc(nearer, y),
{
    let a = 2 * x - 31;
    let b = 2 * y - 31;
    let c = 2 * nearer - 31;
    assert((-a) * (-a) == a * a) by (nonlinear_arith);
    assert((-b) * (-b) == b * b) by (nonlinear_arith);
    assert(2 * (31 - x) - 31 == -a && 2 * (31 - y) - 31 == -b);
    if x <= nearer <= 15 {
        assert(c * c <= a * a) by (nonlinear_arith)
            requires
                a <= c <= -1,
        ;
    }
}

/// Every pixel is either clear or wholly opaque, and the pointer is drawn on the
/// disc only.
pub proof fn law_pixels_are_clear_or_opaque(x: int, y: int)
    ensures
        pixel(x, y).len() == 4,
        on_disc(x, y) <==> pixel(x, y)[3] == 0xFF,
        !on_disc(x, y) <==> pixel(x, y)[3] == 0,
        pixel(x, y)[0] == 0xFF <==> on_disc(x, y) && on_pointer(x, y),
{
}

} // verus!
