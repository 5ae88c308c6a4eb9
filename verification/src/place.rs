//! Where windows go on the screen.

use crate::scroll::clamp_int;
use vstd::prelude::*;

verus! {

/// A rectangle on the screen.
#[derive(Debug, Clone, Copy, PartialEq, Eq, Structural)]
pub struct ScreenRect {
    pub left: i32,
    pub top: i32,
    pub right: i32,
    pub bottom: i32,
}

impl ScreenRect {
    /// The point is inside; the right and bottom edge are not.
    pub open spec fn has(self, x: i32, y: i32) -> bool {
        self.left <= x < self.right && self.top <= y < self.bottom
    }

    /// Whether the point is inside; the right and bottom edge are not.
    pub fn contains(&self, x: i32, y: i32) -> (r: bool)
        ensures
            r == self.has(x, y),
    {
        x >= self.left && x < self.right && y >= self.top && y < self.bottom
    }
}

/// Whether the pointer is inside a window, if the window's place is known.
pub fn cursor_inside_window(x: i32, y: i32, window: Option<ScreenRect>) -> (r: bool)
    ensures
        r == (window is Some && (window->0).has(x, y)),
{
    match window {
        Some(a) => a.contains(x, y),
        None => false,
    }
}

/// Where a window of the given size begins so that it lies between `low` and
/// `high`, as near to `at` as can be. One that is too large begins at `low`.
pub open spec fn fit(at: int, low: int, high: int, size: int) -> int {
    clamp_int(at, low, if high - size < low { low } else { high - size })
}

fn fit_between(at: i32, low: i32, high: i32, size: i32) -> (r: i32)
    requires
        0 <= size,
    ensures
        r == fit(at as int, low as int, high as int, size as int),
{
    let far: i64 = high as i64 - size as i64;
    let last: i32 = if far < low as i64 { low } else { far as i32 };
    if at < low {
        low
    } else if at > last {
        last
    } else {
        at
    }
}

/// Where a window of `w` by `h` pixels opens: at the point, moved so that it
/// lies in the work area, if that is known.
pub fn clamp_to_work_area(x: i32, y: i32, w: i32, h: i32, work: Option<ScreenRect>) -> (r: (
    i32,
    i32,
))
    requires
        0 <= w,
        0 <= h,
    ensures
        match work {
            Some(a) => {
                &&& r.0 == fit(x as int, a.left as int, a.right as int, w as int)
                &&& r.1 == fit(y as int, a.top as int, a.bottom as int, h as int)
            },
            None => r == (x, y),
        },
{
    match work {
        Some(a) => (fit_between(x, a.left, a.right, w), fit_between(y, a.top, a.bottom, h)),
        None => (x, y),
    }
}

/// A window that fits lies inside the work area.
pub proof fn law_fitting_window_is_visible(at: int, low: int, high: int, size: int)
    requires
        0 <= size <= high - low,
    ensures
        low <= fit(at, low, high, size),
        fit(at, low, high, size) + size <= high,
        low <= at <= high - size ==> fit(at, low, high, size) == at,
{
}

/// Where a submenu of `w` by `h` pixels opens: at `x_right`, the right edge of
/// its owner, or at the owner's left when only there is room; `down` pixels
/// below the owner's top, moved into the work area.
pub open spec fn beside(
    owner: ScreenRect,
    x_right: int,
    down: int,
    w: int,
    h: int,
    work: ScreenRect,
) -> (int, int) {
    (
        if x_right + w > work.right && owner.left - w >= work.left {
            owner.left - w
        } else {
            x_right
        },
        fit(owner.top + down, work.top as int, work.bottom as int, h),
    )
}

/// Where a submenu opens.
pub fn place_submenu(
    owner: ScreenRect,
    x_right: i32,
    down: i32,
    w: i32,
    h: i32,
    work: ScreenRect,
) -> (r: (i32, i32))
    requires
        0 <= w,
        0 <= h,
        i32::MIN <= owner.top + down <= i32::MAX,
    ensures
        r.0 == beside(owner, x_right as int, down as int, w as int, h as int, work).0,
        r.1 == beside(owner, x_right as int, down as int, w as int, h as int, work).1,
{
    let x: i32 = if x_right as i64 + w as i64 > work.right as i64 && owner.left as i64 - w as i64
        >= work.left as i64 {
        owner.left - w
    } else {
        x_right
    };
    (x, fit_between(owner.top + down, work.top, work.bottom, h))
}

/// A submenu is never cut off at the right when there is room on the left.
pub proof fn law_submenu_is_not_cut_off(
    owner: ScreenRect,
    x_right: int,
    down: int,
    w: int,
    h: int,
    work: ScreenRect,
)
    requires
        0 <= w,
        owner.left <= work.right,
        owner.left - w >= work.left,
    ensures
        beside(owner, x_right, down, w, h, work).0 + w <= work.right,
{
}

/// A length of `v` points at `dpi` dots per inch, in pixels rounded to the
/// nearest; half a pixel is rounded up.
pub open spec fn dip_px(v: int, dpi: int) -> int {
    (2 * v * dpi + 96) / 192
}

/// A length of `v` points at `dpi` dots per inch, in pixels.
pub fn px_from_dip(v: i128, dpi: u32) -> (r: i32)
    requires
        0 <= v,
        dip_px(v as int, dpi as int) <= i32::MAX,
        v <= 0x1_0000_0000_0000,
    ensures
        r == dip_px(v as int, dpi as int),
{
    assert(0 <= v * dpi <= 0x1_0000_0000_0000 * 0x1_0000_0000) by (nonlinear_arith)
        requires
            0 <= v <= 0x1_0000_0000_0000,
            0 <= dpi <= 0xFFFF_FFFF,
    ;
    assert(2 * v * dpi == 2 * (v * dpi)) by (nonlinear_arith);
    let p: i128 = v * dpi as i128;
    ((2 * p + 96) / 192) as i32
}

/// The point, in whole points, in which pixel `p` lies at `dpi` dots per inch.
pub open spec fn px_dip(p: int, dpi: int) -> int {
    (p * 96) / dpi
}

/// The point in which pixel `p` lies at `dpi` dots per inch.
pub fn dip_from_px(p: i32, dpi: u32) -> (r: i128)
    requires
        dpi > 0,
    ensures
        r == px_dip(p as int, dpi as int),
{
    let n: i64 = p as i64 * 96;
    let d: i64 = dpi as i64;
    if n >= 0 {
        (n / d) as i128
    } else {
        let m: i64 = -n;
        let up: i64 = if m % d == 0 { m / d } else { m / d + 1 };
        proof {
            vstd::arithmetic::div_mod::lemma_fundamental_div_mod(m as int, d as int);
            let q = up as int;
            let r = d * q - m;
            assert(d * (m / d) + m % d == m);
            assert(d * (m / d + 1) == d * (m / d) + d) by (nonlinear_arith);
            assert(0 <= r < d);
            assert(n == d * (-q) + r) by (nonlinear_arith)
                requires
                    r == d * q - m,
                    n == -m,
            ;
            vstd::arithmetic::div_mod::lemma_fundamental_div_mod_converse(
                n as int,
                d as int,
                -q,
                r,
            );
        }
        (-up) as i128
    }
}

/// The two signed halves of a message's position.
pub open spec fn signed_half(v: int) -> int {
    if v >= 0x8000 {
        v - 0x10000
    } else {
        v
    }
}

/// The position in a message.
pub open spec fn point_of(lparam: int) -> (int, int) {
    (signed_half(lparam % 0x10000), signed_half(lparam / 0x10000))
}

/// Two numbers as the halves of one.
pub open spec fn joined(lo: int, hi: int) -> int {
    lo % 0x10000 + (hi % 0x10000) * 0x10000
}

/// The position that a mouse message carries: two signed sixteen bit numbers.
pub fn point_from_lparam(lparam: u32) -> (r: (i32, i32))
    ensures
        r.0 == point_of(lparam as int).0,
        r.1 == point_of(lparam as int).1,
{
    let low: i32 = (lparam % 0x10000) as i32;
    let high: i32 = (lparam / 0x10000) as i32;
    (
        if low >= 0x8000 { low - 0x10000 } else { low },
        if high >= 0x8000 { high - 0x10000 } else { high },
    )
}

/// Two numbers as the halves of one, each cut to sixteen bits.
pub fn makelong(lo: i32, hi: i32) -> (r: u32)
    ensures
        r == joined(lo as int, hi as int),
{
    let l: u32 = low_bits(lo);
    let h: u32 = low_bits(hi);
    l + h * 0x10000
}

fn low_bits(v: i32) -> (r: u32)
    ensures
        r == v as int % 0x10000,
        r < 0x10000,
{
    if v >= 0 {
        (v % 0x10000) as u32
    } else {
        let m: i64 = -(v as i64 + 1);
        (0xFFFF - m % 0x10000) as u32
    }
}

/// Of a rectangle that is not empty, the top left corner is inside, and so are
/// exactly the points between it and the edges right and bottom, which are not:
/// two rectangles side by side share no point and leave none out.
pub proof fn law_neighbours_share_no_point(a: ScreenRect, b: ScreenRect, x: i32, y: i32)
    requires
        a.right == b.left,
        a.top == b.top,
        a.bottom == b.bottom,
        a.left <= a.right <= b.right,
    ensures
        !(a.has(x, y) && b.has(x, y)),
        a.has(x, y) || b.has(x, y) <==> (ScreenRect { right: b.right, ..a }).has(x, y),
        a.left < a.right && a.top < a.bottom ==> a.has(a.left, a.top) && a.has(
            (a.right - 1) as i32,
            (a.bottom - 1) as i32,
        ),
        !a.has(a.right, y) && !a.has(x, a.bottom),
        a.has(x, y) ==> a.left <= x && a.top <= y,
{
}

/// A window is moved no further than it must be: no other place where it lies in
/// the work area is nearer to the point. One that is too large begins at the near
/// edge.
pub proof fn law_window_is_moved_no_further(at: int, low: int, high: int, size: int, other: int)
    requires
        low <= other,
        0 <= size,
        other + size <= high,
    ensures
        at <= fit(at, low, high, size) ==> fit(at, low, high, size) <= other || at >= other,
        at >= fit(at, low, high, size) ==> fit(at, low, high, size) >= other || at <= other,
        fit(fit(at, low, high, size), low, high, size) == fit(at, low, high, size),
{
}

/// A window larger than the work area begins at its near edge.
pub proof fn law_large_window_begins_at_the_edge(at: int, low: int, high: int, size: int)
    requires
        size >= high - low,
    ensures
        fit(at, low, high, size) == low,
{
}

/// A submenu opens at the right of its owner wherever it has room there, or has
/// none at the left either; else it ends where the owner begins. Up and down it
/// lies in the work area, as near to its line as can be.
pub proof fn law_submenu_opens_beside_its_owner(
    owner: ScreenRect,
    x_right: int,
    down: int,
    w: int,
    h: int,
    work: ScreenRect,
)
    requires
        0 <= w,
        0 <= h,
    ensures
        ({
            let (x, y) = beside(owner, x_right, down, w, h, work);
            &&& x_right + w <= work.right ==> x == x_right
            &&& owner.left - w < work.left ==> x == x_right
            &&& x == x_right || x + w == owner.left
            &&& h <= work.bottom - work.top ==> work.top <= y && y + h <= work.bottom
            &&& work.top <= owner.top + down && owner.top + down + h <= work.bottom ==> y
                == owner.top + down
        }),
{
}

/// The pixels of a length are off by half a pixel at most, and at the ordinary
/// 96 dots per inch they are the points; more dots never make a length shorter.
pub proof fn law_lengths_scale_with_the_screen(v: int, dpi: int, more: int)
    requires
        0 <= v,
        0 < dpi <= more,
    ensures
        -96 <= 192 * dip_px(v, dpi) - 2 * (v * dpi) <= 96,
        dip_px(v, 96) == v,
        dip_px(0, dpi) == 0,
        dip_px(v, dpi) <= dip_px(v, more),
        px_dip(v, 96) == v,
        px_dip(v, dpi) * dpi <= v * 96 < (px_dip(v, dpi) + 1) * dpi,
{
    assert(2 * v * dpi == 2 * (v * dpi)) by (nonlinear_arith);
    assert(2 * v * more == 2 * (v * more)) by (nonlinear_arith);
    assert(v * dpi <= v * more) by (nonlinear_arith)
        requires
            0 <= v,
            dpi <= more,
    ;
    assert(2 * 0 * dpi == 0) by (nonlinear_arith);
    assert(2 * v * 96 == 192 * v);
    let n = v * 96;
    vstd::arithmetic::div_mod::lemma_fundamental_div_mod(n, dpi);
    let q = n / dpi;
    assert(q * dpi == dpi * q) by (nonlinear_arith);
    assert((q + 1) * dpi == q * dpi + dpi) by (nonlinear_arith);
}

/// A position put together from two coordinates that sixteen bits hold is read
/// back as these two, whatever their signs.
pub proof fn law_positions_are_read_back(x: int, y: int)
    requires
        -0x8000 <= x < 0x8000,
        -0x8000 <= y < 0x8000,
    ensures
        point_of(joined(x, y)) == (x, y),
        0 <= joined(x, y) <= u32::MAX,
        x >= 0 ==> joined(x, 0) == x,
{
}

} // verus!
