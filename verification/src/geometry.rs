//! Geometry primitives: positions, rectangles, linear interpolation and the
//! quadratic easing curves.
//!
//! Animation progress is a value in `0..=1000` (thousandths of completion);
//! the easing curves map that range onto itself.

use vstd::prelude::*;

verus! {

use vstd::arithmetic::div_mod::lemma_div_is_ordered;

/// A cell position on the terminal grid.
#[derive(Clone, Copy, Debug, PartialEq, Eq, Structural)]
pub struct Position {
    pub x: u16,
    pub y: u16,
}

impl Position {
    pub fn new(x: u16, y: u16) -> (p: Position)
        ensures
            p.x == x,
            p.y == y,
    {
        Position { x, y }
    }
}

/// An axis-aligned rectangle of terminal cells.
#[derive(Clone, Copy, Debug, PartialEq, Eq, Structural)]
pub struct Rect {
    pub x: u16,
    pub y: u16,
    pub width: u16,
    pub height: u16,
}

impl Rect {
    /// A rectangle is well formed when its far edges still fit in the
    /// coordinate type.
    pub open spec fn wf(self) -> bool {
        self.x + self.width <= u16::MAX && self.y + self.height <= u16::MAX
    }

    /// One past the right-most column, as a mathematical integer.
    pub open spec fn spec_right(self) -> int {
        self.x + self.width
    }

    /// One past the bottom-most row, as a mathematical integer.
    pub open spec fn spec_bottom(self) -> int {
        self.y + self.height
    }

    pub fn new(x: u16, y: u16, width: u16, height: u16) -> (r: Rect)
        ensures
            r == (Rect { x, y, width, height }),
    {
        Rect { x, y, width, height }
    }

    /// One past the right-most column (widened so it cannot overflow).
    pub fn right(&self) -> (r: u32)
        ensures
            r == self.spec_right(),
    {
        self.x as u32 + self.width as u32
    }

    /// One past the bottom-most row (widened so it cannot overflow).
    pub fn bottom(&self) -> (r: u32)
        ensures
            r == self.spec_bottom(),
    {
        self.y as u32 + self.height as u32
    }

    /// Whether the rectangle covers no cells.
    pub fn is_empty(&self) -> (r: bool)
        ensures
            r == (self.width == 0 || self.height == 0),
    {
        self.width == 0 || self.height == 0
    }
}

impl Default for Rect {
    /// The empty rectangle at the origin.
    fn default() -> (r: Rect)
        ensures
            r == (Rect { x: 0u16, y: 0u16, width: 0u16, height: 0u16 }),
    {
        Rect { x: 0, y: 0, width: 0, height: 0 }
    }
}

/// Division by 1000 that rounds to the nearest integer, halves away from
/// zero.
pub open spec fn spec_round_div_1000(n: int) -> int {
    if n >= 0 {
        (n + 500) / 1000
    } else {
        -((-n + 500) / 1000)
    }
}

/// Linear interpolation from `a` to `b` by `t` thousandths, rounded to the
/// nearest integer.
pub open spec fn spec_lerp(a: int, b: int, t: int) -> int {
    a + spec_round_div_1000((b - a) * t)
}

/// Rounding never moves a value past the endpoints of the interpolation.
pub proof fn lemma_lerp_bounds(a: int, b: int, t: int)
    requires
        0 <= t <= 1000,
    ensures
        a <= b ==> a <= spec_lerp(a, b, t) <= b,
        a > b ==> b <= spec_lerp(a, b, t) <= a,
        t == 0 ==> spec_lerp(a, b, t) == a,
        t == 1000 ==> spec_lerp(a, b, t) == b,
{
    let d = b - a;
    if d >= 0 {
        assert(0 <= d * t <= d * 1000) by (nonlinear_arith)
            requires 0 <= t <= 1000 && d >= 0;
        assert((d * t + 500) / 1000 >= 0) by {
            lemma_div_is_ordered(0, d * t + 500, 1000);
        }
        assert((d * t + 500) / 1000 <= d) by {
            lemma_div_is_ordered(d * t + 500, d * 1000 + 500, 1000);
            assert((d * 1000 + 500) / 1000 == d) by (nonlinear_arith);
        }
        if t == 1000 {
            assert((d * 1000 + 500) / 1000 == d) by (nonlinear_arith);
        }
    } else {
        let nd = -d;
        assert(0 <= nd * t <= nd * 1000) by (nonlinear_arith)
            requires 0 <= t <= 1000 && nd >= 0;
        assert(-(d * t) == nd * t) by (nonlinear_arith)
            requires nd == -d;
        assert((nd * t + 500) / 1000 >= 0) by {
            lemma_div_is_ordered(0, nd * t + 500, 1000);
        }
        assert((nd * t + 500) / 1000 <= nd) by {
            lemma_div_is_ordered(nd * t + 500, nd * 1000 + 500, 1000);
            assert((nd * 1000 + 500) / 1000 == nd) by (nonlinear_arith);
        }
        if t == 1000 {
            assert((nd * 1000 + 500) / 1000 == nd) by (nonlinear_arith);
        }
    }
}

/// Linear interpolation between two coordinates by `t` thousandths, with
/// round-to-nearest. The result always lies between `a` and `b` inclusive.
pub fn lerp(a: i32, b: i32, t: u16) -> (r: i32)
    requires
        t <= 1000,
        -1_000_000 <= a <= 1_000_000,
        -1_000_000 <= b <= 1_000_000,
    ensures
        r == spec_lerp(a as int, b as int, t as int),
        a <= b ==> a <= r <= b,
        a > b ==> b <= r <= a,
{
    proof {
        lemma_lerp_bounds(a as int, b as int, t as int);
    }
    let d: i64 = b as i64 - a as i64;
    let n: i64 = d * t as i64;
    let rounded: i64 = if n >= 0 {
        (n + 500) / 1000
    } else {
        -((-n + 500) / 1000)
    };
    proof {
        assert(-2_000_000_000 <= n <= 2_000_000_000) by (nonlinear_arith)
            requires n == d * t && -2_000_000 <= d <= 2_000_000 && 0 <= t <= 1000;
        assert(rounded == spec_round_div_1000(n as int));
    }
    a + rounded as i32
}

/// Quadratic ease-in: starts slowly and accelerates. Maps `0..=1000` onto
/// `0..=1000`.
pub open spec fn spec_ease_in_quad(t: int) -> int {
    t * t / 1000
}

/// Quadratic ease-out: starts quickly and decelerates. Maps `0..=1000` onto
/// `0..=1000`.
pub open spec fn spec_ease_out_quad(t: int) -> int {
    t * (2000 - t) / 1000
}

pub proof fn lemma_ease_in_quad_bounds(t: int)
    requires
        0 <= t <= 1000,
    ensures
        0 <= spec_ease_in_quad(t) <= 1000,
        t == 0 ==> spec_ease_in_quad(t) == 0,
        t == 1000 ==> spec_ease_in_quad(t) == 1000,
{
    assert(0 <= t * t <= 1_000_000) by (nonlinear_arith)
        requires 0 <= t <= 1000;
    lemma_div_is_ordered(0, t * t, 1000);
    lemma_div_is_ordered(t * t, 1_000_000, 1000);
}

pub proof fn lemma_ease_out_quad_bounds(t: int)
    requires
        0 <= t <= 1000,
    ensures
        0 <= spec_ease_out_quad(t) <= 1000,
        t == 0 ==> spec_ease_out_quad(t) == 0,
        t == 1000 ==> spec_ease_out_quad(t) == 1000,
{
    assert(0 <= t * (2000 - t) <= 1_000_000) by (nonlinear_arith)
        requires 0 <= t <= 1000;
    lemma_div_is_ordered(0, t * (2000 - t), 1000);
    lemma_div_is_ordered(t * (2000 - t), 1_000_000, 1000);
}

/// Ease-in is monotonic, non-decreasing on `0..=1000`.
pub proof fn lemma_ease_in_quad_monotonic(t1: int, t2: int)
    requires
        0 <= t1 <= t2 <= 1000,
    ensures
        spec_ease_in_quad(t1) <= spec_ease_in_quad(t2),
{
    assert(t1 * t1 <= t2 * t2) by (nonlinear_arith)
        requires 0 <= t1 <= t2;
    lemma_div_is_ordered(t1 * t1, t2 * t2, 1000);
}

/// Ease-out is monotonic, non-decreasing on `0..=1000`.
pub proof fn lemma_ease_out_quad_monotonic(t1: int, t2: int)
    requires
        0 <= t1 <= t2 <= 1000,
    ensures
        spec_ease_out_quad(t1) <= spec_ease_out_quad(t2),
{
    assert(t1 * (2000 - t1) <= t2 * (2000 - t2)) by (nonlinear_arith)
        requires 0 <= t1 <= t2 <= 1000;
    lemma_div_is_ordered(t1 * (2000 - t1), t2 * (2000 - t2), 1000);
}

/// The two curves are a near-symmetric pair: integer division makes
/// `ease_out(t)` and `1000 - ease_in(1000 - t)` agree up to one thousandth.
pub proof fn lemma_ease_quad_symmetry(t: int)
    requires
        0 <= t <= 1000,
    ensures
        spec_ease_out_quad(t) <= 1000 - spec_ease_in_quad(1000 - t) <= spec_ease_out_quad(t) + 1,
{
    let s = 1000 - t;
    assert(s * s == 1_000_000 - t * (2000 - t)) by (nonlinear_arith)
        requires s == 1000 - t;
    let a = t * (2000 - t);
    assert(0 <= a <= 1_000_000) by (nonlinear_arith)
        requires a == t * (2000 - t) && 0 <= t <= 1000;
    // ease_in(s) == (1_000_000 - a) / 1000; relate the two integer divisions.
    assert(a == 1000 * (a / 1000) + a % 1000) by {
        vstd::arithmetic::div_mod::lemma_fundamental_div_mod(a, 1000);
    }
    let q = a / 1000;
    let r = a % 1000;
    assert(0 <= r < 1000);
    if r == 0 {
        assert((1_000_000 - a) / 1000 == 1000 - q) by (nonlinear_arith)
            requires a == 1000 * q && 0 <= a <= 1_000_000;
    } else {
        assert((1_000_000 - a) / 1000 == 999 - q) by (nonlinear_arith)
            requires a == 1000 * q + r && 0 < r < 1000 && 0 <= a <= 1_000_000;
    }
}

/// Quadratic ease-in easing of a progress value in thousandths.
pub fn ease_in_quad(t: u16) -> (r: u16)
    requires
        t <= 1000,
    ensures
        r == spec_ease_in_quad(t as int),
        r <= 1000,
{
    proof {
        lemma_ease_in_quad_bounds(t as int);
    }
    let prod: u32 = t as u32 * t as u32;
    (prod / 1000) as u16
}

/// Quadratic ease-out easing of a progress value in thousandths.
pub fn ease_out_quad(t: u16) -> (r: u16)
    requires
        t <= 1000,
    ensures
        r == spec_ease_out_quad(t as int),
        r <= 1000,
{
    proof {
        lemma_ease_out_quad_bounds(t as int);
    }
    let prod: u32 = t as u32 * (2000 - t) as u32;
    (prod / 1000) as u16
}

/// The rectangle of size `w` by `h` whose top-left corner sits at the signed
/// position `(px, py)`, clipped against `frame`. Empty intersections collapse
/// to the zero rectangle at the origin.
pub open spec fn spec_clip(px: int, py: int, w: int, h: int, frame: Rect) -> Rect {
    let lo_x = vstd::math::max(px, frame.x as int);
    let hi_x = vstd::math::min(px + w, frame.spec_right());
    let lo_y = vstd::math::max(py, frame.y as int);
    let hi_y = vstd::math::min(py + h, frame.spec_bottom());
    if lo_x < hi_x && lo_y < hi_y {
        Rect {
            x: lo_x as u16,
            y: lo_y as u16,
            width: (hi_x - lo_x) as u16,
            height: (hi_y - lo_y) as u16,
        }
    } else {
        Rect { x: 0, y: 0, width: 0, height: 0 }
    }
}

/// Clip a signed, possibly partially off-screen rectangle to `frame`.
pub fn clip_to_frame(px: i32, py: i32, w: u16, h: u16, frame: Rect) -> (r: Rect)
    requires
        frame.wf(),
        -10_000_000 <= px <= 10_000_000,
        -10_000_000 <= py <= 10_000_000,
    ensures
        r == spec_clip(px as int, py as int, w as int, h as int, frame),
        r.wf(),
        r.x >= frame.x || (r.x == 0 && r.width == 0),
        r.spec_right() <= frame.spec_right() || r.width == 0,
        r.y >= frame.y || (r.y == 0 && r.height == 0),
        r.spec_bottom() <= frame.spec_bottom() || r.height == 0,
{
    let lo_x: i32 = if px >= frame.x as i32 { px } else { frame.x as i32 };
    let hi_x_wide: i32 = px + w as i32;
    let fr: i32 = frame.x as i32 + frame.width as i32;
    let hi_x: i32 = if hi_x_wide <= fr { hi_x_wide } else { fr };
    let lo_y: i32 = if py >= frame.y as i32 { py } else { frame.y as i32 };
    let hi_y_wide: i32 = py + h as i32;
    let fb: i32 = frame.y as i32 + frame.height as i32;
    let hi_y: i32 = if hi_y_wide <= fb { hi_y_wide } else { fb };
    if lo_x < hi_x && lo_y < hi_y {
        Rect {
            x: lo_x as u16,
            y: lo_y as u16,
            width: (hi_x - lo_x) as u16,
            height: (hi_y - lo_y) as u16,
        }
    } else {
        Rect { x: 0, y: 0, width: 0, height: 0 }
    }
}

} // verus!
