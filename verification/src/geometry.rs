//! Integer plane geometry: points, rectangles, distance tests and cubic
//! Bezier evaluation at rational parameters.
//!
//! All coordinates are integers in one logical unit space. Every function
//! here is exact: distances are compared by their squares and a curve
//! parameter is a fraction `j / n`, so no result depends on rounding other
//! than the stated floor of a curve point onto the integer lattice.

use vstd::arithmetic::div_mod::{
    lemma_div_is_ordered, lemma_div_multiples_vanish, lemma_fundamental_div_mod,
    lemma_fundamental_div_mod_converse,
};
use vstd::prelude::*;

verus! {

/// A point, or a displacement between two points, on the integer lattice.
#[derive(Clone, Copy, Debug, PartialEq, Eq, Structural)]
pub struct Point {
    pub x: i64,
    pub y: i64,
}

/// An axis-aligned rectangle with its left and top edges included and its
/// right and bottom edges excluded.
#[derive(Clone, Copy, Debug, PartialEq, Eq, Structural)]
pub struct Rect {
    pub left: i64,
    pub top: i64,
    pub width: u32,
    pub height: u32,
}

/// Shape centers stay within this distance of the origin on both axes, so
/// that every point derived from a center fits in 64 bits.
pub const CANVAS_LIMIT: i64 = 0x100_0000_0000;

impl Point {
    pub fn new(x: i64, y: i64) -> (p: Point)
        ensures
            p.x == x,
            p.y == y,
    {
        Point { x, y }
    }

    /// The point lies on the canvas: neither coordinate exceeds
    /// `CANVAS_LIMIT` in magnitude.
    pub open spec fn on_canvas(self) -> bool {
        &&& -CANVAS_LIMIT <= self.x <= CANVAS_LIMIT
        &&& -CANVAS_LIMIT <= self.y <= CANVAS_LIMIT
    }

    /// Whether the point lies on the canvas.
    pub fn is_on_canvas(&self) -> (r: bool)
        ensures
            r == self.on_canvas(),
    {
        -CANVAS_LIMIT <= self.x && self.x <= CANVAS_LIMIT && -CANVAS_LIMIT <= self.y && self.y
            <= CANVAS_LIMIT
    }
}

impl Rect {
    /// Half-open containment: `left <= x < left + width` and
    /// `top <= y < top + height`.
    pub open spec fn contains(self, p: Point) -> bool {
        &&& self.left <= p.x < self.left + self.width
        &&& self.top <= p.y < self.top + self.height
    }
}

/// The square of the Euclidean distance between `a` and `b`.
pub open spec fn dist_sq(a: Point, b: Point) -> int {
    (a.x - b.x) * (a.x - b.x) + (a.y - b.y) * (a.y - b.y)
}

/// `a` lies within distance `r` of `b`, the boundary included.
pub open spec fn within(a: Point, b: Point, r: u32) -> bool {
    dist_sq(a, b) <= r * r
}

/// The numerator of one coordinate of a cubic Bezier curve at `t = j / n`:
/// the Bernstein-basis sum scaled by `n^3`.
pub open spec fn bernstein(a0: int, a1: int, a2: int, a3: int, j: int, n: int) -> int {
    let k = n - j;
    k * k * k * a0 + 3 * (k * k * j) * a1 + 3 * (k * j * j) * a2 + j * j * j * a3
}

/// One coordinate of the curve at `t = j / n`, floored to an integer.
pub open spec fn bezier_coord(a0: int, a1: int, a2: int, a3: int, j: int, n: int) -> int {
    bernstein(a0, a1, a2, a3, j, n) / (n * n * n)
}

/// The point of the cubic Bezier curve with anchors `p0`, `p3` and control
/// points `p1`, `p2` at `t = j / n`, each coordinate floored.
pub open spec fn bezier_point(p0: Point, p1: Point, p2: Point, p3: Point, j: int, n: int) -> Point {
    Point {
        x: bezier_coord(p0.x as int, p1.x as int, p2.x as int, p3.x as int, j, n) as i64,
        y: bezier_coord(p0.y as int, p1.y as int, p2.y as int, p3.y as int, j, n) as i64,
    }
}

pub open spec fn min4(a0: int, a1: int, a2: int, a3: int) -> int {
    let m01 = if a0 <= a1 { a0 } else { a1 };
    let m23 = if a2 <= a3 { a2 } else { a3 };
    if m01 <= m23 { m01 } else { m23 }
}

pub open spec fn max4(a0: int, a1: int, a2: int, a3: int) -> int {
    let m01 = if a0 >= a1 { a0 } else { a1 };
    let m23 = if a2 >= a3 { a2 } else { a3 };
    if m01 >= m23 { m01 } else { m23 }
}

proof fn lemma_weights(j: int, n: int)
    requires
        0 <= j <= n,
    ensures
        0 <= (n - j) * (n - j) * (n - j) <= n * n * n,
        0 <= (n - j) * (n - j) * j,
        0 <= (n - j) * j * j,
        0 <= j * j * j <= n * n * n,
        (n - j) * (n - j) * (n - j) + 3 * ((n - j) * (n - j) * j) + 3 * ((n - j) * j * j) + j * j
            * j == n * n * n,
{
    let k = n - j;
    assert(0 <= k * k && 0 <= j * j && 0 <= k * j) by (nonlinear_arith)
        requires
            0 <= k,
            0 <= j,
    ;
    assert(0 <= k * k * k && 0 <= k * k * j && 0 <= k * j * j && 0 <= j * j * j)
        by (nonlinear_arith)
        requires
            0 <= k,
            0 <= j,
            0 <= k * k,
            0 <= j * j,
            0 <= k * j,
    ;
    assert(k * k * k + 3 * (k * k * j) + 3 * (k * j * j) + j * j * j == n * n * n)
        by (nonlinear_arith)
        requires
            k == n - j,
    ;
}

proof fn lemma_scale_between(w: int, a: int, lo: int, hi: int)
    by (nonlinear_arith)
    requires
        0 <= w,
        lo <= a <= hi,
    ensures
        w * lo <= w * a <= w * hi,
{
}

/// The Bernstein sum lies between `n^3` times the least and `n^3` times the
/// greatest of the four values.
pub proof fn lemma_bernstein_bounds(a0: int, a1: int, a2: int, a3: int, j: int, n: int, lo: int, hi: int)
    requires
        0 <= j <= n,
        lo <= a0 <= hi,
        lo <= a1 <= hi,
        lo <= a2 <= hi,
        lo <= a3 <= hi,
    ensures
        (n * n * n) * lo <= bernstein(a0, a1, a2, a3, j, n) <= (n * n * n) * hi,
{
    let k = n - j;
    let w0 = k * k * k;
    let w1 = 3 * (k * k * j);
    let w2 = 3 * (k * j * j);
    let w3 = j * j * j;
    lemma_weights(j, n);
    lemma_scale_between(w0, a0, lo, hi);
    lemma_scale_between(w1, a1, lo, hi);
    lemma_scale_between(w2, a2, lo, hi);
    lemma_scale_between(w3, a3, lo, hi);
    assert((w0 + w1 + w2 + w3) * lo == w0 * lo + w1 * lo + w2 * lo + w3 * lo)
        by (nonlinear_arith);
    assert((w0 + w1 + w2 + w3) * hi == w0 * hi + w1 * hi + w2 * hi + w3 * hi)
        by (nonlinear_arith);
}

/// A curve coordinate never leaves the range spanned by the four values
/// that define it.
pub proof fn lemma_bezier_coord_bounds(a0: int, a1: int, a2: int, a3: int, j: int, n: int)
    requires
        0 < n,
        0 <= j <= n,
    ensures
        min4(a0, a1, a2, a3) <= bezier_coord(a0, a1, a2, a3, j, n) <= max4(a0, a1, a2, a3),
{
    let lo = min4(a0, a1, a2, a3);
    let hi = max4(a0, a1, a2, a3);
    let d = n * n * n;
    let s = bernstein(a0, a1, a2, a3, j, n);
    lemma_weights(n, n);
    assert(0 < d) by (nonlinear_arith)
        requires
            0 < n,
            d == n * n * n,
    ;
    lemma_bernstein_bounds(a0, a1, a2, a3, j, n, lo, hi);
    lemma_div_is_ordered(d * lo, s, d);
    lemma_div_is_ordered(s, d * hi, d);
    lemma_div_multiples_vanish(lo, d);
    lemma_div_multiples_vanish(hi, d);
}

/// At `t = 0` the curve is at its first anchor and at `t = 1` at its last,
/// whatever the control points are.
pub proof fn lemma_bezier_endpoints(p0: Point, p1: Point, p2: Point, p3: Point, n: int)
    requires
        0 < n,
    ensures
        bezier_point(p0, p1, p2, p3, 0, n) == p0,
        bezier_point(p0, p1, p2, p3, n, n) == p3,
{
    lemma_bezier_coord_ends(p0.x as int, p1.x as int, p2.x as int, p3.x as int, n);
    lemma_bezier_coord_ends(p0.y as int, p1.y as int, p2.y as int, p3.y as int, n);
}

proof fn lemma_bezier_coord_ends(a0: int, a1: int, a2: int, a3: int, n: int)
    requires
        0 < n,
    ensures
        bezier_coord(a0, a1, a2, a3, 0, n) == a0,
        bezier_coord(a0, a1, a2, a3, n, n) == a3,
{
    let d = n * n * n;
    assert(0 < d) by (nonlinear_arith)
        requires
            0 < n,
            d == n * n * n,
    ;
    assert(bernstein(a0, a1, a2, a3, 0, n) == d * a0) by (nonlinear_arith)
        requires
            d == n * n * n,
            bernstein(a0, a1, a2, a3, 0, n) == n * n * n * a0 + 3 * (n * n * 0) * a1 + 3 * (n * 0
                * 0) * a2 + 0 * 0 * 0 * a3,
    ;
    assert(bernstein(a0, a1, a2, a3, n, n) == d * a3) by (nonlinear_arith)
        requires
            d == n * n * n,
            bernstein(a0, a1, a2, a3, n, n) == 0 * 0 * 0 * a0 + 3 * (0 * 0 * n) * a1 + 3 * (0 * n
                * n) * a2 + n * n * n * a3,
    ;
    lemma_div_multiples_vanish(a0, d);
    lemma_div_multiples_vanish(a3, d);
}

/// Whether `p` lies in `rect`, by half-open containment.
pub fn rect_contains(rect: &Rect, p: Point) -> (r: bool)
    ensures
        r == rect.contains(p),
{
    let right: i128 = rect.left as i128 + rect.width as i128;
    let bottom: i128 = rect.top as i128 + rect.height as i128;
    rect.left <= p.x && (p.x as i128) < right && rect.top <= p.y && (p.y as i128) < bottom
}

/// Whether `a` lies within distance `r` of `b`, decided on squared
/// distances and free of overflow for all inputs.
pub fn within_radius(a: Point, b: Point, r: u32) -> (res: bool)
    ensures
        res == within(a, b, r),
{
    let dx: i128 = a.x as i128 - b.x as i128;
    let dy: i128 = a.y as i128 - b.y as i128;
    let rr: i128 = r as i128;
    if dx > rr || dx < -rr || dy > rr || dy < -rr {
        proof {
            lemma_far_on_one_axis(dx as int, dy as int, rr as int);
        }
        return false;
    }
    proof {
        lemma_square_bound(dx as int, rr as int);
        lemma_square_bound(dy as int, rr as int);
        assert(rr * rr <= 0x1_0000_0000_0000_0000) by (nonlinear_arith)
            requires
                0 <= rr <= 0xffff_ffff,
        ;
    }
    dx * dx + dy * dy <= rr * rr
}

proof fn lemma_far_on_one_axis(dx: int, dy: int, r: int)
    by (nonlinear_arith)
    requires
        0 <= r,
        dx > r || dx < -r || dy > r || dy < -r,
    ensures
        dx * dx + dy * dy > r * r,
{
}

proof fn lemma_square_bound(d: int, r: int)
    by (nonlinear_arith)
    requires
        -r <= d <= r,
    ensures
        0 <= d * d <= r * r,
{
}

/// Floor division of a signed numerator by a positive denominator.
fn floor_div(a: i128, d: i128) -> (q: i128)
    requires
        0 < d,
        i128::MIN < a,
    ensures
        q == a / d,
{
    if a >= 0 {
        a / d
    } else {
        let m: i128 = -a;
        let below: i128 = (m - 1) / d;
        proof {
            let r = (m - 1) % (d as int);
            lemma_fundamental_div_mod(m - 1, d as int);
            assert(a == (-below - 1) * d + (d - r - 1)) by (nonlinear_arith)
                requires
                    m - 1 == d * below + r,
                    a == -m,
            ;
            lemma_fundamental_div_mod_converse(a as int, d as int, -below - 1, d - r - 1);
        }
        -below - 1
    }
}

/// One coordinate of the curve at `t = j / n`.
fn bezier_axis(a0: i64, a1: i64, a2: i64, a3: i64, j: u16, n: u16) -> (c: i64)
    requires
        0 < n,
        j <= n,
    ensures
        c == bezier_coord(a0 as int, a1 as int, a2 as int, a3 as int, j as int, n as int),
{
    let jj: i128 = j as i128;
    let kk: i128 = n as i128 - jj;
    let nn: i128 = n as i128;
    proof {
        lemma_weights(jj as int, nn as int);
        lemma_weights(nn as int, nn as int);
        assert(nn * nn * nn <= 0x1_0000_0000_0000) by (nonlinear_arith)
            requires
                0 <= nn <= 0xffff,
        ;
        assert(0 <= kk * kk <= 0x1_0000_0000 && 0 <= kk * jj <= 0x1_0000_0000 && 0 <= jj * jj
            <= 0x1_0000_0000 && 0 <= nn * nn <= 0x1_0000_0000) by (nonlinear_arith)
            requires
                0 <= kk <= 0xffff,
                0 <= jj <= 0xffff,
                0 <= nn <= 0xffff,
        ;
        assert(0 < nn * nn * nn) by (nonlinear_arith)
            requires
                0 < nn,
        ;
    }
    let d: i128 = nn * nn * nn;
    let w0: i128 = kk * kk * kk;
    let w1: i128 = 3 * (kk * kk * jj);
    let w2: i128 = 3 * (kk * jj * jj);
    let w3: i128 = jj * jj * jj;
    proof {
        lemma_term_bound(w0 as int, a0 as int);
        lemma_term_bound(w1 as int, a1 as int);
        lemma_term_bound(w2 as int, a2 as int);
        lemma_term_bound(w3 as int, a3 as int);
    }
    let s: i128 = w0 * (a0 as i128) + w1 * (a1 as i128) + w2 * (a2 as i128) + w3 * (a3 as i128);
    let q: i128 = floor_div(s, d);
    proof {
        lemma_bezier_coord_bounds(a0 as int, a1 as int, a2 as int, a3 as int, j as int, n as int);
    }
    q as i64
}

proof fn lemma_term_bound(w: int, a: int)
    by (nonlinear_arith)
    requires
        0 <= w <= 0x1_0000_0000_0000,
        -0x8000_0000_0000_0000 <= a <= 0x7fff_ffff_ffff_ffff,
    ensures
        -0x8000_0000_0000_0000_0000_0000_0000 <= w * a <= 0x8000_0000_0000_0000_0000_0000_0000,
{
}

/// The point at `t = j / n` of the cubic Bezier curve with anchors `p0`,
/// `p3` and control points `p1`, `p2`, by Bernstein-basis evaluation.
pub fn cubic_bezier_point(p0: Point, p1: Point, p2: Point, p3: Point, j: u16, n: u16) -> (p: Point)
    requires
        0 < n,
        j <= n,
    ensures
        p == bezier_point(p0, p1, p2, p3, j as int, n as int),
        j == 0 ==> p == p0,
        j == n ==> p == p3,
{
    proof {
        lemma_bezier_endpoints(p0, p1, p2, p3, n as int);
    }
    Point {
        x: bezier_axis(p0.x, p1.x, p2.x, p3.x, j, n),
        y: bezier_axis(p0.y, p1.y, p2.y, p3.y, j, n),
    }
}

} // verus!
