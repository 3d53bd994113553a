//! Queries on a triangle of three integer points: its bounding box, and the
//! barycentric weights of a point, kept exact as integers over a common
//! denominator.

use vstd::prelude::*;
use crate::vector2i::Vector2i;

verus! {

/// The least of three values.
pub open spec fn min3(a: int, b: int, c: int) -> int {
    if a <= b && a <= c {
        a
    } else if b <= c {
        b
    } else {
        c
    }
}

/// The greatest of three values.
pub open spec fn max3(a: int, b: int, c: int) -> int {
    if a >= b && a >= c {
        a
    } else if b >= c {
        b
    } else {
        c
    }
}

/// Twice the signed area of the triangle `a`, `b`, `c`: the cross product of
/// the edge from `a` to `c` with the edge from `a` to `b`. It is zero when
/// the three points lie on one line, and changes sign when two of them are
/// exchanged.
pub open spec fn doubled_area(a: Vector2i, b: Vector2i, c: Vector2i) -> int {
    (c.x - a.x) * (b.y - a.y) - (b.x - a.x) * (c.y - a.y)
}

/// Whether `p` satisfies the line equation `a * x + b * y == c`.
pub open spec fn on_line(p: Vector2i, a: int, b: int, c: int) -> bool {
    a * p.x + b * p.y == c
}

/// Whether one line passes through all three points.
pub open spec fn collinear(v0: Vector2i, v1: Vector2i, v2: Vector2i) -> bool {
    exists|a: int, b: int, c: int|
        (a != 0 || b != 0) && #[trigger] on_line(v0, a, b, c) && #[trigger] on_line(v1, a, b, c)
            && #[trigger] on_line(v2, a, b, c)
}

/// Barycentric weights of a point with respect to a triangle, in
/// homogeneous form: the weight of each vertex is its field divided by
/// `denom`.
#[derive(Debug, Copy, Clone, PartialEq, Eq, Structural)]
pub struct Barycentric {
    /// The weight of the first vertex, times `denom`.
    pub u: i128,
    /// The weight of the second vertex, times `denom`.
    pub v: i128,
    /// The weight of the third vertex, times `denom`.
    pub w: i128,
    /// The common denominator: twice the signed area of the triangle.
    pub denom: i128,
}

impl Barycentric {
    /// The three weights sum to one: their numerators sum to the
    /// denominator, which is positive.
    pub open spec fn well_formed(self) -> bool {
        self.denom >= 1 && self.u + self.v + self.w == self.denom
    }

    /// Whether these weights place `point` in the triangle `v0`, `v1`, `v2`:
    /// `point` is the combination of the vertices by the three weights.
    pub open spec fn locates(self, point: Vector2i, v0: Vector2i, v1: Vector2i, v2: Vector2i) -> bool {
        &&& self.denom * point.x == self.u * v0.x + self.v * v1.x + self.w * v2.x
        &&& self.denom * point.y == self.u * v0.y + self.v * v1.y + self.w * v2.y
    }
}

/// The weights of `point` in the triangle `v0`, `v1`, `v2`: each vertex is
/// weighted by the doubled area of the triangle that `point` forms with the
/// other two.
pub open spec fn weights_of(point: Vector2i, v0: Vector2i, v1: Vector2i, v2: Vector2i) -> Barycentric {
    Barycentric {
        u: doubled_area(point, v1, v2) as i128,
        v: doubled_area(v0, point, v2) as i128,
        w: doubled_area(v0, v1, point) as i128,
        denom: doubled_area(v0, v1, v2) as i128,
    }
}

/// The product of two differences of `i32` values stays below 2^64 in size.
proof fn lemma_product_bound(a: int, b: int)
    requires
        -0x1_0000_0000 < a < 0x1_0000_0000,
        -0x1_0000_0000 < b < 0x1_0000_0000,
    ensures
        -0x1_0000_0000_0000_0000 < a * b < 0x1_0000_0000_0000_0000,
{
    assert(-0x1_0000_0000_0000_0000 < a * b < 0x1_0000_0000_0000_0000) by (nonlinear_arith)
        requires
            -0x1_0000_0000 < a < 0x1_0000_0000,
            -0x1_0000_0000 < b < 0x1_0000_0000,
    ;
}

/// The doubled area of three points with `i32` coordinates stays below 2^65
/// in size.
pub proof fn lemma_doubled_area_bound(a: Vector2i, b: Vector2i, c: Vector2i)
    ensures
        -0x2_0000_0000_0000_0000 < doubled_area(a, b, c) < 0x2_0000_0000_0000_0000,
{
    lemma_product_bound(c.x - a.x, b.y - a.y);
    lemma_product_bound(b.x - a.x, c.y - a.y);
}

/// The doubled areas of the three triangles that a point forms with the
/// edges of a triangle sum to the doubled area of that triangle.
pub proof fn lemma_areas_sum(point: Vector2i, v0: Vector2i, v1: Vector2i, v2: Vector2i)
    ensures
        doubled_area(point, v1, v2) + doubled_area(v0, point, v2) + doubled_area(v0, v1, point)
            == doubled_area(v0, v1, v2),
{
    let (px, py) = (point.x as int, point.y as int);
    let (ax, ay) = (v0.x as int, v0.y as int);
    let (bx, by) = (v1.x as int, v1.y as int);
    let (cx, cy) = (v2.x as int, v2.y as int);
    let u = (cx - px) * (by - py) - (bx - px) * (cy - py);
    let v = (cx - ax) * (py - ay) - (px - ax) * (cy - ay);
    let w = (px - ax) * (by - ay) - (bx - ax) * (py - ay);
    let d = (cx - ax) * (by - ay) - (bx - ax) * (cy - ay);
    assert(u + v + w == d) by (nonlinear_arith)
        requires
            u == (cx - px) * (by - py) - (bx - px) * (cy - py),
            v == (cx - ax) * (py - ay) - (px - ax) * (cy - ay),
            w == (px - ax) * (by - ay) - (bx - ax) * (py - ay),
            d == (cx - ax) * (by - ay) - (bx - ax) * (cy - ay),
    ;
}

impl Vector2i {
    /// Returns the barycentric coordinates for `point` with respect to the
    /// triangle defined by `v0`, `v1`, `v2`, over the common denominator
    /// `doubled_area(v0, v1, v2)`.
    ///
    /// Returns `None` exactly when that denominator is less than one: the
    /// triangle is degenerate, or its vertices run the other way round. A
    /// point outside the triangle is not rejected: some of its weights are
    /// negative.
    pub fn barycentric(point: Vector2i, v0: Vector2i, v1: Vector2i, v2: Vector2i) -> (result: Option<Barycentric>)
        ensures
            doubled_area(v0, v1, v2) < 1 ==> result is None,
            doubled_area(v0, v1, v2) >= 1 ==> result == Some(weights_of(point, v0, v1, v2)),
            collinear(v0, v1, v2) ==> result is None,
            result matches Some(weights) ==> weights.well_formed() && weights.locates(
                point,
                v0,
                v1,
                v2,
            ),
    {
        let x0: i128 = v2.x as i128 - v0.x as i128;
        let x1: i128 = v1.x as i128 - v0.x as i128;
        let x2: i128 = v0.x as i128 - point.x as i128;
        let y0: i128 = v2.y as i128 - v0.y as i128;
        let y1: i128 = v1.y as i128 - v0.y as i128;
        let y2: i128 = v0.y as i128 - point.y as i128;
        proof {
            lemma_product_bound(x1 as int, y2 as int);
            lemma_product_bound(x2 as int, y1 as int);
            lemma_product_bound(x2 as int, y0 as int);
            lemma_product_bound(x0 as int, y2 as int);
            lemma_product_bound(x0 as int, y1 as int);
            lemma_product_bound(x1 as int, y0 as int);
        }
        let ux: i128 = x1 * y2 - x2 * y1;
        let uy: i128 = x2 * y0 - x0 * y2;
        let uz: i128 = x0 * y1 - x1 * y0;
        proof {
            lemma_collinear_has_no_area(v0, v1, v2);
            assert(uz == doubled_area(v0, v1, v2));
        }
        if uz < 1 {
            return None;
        }
        let weights = Barycentric { u: uz - (ux + uy), v: uy, w: ux, denom: uz };
        proof {
            lemma_areas_sum(point, v0, v1, v2);
            lemma_doubled_area_bound(point, v1, v2);
            lemma_doubled_area_bound(v0, point, v2);
            lemma_doubled_area_bound(v0, v1, point);
            assert(uy == doubled_area(v0, point, v2)) by (nonlinear_arith)
                requires
                    uy == (v0.x - point.x) * (v2.y - v0.y) - (v2.x - v0.x) * (v0.y - point.y),
            ;
            assert(ux == doubled_area(v0, v1, point)) by (nonlinear_arith)
                requires
                    ux == (v1.x - v0.x) * (v0.y - point.y) - (v0.x - point.x) * (v1.y - v0.y),
            ;
            assert(weights == weights_of(point, v0, v1, v2));
            lemma_weights_locate(point, v0, v1, v2);
        }
        Some(weights)
    }

    /// Returns the bounding box for the points `v0`, `v1`, `v2` as
    /// (Minimum, Maximum): on each axis by itself, the least and the greatest
    /// of the three coordinates.
    pub fn bbox3(v0: Vector2i, v1: Vector2i, v2: Vector2i) -> (bounds: (Vector2i, Vector2i))
        ensures
            bounds == bounds_of(v0, v1, v2),
    {
        let min_x = least(v0.x, least(v1.x, v2.x));
        let max_x = greatest(v0.x, greatest(v1.x, v2.x));
        let min_y = least(v0.y, least(v1.y, v2.y));
        let max_y = greatest(v0.y, greatest(v1.y, v2.y));

        (Vector2i::new(min_x, min_y), Vector2i::new(max_x, max_y))
    }
}

/// Whether `p` lies in the axis-aligned box from `low` to `high`, borders
/// included.
pub open spec fn in_box(p: Vector2i, low: Vector2i, high: Vector2i) -> bool {
    low.x <= p.x <= high.x && low.y <= p.y <= high.y
}

/// The box of least and greatest coordinates of three points.
pub open spec fn bounds_of(v0: Vector2i, v1: Vector2i, v2: Vector2i) -> (Vector2i, Vector2i) {
    (
        Vector2i {
            x: min3(v0.x as int, v1.x as int, v2.x as int) as i32,
            y: min3(v0.y as int, v1.y as int, v2.y as int) as i32,
        },
        Vector2i {
            x: max3(v0.x as int, v1.x as int, v2.x as int) as i32,
            y: max3(v0.y as int, v1.y as int, v2.y as int) as i32,
        },
    )
}

/// The bounding box of three points holds each of them, and lies within
/// every box that holds all three.
pub proof fn lemma_bounds_are_tight(v0: Vector2i, v1: Vector2i, v2: Vector2i, low: Vector2i, high: Vector2i)
    ensures
        in_box(v0, bounds_of(v0, v1, v2).0, bounds_of(v0, v1, v2).1),
        in_box(v1, bounds_of(v0, v1, v2).0, bounds_of(v0, v1, v2).1),
        in_box(v2, bounds_of(v0, v1, v2).0, bounds_of(v0, v1, v2).1),
        in_box(v0, low, high) && in_box(v1, low, high) && in_box(v2, low, high) ==> in_box(
            bounds_of(v0, v1, v2).0,
            low,
            high,
        ) && in_box(bounds_of(v0, v1, v2).1, low, high),
{
}

/// The lesser of two values.
fn least(a: i32, b: i32) -> (m: i32)
    ensures
        m <= a,
        m <= b,
        m == a || m == b,
{
    if b < a {
        b
    } else {
        a
    }
}

/// The greater of two values.
fn greatest(a: i32, b: i32) -> (m: i32)
    ensures
        m >= a,
        m >= b,
        m == a || m == b,
{
    if b > a {
        b
    } else {
        a
    }
}

/// Three points on one line span no area.
pub proof fn lemma_collinear_has_no_area(v0: Vector2i, v1: Vector2i, v2: Vector2i)
    ensures
        collinear(v0, v1, v2) ==> doubled_area(v0, v1, v2) == 0,
{
    if collinear(v0, v1, v2) {
        let (a, b, c): (int, int, int) = choose|a: int, b: int, c: int|
            (a != 0 || b != 0) && #[trigger] on_line(v0, a, b, c) && #[trigger] on_line(
                v1,
                a,
                b,
                c,
            ) && #[trigger] on_line(v2, a, b, c);
        let d = doubled_area(v0, v1, v2);
        let (x0, y0) = (v0.x as int, v0.y as int);
        let (bx, by) = (v1.x - v0.x, v1.y - v0.y);
        let (cx, cy) = (v2.x - v0.x, v2.y - v0.y);
        // Both edges from `v0` are orthogonal to the line's normal (a, b).
        assert(a * bx + b * by == 0) by (nonlinear_arith)
            requires
                a * x0 + b * y0 == c,
                a * (x0 + bx) + b * (y0 + by) == c,
        ;
        assert(a * cx + b * cy == 0) by (nonlinear_arith)
            requires
                a * x0 + b * y0 == c,
                a * (x0 + cx) + b * (y0 + cy) == c,
        ;
        lemma_kernel_has_no_area(a, b, bx, by, cx, cy);
        assert(d == 0) by (nonlinear_arith)
            requires
                a * d == 0,
                b * d == 0,
                a != 0 || b != 0,
        ;
    }
}

/// Two plane vectors orthogonal to one vector (a, b) have a cross product
/// that both `a` and `b` annihilate.
proof fn lemma_kernel_has_no_area(a: int, b: int, bx: int, by: int, cx: int, cy: int)
    requires
        a * bx + b * by == 0,
        a * cx + b * cy == 0,
    ensures
        a * (cx * by - bx * cy) == 0,
        b * (cx * by - bx * cy) == 0,
{
    let abx = a * bx;
    let acx = a * cx;
    let bby = b * by;
    let bcy = b * cy;
    assert(a * (cx * by - bx * cy) == acx * by - abx * cy) by (nonlinear_arith)
        requires
            abx == a * bx,
            acx == a * cx,
    ;
    assert(acx * by - abx * cy == bby * cy - bcy * by) by (nonlinear_arith)
        requires
            abx == -bby,
            acx == -bcy,
    ;
    assert(bby * cy == bcy * by) by (nonlinear_arith)
        requires
            bby == b * by,
            bcy == b * cy,
    ;
    assert(b * (cx * by - bx * cy) == bby * cx - bcy * bx) by (nonlinear_arith)
        requires
            bby == b * by,
            bcy == b * cy,
    ;
    assert(bby * cx - bcy * bx == acx * bx - abx * cx) by (nonlinear_arith)
        requires
            abx == -bby,
            acx == -bcy,
    ;
    assert(acx * bx == abx * cx) by (nonlinear_arith)
        requires
            abx == a * bx,
            acx == a * cx,
    ;
}

/// The weights of a point combine the vertices to that point, scaled by the
/// denominator, and sum to the denominator.
pub proof fn lemma_weights_locate(point: Vector2i, v0: Vector2i, v1: Vector2i, v2: Vector2i)
    ensures
        ({
            let d = doubled_area(v0, v1, v2);
            let u = doubled_area(point, v1, v2);
            let v = doubled_area(v0, point, v2);
            let w = doubled_area(v0, v1, point);
            &&& u + v + w == d
            &&& d * point.x == u * v0.x + v * v1.x + w * v2.x
            &&& d * point.y == u * v0.y + v * v1.y + w * v2.y
        }),
{
    lemma_areas_sum(point, v0, v1, v2);
    let d = doubled_area(v0, v1, v2);
    let u = doubled_area(point, v1, v2);
    let v = doubled_area(v0, point, v2);
    let w = doubled_area(v0, v1, point);
    let (px, py) = (point.x - v0.x, point.y - v0.y);
    let (bx, by) = (v1.x - v0.x, v1.y - v0.y);
    let (cx, cy) = (v2.x - v0.x, v2.y - v0.y);
    lemma_cramer(px, py, bx, by, cx, cy);
    lemma_recentre(d, u, v, w, v0.x as int, px, bx, cx);
    lemma_recentre(d, u, v, w, v0.y as int, py, by, cy);
}

/// Cramer's rule in the plane: a vector `p`, scaled by the cross product of
/// `c` and `b`, is the combination of `b` and `c` by the cross products of
/// `c` with `p` and of `p` with `b`.
proof fn lemma_cramer(px: int, py: int, bx: int, by: int, cx: int, cy: int)
    ensures
        (cx * by - bx * cy) * px == (cx * py - px * cy) * bx + (px * by - bx * py) * cx,
        (cx * by - bx * cy) * py == (cx * py - px * cy) * by + (px * by - bx * py) * cy,
{
    let cxby = cx * by;
    let bxcy = bx * cy;
    let cxpy = cx * py;
    let pxcy = px * cy;
    let pxby = px * by;
    let bxpy = bx * py;
    assert((cxby - bxcy) * px == cxby * px - bxcy * px) by (nonlinear_arith);
    assert((cxpy - pxcy) * bx + (pxby - bxpy) * cx == cxpy * bx - pxcy * bx + pxby * cx - bxpy
        * cx) by (nonlinear_arith);
    assert(cxpy * bx == bxpy * cx) by (nonlinear_arith)
        requires
            cxpy == cx * py,
            bxpy == bx * py,
    ;
    assert(pxcy * bx == bxcy * px) by (nonlinear_arith)
        requires
            pxcy == px * cy,
            bxcy == bx * cy,
    ;
    assert(pxby * cx == cxby * px) by (nonlinear_arith)
        requires
            pxby == px * by,
            cxby == cx * by,
    ;
    assert((cxby - bxcy) * py == cxby * py - bxcy * py) by (nonlinear_arith);
    assert((cxpy - pxcy) * by + (pxby - bxpy) * cy == cxpy * by - pxcy * by + pxby * cy - bxpy
        * cy) by (nonlinear_arith);
    assert(cxpy * by == cxby * py) by (nonlinear_arith)
        requires
            cxpy == cx * py,
            cxby == cx * by,
    ;
    assert(pxcy * by == pxby * cy) by (nonlinear_arith)
        requires
            pxcy == px * cy,
            pxby == px * by,
    ;
    assert(bxpy * cy == bxcy * py) by (nonlinear_arith)
        requires
            bxpy == bx * py,
            bxcy == bx * cy,
    ;
}

/// A combination stated for coordinates relative to a first vertex at `a`
/// holds for the coordinates themselves, once that vertex takes the weight
/// that the other two leave.
proof fn lemma_recentre(d: int, u: int, v: int, w: int, a: int, p: int, b: int, c: int)
    requires
        u + v + w == d,
        d * p == v * b + w * c,
    ensures
        d * (a + p) == u * a + v * (a + b) + w * (a + c),
{
    assert(d * (a + p) == u * a + v * (a + b) + w * (a + c)) by (nonlinear_arith)
        requires
            u + v + w == d,
            d * p == v * b + w * c,
    ;
}

} // verus!
