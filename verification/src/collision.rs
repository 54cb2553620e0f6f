//! The two intersection tests: a point against an oriented box, and a
//! segment against a segment.  Both are exact: they compare whole numbers
//! and use no tolerance.
use vstd::prelude::*;
use crate::geometry::{OrientedBox, Vec2, Vector};

verus! {

/// Whether the quotient `numerator / denominator` lies in the closed
/// interval from 0 to 1, for a denominator other than zero: the numerator
/// lies between zero and the denominator, on whichever side that is.
pub open spec fn ratio_in_unit_interval(numerator: int, denominator: int) -> bool {
    if denominator > 0 {
        0 <= numerator <= denominator
    } else {
        denominator <= numerator <= 0
    }
}

/// The determinant of the directions of two segments; zero when they are
/// parallel.
pub open spec fn crossing_denominator(
    start0: Vector,
    end0: Vector,
    start1: Vector,
    end1: Vector,
) -> int {
    end0.minus(start0).cross(end1.minus(start1))
}

/// The numerator of the place along the first segment at which the line
/// through the second one meets it.
pub open spec fn crossing_numerator0(start0: Vector, start1: Vector, end1: Vector) -> int {
    end1.minus(start1).cross(start0.minus(start1))
}

/// The numerator of the place along the second segment at which the line
/// through the first one meets it.
pub open spec fn crossing_numerator1(start0: Vector, end0: Vector, start1: Vector) -> int {
    end0.minus(start0).cross(start0.minus(start1))
}

/// Whether the segment from `start0` to `end0` and the segment from
/// `start1` to `end1` cross.  Segments that are not parallel cross when the
/// meeting point of their lines lies on both, end points counted.  Parallel
/// segments count as crossing exactly when both numerators vanish, which
/// holds of every pair on one line, overlapping or not.
pub open spec fn segments_cross(
    start0: Vector,
    end0: Vector,
    start1: Vector,
    end1: Vector,
) -> bool {
    let denominator = crossing_denominator(start0, end0, start1, end1);
    let numerator0 = crossing_numerator0(start0, start1, end1);
    let numerator1 = crossing_numerator1(start0, end0, start1);
    if denominator == 0 {
        numerator0 == 0 && numerator1 == 0
    } else {
        ratio_in_unit_interval(numerator0, denominator) && ratio_in_unit_interval(
            numerator1,
            denominator,
        )
    }
}

/// A product of two bounded factors is bounded.
proof fn lemma_signed_product_bound(a: int, b: int, m: int, n: int)
    by (nonlinear_arith)
    requires
        -m <= a <= m,
        -n <= b <= n,
    ensures
        -(m * n) <= a * b <= m * n,
{
}

/// The test of `ratio_in_unit_interval` is the inequality `0 <= n / d <= 1`
/// multiplied through by the square of the denominator.
pub proof fn lemma_ratio_by_products(numerator: int, denominator: int)
    by (nonlinear_arith)
    requires
        denominator != 0,
    ensures
        ratio_in_unit_interval(numerator, denominator) <==> 0 <= numerator * denominator
            <= denominator * denominator,
{
}

/// `a.x * b.x + a.y * b.y` for coordinates that are differences of grid
/// coordinates.
fn wide_dot(ax: i64, ay: i64, bx: i64, by: i64) -> (d: i128)
    requires
        -0x1_0000_0000 <= ax <= 0x1_0000_0000,
        -0x1_0000_0000 <= ay <= 0x1_0000_0000,
        -0x1_0000_0000 <= bx <= 0x1_0000_0000,
        -0x1_0000_0000 <= by <= 0x1_0000_0000,
    ensures
        d == ax * bx + ay * by,
        -0x2_0000_0000_0000_0000 <= d <= 0x2_0000_0000_0000_0000,
{
    proof {
        lemma_signed_product_bound(ax as int, bx as int, 0x1_0000_0000, 0x1_0000_0000);
        lemma_signed_product_bound(ay as int, by as int, 0x1_0000_0000, 0x1_0000_0000);
    }
    (ax as i128) * (bx as i128) + (ay as i128) * (by as i128)
}

/// `a.x * b.y - a.y * b.x` for coordinates that are differences of grid
/// coordinates.
fn wide_cross(ax: i64, ay: i64, bx: i64, by: i64) -> (c: i128)
    requires
        -0x1_0000_0000 <= ax <= 0x1_0000_0000,
        -0x1_0000_0000 <= ay <= 0x1_0000_0000,
        -0x1_0000_0000 <= bx <= 0x1_0000_0000,
        -0x1_0000_0000 <= by <= 0x1_0000_0000,
    ensures
        c == ax * by - ay * bx,
        -0x2_0000_0000_0000_0000 <= c <= 0x2_0000_0000_0000_0000,
{
    proof {
        lemma_signed_product_bound(ax as int, by as int, 0x1_0000_0000, 0x1_0000_0000);
        lemma_signed_product_bound(ay as int, bx as int, 0x1_0000_0000, 0x1_0000_0000);
    }
    (ax as i128) * (by as i128) - (ay as i128) * (bx as i128)
}

/// Whether `point` lies strictly inside the box `obb` centered at `bb_pos`.
/// A point on the boundary is outside.
pub fn point_in_obb(obb: &OrientedBox, bb_pos: Vec2, point: Vec2) -> (inside: bool)
    ensures
        inside == obb.contains(bb_pos@, point@),
{
    let a0x: i64 = obb.axis0.x as i64;
    let a0y: i64 = obb.axis0.y as i64;
    let a1x: i64 = obb.axis1.x as i64;
    let a1y: i64 = obb.axis1.y as i64;
    let box_lensq0: i128 = wide_dot(a0x, a0y, a0x, a0y);
    let box_lensq1: i128 = wide_dot(a1x, a1y, a1x, a1y);
    let to_bb_x: i64 = bb_pos.x as i64 - point.x as i64;
    let to_bb_y: i64 = bb_pos.y as i64 - point.y as i64;
    let dot0: i128 = wide_dot(a0x, a0y, to_bb_x, to_bb_y);
    let dot1: i128 = wide_dot(a1x, a1y, to_bb_x, to_bb_y);
    dot0 > -box_lensq0 && dot0 < box_lensq0 && dot1 > -box_lensq1 && dot1 < box_lensq1
}

/// Whether the segment from `start0` to `end0` crosses the segment from
/// `start1` to `end1`.
pub fn line_line_test(start0: Vec2, end0: Vec2, start1: Vec2, end1: Vec2) -> (crossing: bool)
    ensures
        crossing == segments_cross(start0@, end0@, start1@, end1@),
{
    let dir0_x: i64 = end0.x as i64 - start0.x as i64;
    let dir0_y: i64 = end0.y as i64 - start0.y as i64;
    let dir1_x: i64 = end1.x as i64 - start1.x as i64;
    let dir1_y: i64 = end1.y as i64 - start1.y as i64;
    let gap_x: i64 = start0.x as i64 - start1.x as i64;
    let gap_y: i64 = start0.y as i64 - start1.y as i64;
    let denominator: i128 = wide_cross(dir0_x, dir0_y, dir1_x, dir1_y);
    let numerator0: i128 = wide_cross(dir1_x, dir1_y, gap_x, gap_y);
    let numerator1: i128 = wide_cross(dir0_x, dir0_y, gap_x, gap_y);
    if denominator == 0 {
        return numerator0 == 0 && numerator1 == 0;
    }
    if denominator > 0 {
        0 <= numerator0 && numerator0 <= denominator && 0 <= numerator1 && numerator1
            <= denominator
    } else {
        denominator <= numerator0 && numerator0 <= 0 && denominator <= numerator1 && numerator1
            <= 0
    }
}

/// The center of a box lies inside it, unless one of its axes has no
/// length: then the box has no inside at all.
pub proof fn lemma_center_inside(obb: OrientedBox, center: Vector)
    ensures
        obb.contains(center, center) <==> obb.axis0@.length_squared() > 0
            && obb.axis1@.length_squared() > 0,
{
}

/// A point on the boundary of a box is outside: where the projection on
/// either axis reaches the squared length of that axis, on either side, the
/// point is not inside.
pub proof fn lemma_boundary_outside(obb: OrientedBox, center: Vector, point: Vector)
    requires
        ({
            let dot0 = obb.axis0@.dot(center.minus(point));
            let dot1 = obb.axis1@.dot(center.minus(point));
            ||| dot0 == obb.axis0@.length_squared()
            ||| dot0 == -obb.axis0@.length_squared()
            ||| dot1 == obb.axis1@.length_squared()
            ||| dot1 == -obb.axis1@.length_squared()
        }),
    ensures
        !obb.contains(center, point),
{
}

/// When two segments are not parallel, the two ratios of the crossing test
/// name one point: the point at ratio `numerator0 / denominator` along the
/// first segment is the point at ratio `numerator1 / denominator` along the
/// second, here with both sides multiplied by the denominator.
pub proof fn lemma_ratios_name_one_point(
    start0: Vector,
    end0: Vector,
    start1: Vector,
    end1: Vector,
)
    ensures
        ({
            let denominator = crossing_denominator(start0, end0, start1, end1);
            let numerator0 = crossing_numerator0(start0, start1, end1);
            let numerator1 = crossing_numerator1(start0, end0, start1);
            start0.times(denominator).plus(end0.minus(start0).times(numerator0))
                == start1.times(denominator).plus(end1.minus(start1).times(numerator1))
        }),
{
    lemma_meeting_identity(
        start0.x,
        start0.y,
        end0.x - start0.x,
        end0.y - start0.y,
        start1.x,
        start1.y,
        end1.x - start1.x,
        end1.y - start1.y,
    );
}

/// The identity behind `lemma_ratios_name_one_point`, by coordinates: the
/// first segment starts at `(ax, ay)` and runs along `(px, py)`, the second
/// starts at `(cx, cy)` and runs along `(ux, uy)`.
proof fn lemma_meeting_identity(
    ax: int,
    ay: int,
    px: int,
    py: int,
    cx: int,
    cy: int,
    ux: int,
    uy: int,
)
    ensures
        ({
            let denominator = px * uy - py * ux;
            let numerator0 = ux * (ay - cy) - uy * (ax - cx);
            let numerator1 = px * (ay - cy) - py * (ax - cx);
            &&& ax * denominator + px * numerator0 == cx * denominator + ux * numerator1
            &&& ay * denominator + py * numerator0 == cy * denominator + uy * numerator1
        }),
{
    let gx = ax - cx;
    let gy = ay - cy;
    let denominator = px * uy - py * ux;
    let numerator0 = ux * gy - uy * gx;
    let numerator1 = px * gy - py * gx;
    lemma_triple_cancels(gx, px, py, ux, uy, gy);
    lemma_triple_cancels(gy, py, px, uy, ux, gx);
    assert(ax * denominator - cx * denominator == gx * denominator) by (nonlinear_arith)
        requires
            gx == ax - cx,
    ;
    assert(ay * denominator - cy * denominator == gy * denominator) by (nonlinear_arith)
        requires
            gy == ay - cy,
    ;
    assert(py * ux - px * uy == -denominator);
    assert(gy * (py * ux - px * uy) == -(gy * denominator)) by (nonlinear_arith)
        requires
            py * ux - px * uy == -denominator,
    ;
    assert(uy * gx - ux * gy == -numerator0);
    assert(py * (uy * gx - ux * gy) == -(py * numerator0)) by (nonlinear_arith)
        requires
            uy * gx - ux * gy == -numerator0,
    ;
    assert(py * gx - px * gy == -numerator1);
    assert(uy * (py * gx - px * gy) == -(uy * numerator1)) by (nonlinear_arith)
        requires
            py * gx - px * gy == -numerator1,
    ;
}

/// `g (p v - q u) + p (u h - v g) - u (p h - q g)` is zero.
proof fn lemma_triple_cancels(g: int, p: int, q: int, u: int, v: int, h: int)
    ensures
        g * (p * v - q * u) + p * (u * h - v * g) - u * (p * h - q * g) == 0,
{
    assert(g * (p * v - q * u) == g * (p * v) - g * (q * u)) by (nonlinear_arith);
    assert(p * (u * h - v * g) == p * (u * h) - p * (v * g)) by (nonlinear_arith);
    assert(u * (p * h - q * g) == u * (p * h) - u * (q * g)) by (nonlinear_arith);
    assert(g * (p * v) == p * (v * g)) by (nonlinear_arith);
    assert(g * (q * u) == u * (q * g)) by (nonlinear_arith);
    assert(p * (u * h) == u * (p * h)) by (nonlinear_arith);
}

/// Turning the first segment end for end does not change the verdict.
pub proof fn lemma_first_segment_reversed(
    start0: Vector,
    end0: Vector,
    start1: Vector,
    end1: Vector,
)
    ensures
        segments_cross(end0, start0, start1, end1) == segments_cross(start0, end0, start1, end1),
{
    let d = crossing_denominator(start0, end0, start1, end1);
    let n0 = crossing_numerator0(start0, start1, end1);
    let n1 = crossing_numerator1(start0, end0, start1);
    assert(crossing_denominator(end0, start0, start1, end1) == -d) by (nonlinear_arith)
        requires
            d == crossing_denominator(start0, end0, start1, end1),
    ;
    assert(crossing_numerator0(end0, start1, end1) == n0 - d) by (nonlinear_arith)
        requires
            d == crossing_denominator(start0, end0, start1, end1),
            n0 == crossing_numerator0(start0, start1, end1),
    ;
    assert(crossing_numerator1(end0, start0, start1) == -n1) by (nonlinear_arith)
        requires
            n1 == crossing_numerator1(start0, end0, start1),
    ;
}

/// Turning the second segment end for end does not change the verdict.
pub proof fn lemma_second_segment_reversed(
    start0: Vector,
    end0: Vector,
    start1: Vector,
    end1: Vector,
)
    ensures
        segments_cross(start0, end0, end1, start1) == segments_cross(start0, end0, start1, end1),
{
    let d = crossing_denominator(start0, end0, start1, end1);
    let n0 = crossing_numerator0(start0, start1, end1);
    let n1 = crossing_numerator1(start0, end0, start1);
    assert(crossing_denominator(start0, end0, end1, start1) == -d) by (nonlinear_arith)
        requires
            d == crossing_denominator(start0, end0, start1, end1),
    ;
    assert(crossing_numerator0(start0, end1, start1) == -n0) by (nonlinear_arith)
        requires
            n0 == crossing_numerator0(start0, start1, end1),
    ;
    assert(crossing_numerator1(start0, end0, end1) == n1 - d) by (nonlinear_arith)
        requires
            d == crossing_denominator(start0, end0, start1, end1),
            n1 == crossing_numerator1(start0, end0, start1),
    ;
}

/// Testing the second segment against the first gives the verdict of
/// testing the first against the second.
pub proof fn lemma_segments_swapped(start0: Vector, end0: Vector, start1: Vector, end1: Vector)
    ensures
        segments_cross(start1, end1, start0, end0) == segments_cross(start0, end0, start1, end1),
{
    let d = crossing_denominator(start0, end0, start1, end1);
    let n0 = crossing_numerator0(start0, start1, end1);
    let n1 = crossing_numerator1(start0, end0, start1);
    assert(crossing_denominator(start1, end1, start0, end0) == -d) by (nonlinear_arith)
        requires
            d == crossing_denominator(start0, end0, start1, end1),
    ;
    assert(crossing_numerator0(start1, start0, end0) == -n1) by (nonlinear_arith)
        requires
            n1 == crossing_numerator1(start0, end0, start1),
    ;
    assert(crossing_numerator1(start1, end1, start0) == -n0) by (nonlinear_arith)
        requires
            n0 == crossing_numerator0(start0, start1, end1),
    ;
}

/// Parallel segments that do not lie on one line do not cross.
pub proof fn lemma_parallel_apart(start0: Vector, end0: Vector, start1: Vector, end1: Vector)
    requires
        end0.minus(start0).cross(end1.minus(start1)) == 0,
        end0.minus(start0).cross(start1.minus(start0)) != 0,
    ensures
        !segments_cross(start0, end0, start1, end1),
{
    assert(crossing_numerator1(start0, end0, start1) == -end0.minus(start0).cross(
        start1.minus(start0),
    )) by (nonlinear_arith);
}

} // verus!
