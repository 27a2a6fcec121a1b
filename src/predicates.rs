//! Orientation, side, distance, angle and area predicates on points of the
//! projective plane, through their affine coordinates.
use vstd::prelude::*;
use crate::error::{abs, trunc_div, trunc_quotient};
use crate::fractions::{Fraction, fv, gcd, gcd_s, lemma_quotient_shrinks, reduce_s};
use crate::pg_object::{PgLine, PgPoint, dot_product, dot_s, in_i64, tri, wide_mul};

verus! {

/// The turn made by three points.
#[derive(Debug, Clone, Copy, PartialEq, Eq, Structural)]
pub enum Orientation {
    Clockwise,
    CounterClockwise,
    Collinear,
}

/// The side of a line a point is on.
#[derive(Debug, Clone, Copy, PartialEq, Eq, Structural)]
pub enum LinePosition {
    OnLine,
    Left,
    Right,
}

/// The affine point `(x / z, y / z)`, each quotient rounded toward zero.
pub open spec fn affine_s(c: [i64; 3]) -> (int, int) {
    (trunc_div(c[0] as int, c[2] as int), trunc_div(c[1] as int, c[2] as int))
}

/// A finite point whose affine coordinates fit in an `i64`.
pub open spec fn affine_ok(c: [i64; 3]) -> bool {
    c[2] != 0 && in_i64(affine_s(c).0) && in_i64(affine_s(c).1)
}

/// Twice the signed area of the triangle `a b c` of affine points.
pub open spec fn turn_s(a: (int, int), b: (int, int), c: (int, int)) -> int {
    (b.0 - a.0) * (c.1 - a.1) - (b.1 - a.1) * (c.0 - a.0)
}

/// The machine integers of `turn_s` do not overflow.
pub open spec fn turn_fits(a: (int, int), b: (int, int), c: (int, int)) -> bool {
    in_i64(b.0 - a.0) && in_i64(c.1 - a.1) && in_i64(b.1 - a.1) && in_i64(c.0 - a.0) && in_i64(
        turn_s(a, b, c),
    )
}

/// The orientation that the sign of a turn gives.
pub open spec fn orientation_of(t: int) -> Orientation {
    if t > 0 {
        Orientation::CounterClockwise
    } else if t < 0 {
        Orientation::Clockwise
    } else {
        Orientation::Collinear
    }
}

/// Three points whose orientation can be computed without overflow.
pub open spec fn orientation_ok(p1: [i64; 3], p2: [i64; 3], p3: [i64; 3]) -> bool {
    affine_ok(p1) && affine_ok(p2) && affine_ok(p3) && turn_fits(
        affine_s(p1),
        affine_s(p2),
        affine_s(p3),
    )
}

/// The orientation of three points.
pub open spec fn orientation_s(p1: [i64; 3], p2: [i64; 3], p3: [i64; 3]) -> Orientation {
    orientation_of(turn_s(affine_s(p1), affine_s(p2), affine_s(p3)))
}

/// The squared distance of two affine points.
pub open spec fn sq_dist_s(a: (int, int), b: (int, int)) -> int {
    (b.0 - a.0) * (b.0 - a.0) + (b.1 - a.1) * (b.1 - a.1)
}

/// The machine integers of `sq_dist_s` do not overflow, and the result can
/// be a numerator.
pub open spec fn sq_dist_fits(a: (int, int), b: (int, int)) -> bool {
    in_i64(b.0 - a.0) && in_i64(b.1 - a.1) && in_i64((b.0 - a.0) * (b.0 - a.0)) && in_i64(
        (b.1 - a.1) * (b.1 - a.1),
    ) && in_i64(sq_dist_s(a, b)) && sq_dist_s(a, b) != i64::MIN
}

/// The dot product of the vectors `a - v` and `c - v`.
pub open spec fn angle_dot_s(a: (int, int), v: (int, int), c: (int, int)) -> int {
    (a.0 - v.0) * (c.0 - v.0) + (a.1 - v.1) * (c.1 - v.1)
}

/// The machine integers of `angle_cosine` do not overflow.
pub open spec fn angle_fits(a: (int, int), v: (int, int), c: (int, int)) -> bool {
    &&& in_i64(a.0 - v.0) &&& in_i64(a.1 - v.1) &&& in_i64(c.0 - v.0) &&& in_i64(c.1 - v.1)
    &&& in_i64((a.0 - v.0) * (c.0 - v.0)) &&& in_i64((a.1 - v.1) * (c.1 - v.1))
    &&& in_i64(angle_dot_s(a, v, c)) &&& angle_dot_s(a, v, c) != i64::MIN
    &&& sq_dist_fits(v, a) &&& sq_dist_fits(v, c)
    &&& in_i64(sq_dist_s(v, a) * sq_dist_s(v, c)) &&& sq_dist_s(v, a) * sq_dist_s(v, c) != i64::MIN
}

/// `dot / (|a - v|^2 * |c - v|^2)`, or zero for a vector of length zero.
pub open spec fn angle_cosine_s(a: (int, int), v: (int, int), c: (int, int)) -> (int, int) {
    if sq_dist_s(v, a) == 0 || sq_dist_s(v, c) == 0 {
        (0, 1)
    } else {
        reduce_s(angle_dot_s(a, v, c), sq_dist_s(v, a) * sq_dist_s(v, c))
    }
}

/// The affine coordinates of a finite point, each rounded toward zero.
pub fn to_affine(point: &PgPoint) -> (r: (i64, i64))
    requires
        affine_ok(point.coord),
    ensures
        r.0 == affine_s(point.coord).0,
        r.1 == affine_s(point.coord).1,
{
    (trunc_quotient(point.coord[0], point.coord[2]), trunc_quotient(point.coord[1], point.coord[2]))
}

/// The orientation of `p1`, `p2`, `p3`, from the sign of their turn.
pub fn orientation(p1: &PgPoint, p2: &PgPoint, p3: &PgPoint) -> (r: Orientation)
    requires
        orientation_ok(p1.coord, p2.coord, p3.coord),
    ensures
        r == orientation_s(p1.coord, p2.coord, p3.coord),
{
    let (x1, y1) = to_affine(p1);
    let (x2, y2) = to_affine(p2);
    let (x3, y3) = to_affine(p3);
    let cross = (wide_mul(x2 - x1, y3 - y1) - wide_mul(y2 - y1, x3 - x1)) as i64;
    if cross > 0 {
        Orientation::CounterClockwise
    } else if cross < 0 {
        Orientation::Clockwise
    } else {
        Orientation::Collinear
    }
}

/// The side of `line` that `point` is on, from the sign of their pairing.
pub fn line_position(point: &PgPoint, line: &PgLine) -> (r: LinePosition)
    requires
        in_i64(dot_s(tri(point.coord), tri(line.coord))),
    ensures
        r == (if dot_s(tri(point.coord), tri(line.coord)) == 0 {
            LinePosition::OnLine
        } else if dot_s(tri(point.coord), tri(line.coord)) > 0 {
            LinePosition::Left
        } else {
            LinePosition::Right
        }),
{
    let dot = dot_product(&point.coord, &line.coord);
    if dot == 0 {
        LinePosition::OnLine
    } else if dot > 0 {
        LinePosition::Left
    } else {
        LinePosition::Right
    }
}

proof fn lemma_gcd_one(a: nat)
    ensures
        gcd_s(a, 1) == 1,
{
    reveal_with_fuel(gcd_s, 3);
    assert(a % 1 == 0);
}

/// The squared distance of two finite points.
pub fn squared_distance(p1: &PgPoint, p2: &PgPoint) -> (r: Fraction<i64>)
    requires
        affine_ok(p1.coord),
        affine_ok(p2.coord),
        sq_dist_fits(affine_s(p1.coord), affine_s(p2.coord)),
    ensures
        fv(r) == (sq_dist_s(affine_s(p1.coord), affine_s(p2.coord)), 1int),
{
    let (x1, y1) = to_affine(p1);
    let (x2, y2) = to_affine(p2);
    let dx = x2 - x1;
    let dy = y2 - y1;
    let v = (wide_mul(dx, dx) + wide_mul(dy, dy)) as i64;
    proof {
        lemma_gcd_one(abs(v as int) as nat);
    }
    Fraction::new(v, 1)
}

/// The distance measure of two finite points: their squared distance.
pub fn distance(p1: &PgPoint, p2: &PgPoint) -> (r: Fraction<i64>)
    requires
        affine_ok(p1.coord),
        affine_ok(p2.coord),
        sq_dist_fits(affine_s(p1.coord), affine_s(p2.coord)),
    ensures
        fv(r) == (sq_dist_s(affine_s(p1.coord), affine_s(p2.coord)), 1int),
{
    squared_distance(p1, p2)
}

/// The cosine-like measure of the angle at `p2`: the dot product of the two
/// edge vectors over the product of their squared lengths; zero when an edge
/// has length zero.
pub fn angle_cosine(p1: &PgPoint, p2: &PgPoint, p3: &PgPoint) -> (r: Fraction<i64>)
    requires
        affine_ok(p1.coord),
        affine_ok(p2.coord),
        affine_ok(p3.coord),
        angle_fits(affine_s(p1.coord), affine_s(p2.coord), affine_s(p3.coord)),
    ensures
        fv(r) == angle_cosine_s(affine_s(p1.coord), affine_s(p2.coord), affine_s(p3.coord)),
{
    let (x1, y1) = to_affine(p1);
    let (x2, y2) = to_affine(p2);
    let (x3, y3) = to_affine(p3);
    let v1x = x1 - x2;
    let v1y = y1 - y2;
    let v2x = x3 - x2;
    let v2y = y3 - y2;
    let dot = (wide_mul(v1x, v2x) + wide_mul(v1y, v2y)) as i64;
    let norm1_sq = (wide_mul(v1x, v1x) + wide_mul(v1y, v1y)) as i64;
    let norm2_sq = (wide_mul(v2x, v2x) + wide_mul(v2y, v2y)) as i64;
    if norm1_sq == 0 || norm2_sq == 0 {
        proof {
            lemma_gcd_one(0);
        }
        return Fraction::new(0, 1);
    }
    Fraction::new(dot, (wide_mul(norm1_sq, norm2_sq)) as i64)
}

/// The signed area of the triangle `p1 p2 p3`: positive when counter-clockwise.
pub fn triangle_area(p1: &PgPoint, p2: &PgPoint, p3: &PgPoint) -> (r: Fraction<i64>)
    requires
        orientation_ok(p1.coord, p2.coord, p3.coord),
        turn_s(affine_s(p1.coord), affine_s(p2.coord), affine_s(p3.coord)) != i64::MIN,
    ensures
        fv(r) == reduce_s(turn_s(affine_s(p1.coord), affine_s(p2.coord), affine_s(p3.coord)), 2),
{
    let (x1, y1) = to_affine(p1);
    let (x2, y2) = to_affine(p2);
    let (x3, y3) = to_affine(p3);
    let cross = (wide_mul(x2 - x1, y3 - y1) - wide_mul(y2 - y1, x3 - x1)) as i64;
    Fraction::new(cross, 2)
}

/// Whether `point` lies in the closed triangle `v1 v2 v3`: the three turns
/// agree, or one of them is collinear.
pub fn point_in_triangle(point: &PgPoint, v1: &PgPoint, v2: &PgPoint, v3: &PgPoint) -> (r: bool)
    requires
        orientation_ok(v1.coord, v2.coord, point.coord),
        orientation_ok(v2.coord, v3.coord, point.coord),
        orientation_ok(v3.coord, v1.coord, point.coord),
    ensures
        r == ({
            let o1 = orientation_s(v1.coord, v2.coord, point.coord);
            let o2 = orientation_s(v2.coord, v3.coord, point.coord);
            let o3 = orientation_s(v3.coord, v1.coord, point.coord);
            (o1 == o2 && o2 == o3) || o1 == Orientation::Collinear || o2 == Orientation::Collinear
                || o3 == Orientation::Collinear
        }),
{
    let orient1 = orientation(v1, v2, point);
    let orient2 = orientation(v2, v3, point);
    let orient3 = orientation(v3, v1, point);
    let all_same = orient1 == orient2 && orient2 == orient3;
    let any_collinear = orient1 == Orientation::Collinear || orient2 == Orientation::Collinear
        || orient3 == Orientation::Collinear;
    all_same || any_collinear
}

/// Whether a point is at infinity.
pub fn is_at_infinity(point: &PgPoint) -> (r: bool)
    ensures
        r == (point.coord[2] == 0),
{
    point.coord[2] == 0
}

/// Whether a line is the line at infinity `(0, 0, c)`, `c != 0`.
pub fn is_line_at_infinity(line: &PgLine) -> (r: bool)
    ensures
        r == (line.coord[0] == 0 && line.coord[1] == 0 && line.coord[2] != 0),
{
    line.coord[0] == 0 && line.coord[1] == 0 && line.coord[2] != 0
}

/// `(x, y, z)` divided by the greatest common divisor of its entries, unless
/// that is zero or one.
pub open spec fn reduce_triple_s(c: (int, int, int)) -> (int, int, int) {
    let g = gcd_s(gcd_s(abs(c.0) as nat, abs(c.1) as nat), abs(c.2) as nat) as int;
    if g != 0 && g != 1 {
        (trunc_div(c.0, g), trunc_div(c.1, g), trunc_div(c.2, g))
    } else {
        c
    }
}

/// The sign fix of `normalize_homogeneous`: the last nonzero entry is made
/// positive.
pub open spec fn sign_fix_triple_s(c: (int, int, int)) -> (int, int, int) {
    if c.2 != 0 && c.2 < 0 {
        (-c.0, -c.1, -c.2)
    } else if c.2 == 0 && c.1 != 0 && c.1 < 0 {
        (-c.0, -c.1, c.2)
    } else if c.2 == 0 && c.1 == 0 && c.0 < 0 {
        (-c.0, c.1, c.2)
    } else {
        c
    }
}

/// Brings homogeneous coordinates to lowest terms, with the last nonzero
/// entry positive.
pub fn normalize_homogeneous(coord: &mut [i64; 3])
    requires
        old(coord)[0] != i64::MIN,
        old(coord)[1] != i64::MIN,
        old(coord)[2] != i64::MIN,
    ensures
        tri(*final(coord)) == sign_fix_triple_s(reduce_triple_s(tri(*old(coord)))),
{
    let g1 = gcd(coord[0], coord[1]);
    let g = gcd(g1, coord[2]);
    assert(abs(g1 as int) as nat == g1 as nat);
    if g != 0 && g != 1 {
        proof {
            lemma_quotient_shrinks(coord[0] as int, g as int);
            lemma_quotient_shrinks(coord[1] as int, g as int);
            lemma_quotient_shrinks(coord[2] as int, g as int);
        }
        let x = trunc_quotient(coord[0], g);
        let y = trunc_quotient(coord[1], g);
        let z = trunc_quotient(coord[2], g);
        *coord = [x, y, z];
    }
    let x = coord[0];
    let y = coord[1];
    let z = coord[2];
    if z != 0 && z < 0 {
        *coord = [-x, -y, -z];
    } else if z == 0 && y != 0 && y < 0 {
        *coord = [-x, -y, z];
    } else if z == 0 && y == 0 && x < 0 {
        *coord = [-x, y, z];
    }
}

} // verus!
