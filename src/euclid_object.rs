//! Euclidean geometry: every point has the line at infinity `(0, 0, 1)` as its
//! polar, and the pole of a line is the ideal point in its normal direction.
//! The polarity is degenerate: it is not an involution on points.
use vstd::prelude::*;
use crate::ck_plane::{
    CayleyKleinPlanePrimitive, Polarity, altitude_s, diag_s, diagonal_altitudes_concurrent,
    orthocenter_fits, orthocenter_s, tri_altitude_fits,
};
use crate::pg_object::{
    EuclidLine, EuclidPoint, Euclidean, Tri, cross_s, dot1, fits3, in_i64, lin_s, tri, wide_mul,
};
use crate::pg_plane::{Homogeneous, ProjectivePlane, ProjectivePlanePrimitive, coincident_s, tri_dual};

verus! {

/// The line at infinity.
pub const L_INF: [i64; 3] = [0, 0, 1];

/// The pole of a Euclidean line: `(a, b, 0)`.
pub open spec fn euclid_line_perp(c: Tri) -> Tri {
    (c.0, c.1, 0)
}

impl Polarity for Euclidean {
    open spec fn point_perp_s(c: Tri) -> Tri {
        (0, 0, 1)
    }

    open spec fn line_perp_s(c: Tri) -> Tri {
        euclid_line_perp(c)
    }

    open spec fn point_perp_fits(c: Tri) -> bool {
        true
    }

    open spec fn line_perp_fits(c: Tri) -> bool {
        true
    }

    fn point_perp(c: &[i64; 3]) -> [i64; 3] {
        L_INF
    }

    fn line_perp(c: &[i64; 3]) -> [i64; 3] {
        [c[0], c[1], 0]
    }
}

impl EuclidLine {
    /// Whether two lines are parallel: their normal directions are proportional.
    pub fn is_parallel(&self, other: &EuclidLine) -> (r: bool)
        ensures
            r == (self.coord[0] * other.coord[1] == self.coord[1] * other.coord[0]),
    {
        wide_mul(self.coord[0], other.coord[1]) == wide_mul(self.coord[1], other.coord[0])
    }

    /// Whether two lines are perpendicular: their normal directions are orthogonal.
    pub fn is_perpendicular(&self, other: &EuclidLine) -> (r: bool)
        requires
            in_i64(self.coord[0] * other.coord[0] + self.coord[1] * other.coord[1]),
        ensures
            r == (self.coord[0] * other.coord[0] + self.coord[1] * other.coord[1] == 0),
    {
        dot1(self.coord.as_slice(), other.coord.as_slice()) == 0
    }

    /// The line through `pt_a` perpendicular to `self`.
    pub fn altitude(&self, pt_a: &EuclidPoint) -> (r: EuclidLine)
        requires
            fits3(cross_s(euclid_line_perp(self.hc()), pt_a.hc())),
        ensures
            r.hc() == cross_s(euclid_line_perp(self.hc()), pt_a.hc()),
    {
        self.perp().meet(pt_a)
    }
}

impl EuclidPoint {
    /// The midpoint of `self` and `other`: `z2 * self + z1 * other`.
    pub fn midpoint(&self, other: &EuclidPoint) -> (r: EuclidPoint)
        requires
            fits3(lin_s(other.coord[2] as int, self.hc(), self.coord[2] as int, other.hc())),
        ensures
            r.hc() == lin_s(other.coord[2] as int, self.hc(), self.coord[2] as int, other.hc()),
    {
        self.parametrize(other.coord[2], other, self.coord[2])
    }
}

/// The three altitudes of a Euclidean triangle.
pub fn tri_altitude(triangle: &[EuclidPoint; 3]) -> (r: [EuclidLine; 3])
    requires
        !coincident_s(triangle[0].hc(), triangle[1].hc(), triangle[2].hc()),
        tri_altitude_fits::<EuclidPoint, EuclidLine>(
            triangle[0].hc(),
            triangle[1].hc(),
            triangle[2].hc(),
        ),
    ensures
        r[0].hc() == altitude_s::<EuclidPoint, EuclidLine>(
            triangle[0].hc(),
            cross_s(triangle[1].hc(), triangle[2].hc()),
        ),
        r[1].hc() == altitude_s::<EuclidPoint, EuclidLine>(
            triangle[1].hc(),
            cross_s(triangle[0].hc(), triangle[2].hc()),
        ),
        r[2].hc() == altitude_s::<EuclidPoint, EuclidLine>(
            triangle[2].hc(),
            cross_s(triangle[0].hc(), triangle[1].hc()),
        ),
{
    let sides = tri_dual(triangle);
    let t_1 = sides[0].altitude(&triangle[0]);
    let t_2 = sides[1].altitude(&triangle[1]);
    let t_3 = sides[2].altitude(&triangle[2]);
    [t_1, t_2, t_3]
}

/// The orthocenter of a Euclidean triangle.
pub fn orthocenter(triangle: &[EuclidPoint; 3]) -> (r: EuclidPoint)
    requires
        !coincident_s(triangle[0].hc(), triangle[1].hc(), triangle[2].hc()),
        orthocenter_fits::<EuclidPoint, EuclidLine>(
            triangle[0].hc(),
            triangle[1].hc(),
            triangle[2].hc(),
        ),
    ensures
        r.hc() == orthocenter_s::<EuclidPoint, EuclidLine>(
            triangle[0].hc(),
            triangle[1].hc(),
            triangle[2].hc(),
        ),
{
    let a_1 = &triangle[0];
    let a_2 = &triangle[1];
    let a_3 = &triangle[2];
    let t_1 = a_2.meet(a_3).altitude(a_1);
    let t_2 = a_3.meet(a_1).altitude(a_2);
    t_1.meet(&t_2)
}

/// The three altitudes of every triangle meet in one point.
pub proof fn euclid_altitudes_concurrent(a1: Tri, a2: Tri, a3: Tri)
    ensures
        coincident_s(
            altitude_s::<EuclidPoint, EuclidLine>(a1, cross_s(a2, a3)),
            altitude_s::<EuclidPoint, EuclidLine>(a2, cross_s(a1, a3)),
            altitude_s::<EuclidPoint, EuclidLine>(a3, cross_s(a1, a2)),
        ),
{
    let m = (1int, 1int, 0int);
    let s1 = cross_s(a2, a3);
    let s2 = cross_s(a1, a3);
    let s3 = cross_s(a1, a2);
    assert(diag_s(m, s1) == euclid_line_perp(s1)) by (nonlinear_arith)
        requires
            m == (1int, 1int, 0int),
    ;
    assert(diag_s(m, s2) == euclid_line_perp(s2)) by (nonlinear_arith)
        requires
            m == (1int, 1int, 0int),
    ;
    assert(diag_s(m, s3) == euclid_line_perp(s3)) by (nonlinear_arith)
        requires
            m == (1int, 1int, 0int),
    ;
    diagonal_altitudes_concurrent(m, a1, a2, a3);
}

} // verus!
