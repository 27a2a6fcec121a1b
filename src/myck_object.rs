//! A custom Cayley-Klein plane whose polarity scales each axis by a fixed,
//! asymmetric coefficient.
use vstd::prelude::*;
use crate::ck_plane::{Polarity, altitude_s, diag_s, diagonal_altitudes_concurrent};
use crate::pg_object::{MyCKLine, MyCKPoint, MyCk, Tri, cross_s, fits3, proj_eq, scale_s};
use crate::pg_plane::{coincident_s, lemma_cross_anti, lemma_cross_self_scaled};

verus! {

/// The polar of a point: `(-2x, y, -2z)`.
pub open spec fn myck_point_perp(c: Tri) -> Tri {
    (-2 * c.0, c.1, -2 * c.2)
}

/// The pole of a line: `(-x, 2y, -z)`.
pub open spec fn myck_line_perp(c: Tri) -> Tri {
    (-c.0, 2 * c.1, -c.2)
}

impl Polarity for MyCk {
    open spec fn point_perp_s(c: Tri) -> Tri {
        myck_point_perp(c)
    }

    open spec fn line_perp_s(c: Tri) -> Tri {
        myck_line_perp(c)
    }

    open spec fn point_perp_fits(c: Tri) -> bool {
        fits3(myck_point_perp(c))
    }

    open spec fn line_perp_fits(c: Tri) -> bool {
        fits3(myck_line_perp(c))
    }

    fn point_perp(c: &[i64; 3]) -> [i64; 3] {
        [-2 * c[0], c[1], -2 * c[2]]
    }

    fn line_perp(c: &[i64; 3]) -> [i64; 3] {
        [-c[0], 2 * c[1], -c[2]]
    }
}

/// The polarity is an involution up to scale: applying it twice doubles the
/// coordinates.
pub proof fn myck_perp_involution(c: Tri)
    ensures
        MyCk::line_perp_s(MyCk::point_perp_s(c)) == scale_s(2, c),
        MyCk::point_perp_s(MyCk::line_perp_s(c)) == scale_s(2, c),
        proj_eq(MyCk::line_perp_s(MyCk::point_perp_s(c)), c),
        proj_eq(MyCk::point_perp_s(MyCk::line_perp_s(c)), c),
{
    lemma_cross_self_scaled(c, 2);
    lemma_cross_anti(c, scale_s(2, c));
}

/// The three altitudes of every triangle meet in one point.
pub proof fn myck_altitudes_concurrent(a1: Tri, a2: Tri, a3: Tri)
    ensures
        coincident_s(
            altitude_s::<MyCKPoint, MyCKLine>(a1, cross_s(a2, a3)),
            altitude_s::<MyCKPoint, MyCKLine>(a2, cross_s(a1, a3)),
            altitude_s::<MyCKPoint, MyCKLine>(a3, cross_s(a1, a2)),
        ),
{
    let m = (-1int, 2int, -1int);
    let s1 = cross_s(a2, a3);
    let s2 = cross_s(a1, a3);
    let s3 = cross_s(a1, a2);
    assert(diag_s(m, s1) == myck_line_perp(s1)) by (nonlinear_arith)
        requires
            m == (-1int, 2int, -1int),
    ;
    assert(diag_s(m, s2) == myck_line_perp(s2)) by (nonlinear_arith)
        requires
            m == (-1int, 2int, -1int),
    ;
    assert(diag_s(m, s3) == myck_line_perp(s3)) by (nonlinear_arith)
        requires
            m == (-1int, 2int, -1int),
    ;
    diagonal_altitudes_concurrent(m, a1, a2, a3);
}

} // verus!
