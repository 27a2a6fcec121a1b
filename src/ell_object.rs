//! Elliptic geometry: the polarity is the identity on coordinates.
use vstd::prelude::*;
use crate::ck_plane::{Polarity, altitude_s, diag_s, diagonal_altitudes_concurrent};
use crate::pg_object::{Elliptic, EllipticLine, EllipticPoint, Tri, cross_s, proj_eq, scale_s};
use crate::pg_plane::{coincident_s, lemma_cross_self_scaled};

verus! {

impl Polarity for Elliptic {
    open spec fn point_perp_s(c: Tri) -> Tri {
        c
    }

    open spec fn line_perp_s(c: Tri) -> Tri {
        c
    }

    open spec fn point_perp_fits(c: Tri) -> bool {
        true
    }

    open spec fn line_perp_fits(c: Tri) -> bool {
        true
    }

    fn point_perp(c: &[i64; 3]) -> [i64; 3] {
        *c
    }

    fn line_perp(c: &[i64; 3]) -> [i64; 3] {
        *c
    }
}

/// The elliptic polarity is an involution: the pole of the polar of a point
/// is the point, and the polar of the pole of a line is the line.
pub proof fn elliptic_perp_involution(c: Tri)
    ensures
        proj_eq(Elliptic::line_perp_s(Elliptic::point_perp_s(c)), c),
        proj_eq(Elliptic::point_perp_s(Elliptic::line_perp_s(c)), c),
{
    lemma_cross_self_scaled(c, 1);
    assert(scale_s(1, c) == c);
}

/// The three altitudes of every triangle meet in one point.
pub proof fn elliptic_altitudes_concurrent(a1: Tri, a2: Tri, a3: Tri)
    ensures
        coincident_s(
            altitude_s::<EllipticPoint, EllipticLine>(a1, cross_s(a2, a3)),
            altitude_s::<EllipticPoint, EllipticLine>(a2, cross_s(a1, a3)),
            altitude_s::<EllipticPoint, EllipticLine>(a3, cross_s(a1, a2)),
        ),
{
    let m = (1int, 1int, 1int);
    let s1 = cross_s(a2, a3);
    let s2 = cross_s(a1, a3);
    let s3 = cross_s(a1, a2);
    assert(diag_s(m, s1) == s1) by (nonlinear_arith)
        requires
            m == (1int, 1int, 1int),
    ;
    assert(diag_s(m, s2) == s2) by (nonlinear_arith)
        requires
            m == (1int, 1int, 1int),
    ;
    assert(diag_s(m, s3) == s3) by (nonlinear_arith)
        requires
            m == (1int, 1int, 1int),
    ;
    diagonal_altitudes_concurrent(m, a1, a2, a3);
}

} // verus!
