//! Hyperbolic geometry: the polarity negates the third coordinate.
use vstd::prelude::*;
use crate::ck_plane::{Polarity, altitude_s, diag_s, diagonal_altitudes_concurrent};
use crate::pg_object::{
    Hyperbolic, HyperbolicLine, HyperbolicPoint, Tri, cross_s, in_i64, proj_eq, scale_s,
};
use crate::pg_plane::{coincident_s, lemma_cross_self_scaled};

verus! {

/// `(x, y, z) -> (x, y, -z)`.
pub open spec fn hyp_flip(c: Tri) -> Tri {
    (c.0, c.1, -c.2)
}

impl Polarity for Hyperbolic {
    open spec fn point_perp_s(c: Tri) -> Tri {
        hyp_flip(c)
    }

    open spec fn line_perp_s(c: Tri) -> Tri {
        hyp_flip(c)
    }

    open spec fn point_perp_fits(c: Tri) -> bool {
        in_i64(-c.2)
    }

    open spec fn line_perp_fits(c: Tri) -> bool {
        in_i64(-c.2)
    }

    fn point_perp(c: &[i64; 3]) -> [i64; 3] {
        [c[0], c[1], -c[2]]
    }

    fn line_perp(c: &[i64; 3]) -> [i64; 3] {
        [c[0], c[1], -c[2]]
    }
}

/// The hyperbolic polarity is an involution.
pub proof fn hyperbolic_perp_involution(c: Tri)
    ensures
        proj_eq(Hyperbolic::line_perp_s(Hyperbolic::point_perp_s(c)), c),
        proj_eq(Hyperbolic::point_perp_s(Hyperbolic::line_perp_s(c)), c),
{
    lemma_cross_self_scaled(c, 1);
    assert(scale_s(1, c) == c);
}

/// The three altitudes of every triangle meet in one point.
pub proof fn hyperbolic_altitudes_concurrent(a1: Tri, a2: Tri, a3: Tri)
    ensures
        coincident_s(
            altitude_s::<HyperbolicPoint, HyperbolicLine>(a1, cross_s(a2, a3)),
            altitude_s::<HyperbolicPoint, HyperbolicLine>(a2, cross_s(a1, a3)),
            altitude_s::<HyperbolicPoint, HyperbolicLine>(a3, cross_s(a1, a2)),
        ),
{
    let m = (1int, 1int, -1int);
    let s1 = cross_s(a2, a3);
    let s2 = cross_s(a1, a3);
    let s3 = cross_s(a1, a2);
    assert(diag_s(m, s1) == hyp_flip(s1)) by (nonlinear_arith)
        requires
            m == (1int, 1int, -1int),
    ;
    assert(diag_s(m, s2) == hyp_flip(s2)) by (nonlinear_arith)
        requires
            m == (1int, 1int, -1int),
    ;
    assert(diag_s(m, s3) == hyp_flip(s3)) by (nonlinear_arith)
        requires
            m == (1int, 1int, -1int),
    ;
    diagonal_altitudes_concurrent(m, a1, a2, a3);
}

} // verus!
