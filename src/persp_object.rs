//! Perspective geometry: the line at infinity is `(0, -1, 1)`, and the pole of
//! a line is a combination of the two circular points.
use vstd::prelude::*;
use crate::ck_plane::{
    CayleyKleinPlanePrimitive, Polarity, altitude_s, lemma_det_cycle, lemma_det_swap,
    lemma_scale_combination, lemma_scale_combination_second,
};
use crate::pg_object::{
    PerspLine, PerspPoint, Perspective, Tri, cross_s, dot_product, dot_s, fits3, in_i64, lin_s,
    plucker_operation, scale_s, tri,
};
use crate::pg_plane::{
    Homogeneous, ProjectivePlane, ProjectivePlanePrimitive, coincident_s, incidence_symmetry,
    lemma_bac_cab, lemma_dot_lin, lemma_triple, meet_incidence,
};

verus! {

/// The real part of the circular points.
pub const I_RE: [i64; 3] = [0, 1, 1];

/// The imaginary part of the circular points.
pub const I_IM: [i64; 3] = [1, 0, 0];

/// The line at infinity.
pub const L_INF: [i64; 3] = [0, -1, 1];

pub open spec fn i_re() -> Tri {
    (0, 1, 1)
}

pub open spec fn i_im() -> Tri {
    (1, 0, 0)
}

pub open spec fn l_inf() -> Tri {
    (0, -1, 1)
}

/// The pole of a line `l`: `(I_RE . l) I_RE + (I_IM . l) I_IM`.
pub open spec fn persp_line_perp(l: Tri) -> Tri {
    lin_s(dot_s(i_re(), l), i_re(), dot_s(i_im(), l), i_im())
}

impl Polarity for Perspective {
    open spec fn point_perp_s(c: Tri) -> Tri {
        l_inf()
    }

    open spec fn line_perp_s(c: Tri) -> Tri {
        persp_line_perp(c)
    }

    open spec fn point_perp_fits(c: Tri) -> bool {
        true
    }

    open spec fn line_perp_fits(c: Tri) -> bool {
        in_i64(c.1 + c.2)
    }

    fn point_perp(c: &[i64; 3]) -> [i64; 3] {
        L_INF
    }

    fn line_perp(c: &[i64; 3]) -> [i64; 3] {
        assert(tri(I_RE) == i_re());
        assert(tri(I_IM) == i_im());
        assert(dot_s(i_re(), tri(*c)) == c[1] + c[2]) by (nonlinear_arith);
        assert(dot_s(i_im(), tri(*c)) == c[0]) by (nonlinear_arith);
        let alpha = dot_product(&I_RE, c);
        let beta = dot_product(&I_IM, c);
        plucker_operation(alpha, &I_RE, beta, &I_IM)
    }
}

impl PerspLine {
    /// Whether two lines are parallel: they meet on the line at infinity.
    pub fn is_parallel(&self, other: &PerspLine) -> (r: bool)
        requires
            fits3(cross_s(self.hc(), other.hc())),
        ensures
            r == (dot_s(l_inf(), cross_s(self.hc(), other.hc())) == 0),
    {
        let pt = self.meet(other);
        let p = pt.coords();
        assert(dot_s(l_inf(), tri(p)) == p[2] - p[1]) by (nonlinear_arith);
        p[1] == p[2]
    }
}

impl PerspPoint {
    /// The midpoint of `self` and `other` with respect to the line at infinity.
    pub fn midpoint(&self, other: &PerspPoint) -> (r: PerspPoint)
        requires
            in_i64(dot_s(l_inf(), other.hc())),
            in_i64(dot_s(l_inf(), self.hc())),
            fits3(
                lin_s(dot_s(l_inf(), other.hc()), self.hc(), dot_s(l_inf(), self.hc()), other.hc()),
            ),
        ensures
            r.hc() == lin_s(
                dot_s(l_inf(), other.hc()),
                self.hc(),
                dot_s(l_inf(), self.hc()),
                other.hc(),
            ),
    {
        assert(tri(L_INF) == l_inf());
        let alpha = dot_product(&L_INF, &other.coord);
        let beta = dot_product(&L_INF, &self.coord);
        self.parametrize(alpha, other, beta)
    }
}

/// The pole of a line as a linear map: `(x, y, z) -> (x, y + z, y + z)`.
pub open spec fn pm_s(x: Tri) -> Tri {
    (x.0, x.1 + x.2, x.1 + x.2)
}

/// The cofactor map of `pm_s`.
pub open spec fn pc_s(x: Tri) -> Tri {
    (0, x.1 - x.2, x.2 - x.1)
}

/// The three altitudes of every triangle meet in one point.
pub proof fn perspective_altitudes_concurrent(a1: Tri, a2: Tri, a3: Tri)
    ensures
        coincident_s(
            altitude_s::<PerspPoint, PerspLine>(a1, cross_s(a2, a3)),
            altitude_s::<PerspPoint, PerspLine>(a2, cross_s(a1, a3)),
            altitude_s::<PerspPoint, PerspLine>(a3, cross_s(a1, a2)),
        ),
{
    lemma_persp_pole(cross_s(a2, a3));
    lemma_persp_pole(cross_s(a1, a3));
    lemma_persp_pole(cross_s(a1, a2));
    lemma_pm_altitudes(a1, a2, a3);
}

proof fn lemma_persp_pole(l: Tri)
    ensures
        persp_line_perp(l) == pm_s(l),
{
    assert(persp_line_perp(l) == pm_s(l)) by (nonlinear_arith);
}

proof fn lemma_pm_altitudes(a1: Tri, a2: Tri, a3: Tri)
    ensures
        coincident_s(
            cross_s(pm_s(cross_s(a2, a3)), a1),
            cross_s(pm_s(cross_s(a1, a3)), a2),
            cross_s(pm_s(cross_s(a1, a2)), a3),
        ),
{
    let s1 = cross_s(a2, a3);
    let s2 = cross_s(a1, a3);
    let s3 = cross_s(a1, a2);
    let n1 = pm_s(s1);
    let n2 = pm_s(s2);
    let n3 = pm_s(s3);
    let t1 = cross_s(n1, a1);
    let t2 = cross_s(n2, a2);
    let t3 = cross_s(n3, a3);
        // t1 x t2 = alpha n2 - beta a2
    let alpha = dot_s(t1, a2);
    let beta = dot_s(t1, n2);
    lemma_bac_cab(t1, n2, a2);
    lemma_dot_lin(alpha, n2, -beta, a2, t3);
    lemma_triple(n1, a1, a2);
    assert(alpha == dot_s(n1, s3));
    lemma_triple(n2, n3, a3);
    lemma_det_swap(a2, n3, a3);
    lemma_triple(a2, n3, a3);
    incidence_symmetry(a2, t3);
    incidence_symmetry(n2, t3);
    let sigma = dot_s(n1, s3);
    lemma_pm_sym(s1, s3);
    lemma_pm_sym(s3, s1);
    assert(dot_s(n3, s1) == sigma);
    let g = dot_s(cross_s(n2, n3), a3);
    assert(dot_s(a2, t3) == -sigma);
    assert(dot_s(cross_s(t1, t2), t3) == alpha * g + (-beta) * (-sigma));
    vstd::arithmetic::mul::lemma_mul_unary_negation(beta, -sigma);
    vstd::arithmetic::mul::lemma_mul_is_commutative(beta, sigma);
    assert(dot_s(cross_s(t1, t2), t3) == sigma * g + sigma * beta);
    vstd::arithmetic::mul::lemma_mul_is_distributive_add(sigma, g, beta);
    // g = e * (c a1 . a3)
    let e = dot_s(s2, a2);
    lemma_pm_cross(s2, s3);
    lemma_bac_cab(s2, a1, a2);
    meet_incidence(a1, a3);
    lemma_scale_combination(e, a1, a2);
    assert(cross_s(s2, s3) == scale_s(e, a1));
    lemma_pc_scale_pull(e, a1, a3);
    assert(g == e * dot_s(pc_s(a1), a3));
    // beta = -e * (a1 . c a3)
    lemma_det_cycle(n1, a1, n2);
    lemma_pm_cross(s2, s1);
    lemma_bac_cab(s2, a2, a3);
    lemma_scale_combination_second(e, a2, a3);
    assert(cross_s(s2, s1) == scale_s(-e, a3));
    lemma_pc_scale_pull(-e, a3, a1);
    assert(beta == -e * dot_s(a1, pc_s(a3)));
    lemma_pc_sym(a1, a3);
    vstd::arithmetic::mul::lemma_mul_unary_negation(e, dot_s(a1, pc_s(a3)));
    assert(g + beta == 0);
    assert(sigma * (g + beta) == 0) by (nonlinear_arith)
        requires
            g + beta == 0,
    ;
}

proof fn lemma_pm_sym(x: Tri, y: Tri)
    ensures
        dot_s(pm_s(x), y) == dot_s(pm_s(y), x),
        dot_s(pm_s(x), y) == dot_s(x, pm_s(y)),
{
    let (x0, x1, x2) = x;
    let (y0, y1, y2) = y;
    assert(x0 * (y0) == (x0 * y0)) by (nonlinear_arith);
    vstd::arithmetic::mul::lemma_mul_is_distributive_add_other_way(y1, x1, x2);
    assert((x1) * y1 == (x1 * y1)) by (nonlinear_arith);
    assert((x2) * y1 == (x2 * y1)) by (nonlinear_arith);
    vstd::arithmetic::mul::lemma_mul_is_distributive_add_other_way(y2, x1, x2);
    assert((x1) * y2 == (x1 * y2)) by (nonlinear_arith);
    assert((x2) * y2 == (x2 * y2)) by (nonlinear_arith);
    assert(y0 * (x0) == (x0 * y0)) by (nonlinear_arith);
    vstd::arithmetic::mul::lemma_mul_is_distributive_add_other_way(x1, y1, y2);
    assert((y1) * x1 == (x1 * y1)) by (nonlinear_arith);
    assert((y2) * x1 == (x1 * y2)) by (nonlinear_arith);
    vstd::arithmetic::mul::lemma_mul_is_distributive_add_other_way(x2, y1, y2);
    assert((y1) * x2 == (x2 * y1)) by (nonlinear_arith);
    assert((y2) * x2 == (x2 * y2)) by (nonlinear_arith);
    assert(x0 * (y0) == (x0 * y0)) by (nonlinear_arith);
    vstd::arithmetic::mul::lemma_mul_is_distributive_add(x1, y1, y2);
    assert(x1 * (y1) == (x1 * y1)) by (nonlinear_arith);
    assert(x1 * (y2) == (x1 * y2)) by (nonlinear_arith);
    vstd::arithmetic::mul::lemma_mul_is_distributive_add(x2, y1, y2);
    assert(x2 * (y1) == (x2 * y1)) by (nonlinear_arith);
    assert(x2 * (y2) == (x2 * y2)) by (nonlinear_arith);
}

proof fn lemma_pm_cross(x: Tri, y: Tri)
    ensures
        cross_s(pm_s(x), pm_s(y)) == pc_s(cross_s(x, y)),
{
    let (x0, x1, x2) = x;
    let (y0, y1, y2) = y;
    vstd::arithmetic::mul::lemma_mul_is_distributive_add_other_way(y0, x1, x2);
    assert((x1) * y0 == (x1 * y0)) by (nonlinear_arith);
    assert((x2) * y0 == (x2 * y0)) by (nonlinear_arith);
    vstd::arithmetic::mul::lemma_mul_is_distributive_add(x0, y1, y2);
    assert(x0 * (y1) == (x0 * y1)) by (nonlinear_arith);
    assert(x0 * (y2) == (x0 * y2)) by (nonlinear_arith);
}

proof fn lemma_pc_sym(x: Tri, y: Tri)
    ensures
        dot_s(pc_s(x), y) == dot_s(x, pc_s(y)),
{
    let (x0, x1, x2) = x;
    let (y0, y1, y2) = y;
    assert(0 * (y0) == 0) by (nonlinear_arith);
    vstd::arithmetic::mul::lemma_mul_is_distributive_sub_other_way(y1, x1, x2);
    assert((x1) * y1 == (x1 * y1)) by (nonlinear_arith);
    assert((x2) * y1 == (x2 * y1)) by (nonlinear_arith);
    vstd::arithmetic::mul::lemma_mul_is_distributive_sub_other_way(y2, x2, x1);
    assert((x2) * y2 == (x2 * y2)) by (nonlinear_arith);
    assert((x1) * y2 == (x1 * y2)) by (nonlinear_arith);
    assert(x0 * (0) == 0) by (nonlinear_arith);
    vstd::arithmetic::mul::lemma_mul_is_distributive_sub(x1, y1, y2);
    assert(x1 * (y1) == (x1 * y1)) by (nonlinear_arith);
    assert(x1 * (y2) == (x1 * y2)) by (nonlinear_arith);
    vstd::arithmetic::mul::lemma_mul_is_distributive_sub(x2, y2, y1);
    assert(x2 * (y2) == (x2 * y2)) by (nonlinear_arith);
    assert(x2 * (y1) == (x2 * y1)) by (nonlinear_arith);
}

proof fn lemma_pc_scale_pull(e: int, x: Tri, y: Tri)
    ensures
        dot_s(pc_s(scale_s(e, x)), y) == e * dot_s(pc_s(x), y),
        dot_s(y, pc_s(scale_s(e, x))) == e * dot_s(y, pc_s(x)),
{
    let (x0, x1, x2) = x;
    let (y0, y1, y2) = y;
    assert(0 * (y0) == 0) by (nonlinear_arith);
    vstd::arithmetic::mul::lemma_mul_is_distributive_sub_other_way(y1, e * x1, e * x2);
    assert((e * x1) * y1 == (e * x1 * y1)) by (nonlinear_arith);
    assert((e * x2) * y1 == (e * x2 * y1)) by (nonlinear_arith);
    vstd::arithmetic::mul::lemma_mul_is_distributive_sub_other_way(y2, e * x2, e * x1);
    assert((e * x2) * y2 == (e * x2 * y2)) by (nonlinear_arith);
    assert((e * x1) * y2 == (e * x1 * y2)) by (nonlinear_arith);
    vstd::arithmetic::mul::lemma_mul_is_distributive_add(e, 0 * y0 + (x1 - x2) * y1, (x2 - x1) * y2);
    vstd::arithmetic::mul::lemma_mul_is_distributive_add(e, 0 * y0, (x1 - x2) * y1);
    assert(e * (0 * y0) == 0) by (nonlinear_arith);
    assert(e * ((x1 - x2) * y1) == (e * x1 * y1) - (e * x2 * y1)) by (nonlinear_arith);
    assert(e * ((x2 - x1) * y2) == -(e * x1 * y2) + (e * x2 * y2)) by (nonlinear_arith);
    assert(y0 * (0) == 0) by (nonlinear_arith);
    vstd::arithmetic::mul::lemma_mul_is_distributive_sub(y1, e * x1, e * x2);
    assert(y1 * (e * x1) == (e * x1 * y1)) by (nonlinear_arith);
    assert(y1 * (e * x2) == (e * x2 * y1)) by (nonlinear_arith);
    vstd::arithmetic::mul::lemma_mul_is_distributive_sub(y2, e * x2, e * x1);
    assert(y2 * (e * x2) == (e * x2 * y2)) by (nonlinear_arith);
    assert(y2 * (e * x1) == (e * x1 * y2)) by (nonlinear_arith);
    vstd::arithmetic::mul::lemma_mul_is_distributive_add(e, y0 * 0 + y1 * (x1 - x2), y2 * (x2 - x1));
    vstd::arithmetic::mul::lemma_mul_is_distributive_add(e, y0 * 0, y1 * (x1 - x2));
    assert(e * (y0 * 0) == 0) by (nonlinear_arith);
    assert(e * (y1 * (x1 - x2)) == (e * x1 * y1) - (e * x2 * y1)) by (nonlinear_arith);
    assert(e * (y2 * (x2 - x1)) == -(e * x1 * y2) + (e * x2 * y2)) by (nonlinear_arith);
    vstd::arithmetic::mul::lemma_mul_is_distributive_sub_other_way(y1, x1, x2);
    assert((x1) * y1 == (x1 * y1)) by (nonlinear_arith);
    assert((x2) * y1 == (x2 * y1)) by (nonlinear_arith);
    vstd::arithmetic::mul::lemma_mul_is_distributive_sub_other_way(y2, x2, x1);
    assert((x2) * y2 == (x2 * y2)) by (nonlinear_arith);
    assert((x1) * y2 == (x1 * y2)) by (nonlinear_arith);
    vstd::arithmetic::mul::lemma_mul_is_distributive_sub(y1, x1, x2);
    assert(y1 * (x1) == (x1 * y1)) by (nonlinear_arith);
    assert(y1 * (x2) == (x2 * y1)) by (nonlinear_arith);
    vstd::arithmetic::mul::lemma_mul_is_distributive_sub(y2, x2, x1);
    assert(y2 * (x2) == (x2 * y2)) by (nonlinear_arith);
    assert(y2 * (x1) == (x1 * y2)) by (nonlinear_arith);
}

} // verus!
