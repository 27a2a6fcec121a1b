//! Cayley-Klein planes: projective planes with a polarity, and the metric
//! constructions built on it.
use vstd::prelude::*;
use crate::pg_object::{Line, Point, Tri, cross_s, dot_s, fits3, in_i64, lin_s, scale_s, tri};
use crate::pg_plane::{
    Homogeneous, ProjectivePlane, ProjectivePlanePrimitive, coincident_s, dual_fits, harm_fits,
    involution, involution_fits, involution_s, tri_dual, incidence_symmetry, lemma_bac_cab, lemma_dot_lin,
    lemma_triple, meet_incidence,
};

verus! {

/// The polarity of a geometry, on coordinate triples: the polar line of a
/// point and the pole of a line.
pub trait Polarity {
    spec fn point_perp_s(c: Tri) -> Tri;

    spec fn line_perp_s(c: Tri) -> Tri;

    /// The machine integers of the polar of a point do not overflow.
    spec fn point_perp_fits(c: Tri) -> bool;

    /// The machine integers of the pole of a line do not overflow.
    spec fn line_perp_fits(c: Tri) -> bool;

    fn point_perp(c: &[i64; 3]) -> (r: [i64; 3])
        requires
            Self::point_perp_fits(tri(*c)),
        ensures
            tri(r) == Self::point_perp_s(tri(*c)),
    ;

    fn line_perp(c: &[i64; 3]) -> (r: [i64; 3])
        requires
            Self::line_perp_fits(tri(*c)),
        ensures
            tri(r) == Self::line_perp_s(tri(*c)),
    ;
}

/// A projective plane with a polarity: `perp` maps a point to its polar line
/// and a line to its pole.
pub trait CayleyKleinPlanePrimitive<Dual: Homogeneous>: ProjectivePlanePrimitive<Dual> {
    spec fn perp_s(c: Tri) -> Tri;

    spec fn perp_fits(c: Tri) -> bool;

    fn perp(&self) -> (r: Dual)
        requires
            Self::perp_fits(self.hc()),
        ensures
            r.hc() == Self::perp_s(self.hc()),
    ;
}

/// A measurable projective plane with a polarity.
pub trait CayleyKleinPlane<Dual: Homogeneous>: ProjectivePlane<Dual> + CayleyKleinPlanePrimitive<
    Dual,
> {

}

impl<G: Polarity> CayleyKleinPlanePrimitive<Line<G>> for Point<G> {
    open spec fn perp_s(c: Tri) -> Tri {
        G::point_perp_s(c)
    }

    open spec fn perp_fits(c: Tri) -> bool {
        G::point_perp_fits(c)
    }

    fn perp(&self) -> Line<G> {
        Line::new(G::point_perp(&self.coord))
    }
}

impl<G: Polarity> CayleyKleinPlanePrimitive<Point<G>> for Line<G> {
    open spec fn perp_s(c: Tri) -> Tri {
        G::line_perp_s(c)
    }

    open spec fn perp_fits(c: Tri) -> bool {
        G::line_perp_fits(c)
    }

    fn perp(&self) -> Point<G> {
        Point::new(G::line_perp(&self.coord))
    }
}

impl<G: Polarity> CayleyKleinPlane<Line<G>> for Point<G> {

}

impl<G: Polarity> CayleyKleinPlane<Point<G>> for Line<G> {

}

/// The line through `p` perpendicular to the line `m`.
pub open spec fn altitude_s<Point, Line>(p: Tri, m: Tri) -> Tri where
    Point: CayleyKleinPlanePrimitive<Line>,
    Line: CayleyKleinPlanePrimitive<Point>,
 {
    cross_s(Line::perp_s(m), p)
}

/// The machine integers of `altitude` do not overflow.
pub open spec fn altitude_fits<Point, Line>(p: Tri, m: Tri) -> bool where
    Point: CayleyKleinPlanePrimitive<Line>,
    Line: CayleyKleinPlanePrimitive<Point>,
 {
    Line::perp_fits(m) && fits3(cross_s(Line::perp_s(m), p))
}

/// The orthocenter of the triangle `a1 a2 a3`, as the meet of the altitudes
/// from `a1` and `a2`.
pub open spec fn orthocenter_s<Point, Line>(a1: Tri, a2: Tri, a3: Tri) -> Tri where
    Point: CayleyKleinPlanePrimitive<Line>,
    Line: CayleyKleinPlanePrimitive<Point>,
 {
    cross_s(
        altitude_s::<Point, Line>(a1, cross_s(a2, a3)),
        altitude_s::<Point, Line>(a2, cross_s(a3, a1)),
    )
}

/// The machine integers of `orthocenter` do not overflow.
pub open spec fn orthocenter_fits<Point, Line>(a1: Tri, a2: Tri, a3: Tri) -> bool where
    Point: CayleyKleinPlanePrimitive<Line>,
    Line: CayleyKleinPlanePrimitive<Point>,
 {
    &&& dual_fits(a1, a2, a3)
    &&& fits3(cross_s(a3, a1))
    &&& altitude_fits::<Point, Line>(a1, cross_s(a2, a3))
    &&& altitude_fits::<Point, Line>(a2, cross_s(a3, a1))
    &&& fits3(orthocenter_s::<Point, Line>(a1, a2, a3))
}

/// The machine integers of `tri_altitude` do not overflow.
pub open spec fn tri_altitude_fits<Point, Line>(a1: Tri, a2: Tri, a3: Tri) -> bool where
    Point: CayleyKleinPlanePrimitive<Line>,
    Line: CayleyKleinPlanePrimitive<Point>,
 {
    &&& dual_fits(a1, a2, a3)
    &&& altitude_fits::<Point, Line>(a1, cross_s(a2, a3))
    &&& altitude_fits::<Point, Line>(a2, cross_s(a1, a3))
    &&& altitude_fits::<Point, Line>(a3, cross_s(a1, a2))
}

/// Whether the lines `line_1` and `line_2` are perpendicular: the pole of the
/// first lies on the second.
pub fn is_perpendicular<Point, Line>(line_1: &Line, line_2: &Line) -> (r: bool) where
    Point: CayleyKleinPlanePrimitive<Line>,
    Line: CayleyKleinPlanePrimitive<Point>,

    requires
        Line::perp_fits(line_1.hc()),
        in_i64(dot_s(Line::perp_s(line_1.hc()), line_2.hc())),
    ensures
        r == (dot_s(Line::perp_s(line_1.hc()), line_2.hc()) == 0),
{
    line_1.perp().incident(line_2)
}

/// The altitude from `point_p` to `line_m`: the line through `point_p`
/// perpendicular to `line_m`.
pub fn altitude<Point, Line>(point_p: &Point, line_m: &Line) -> (r: Line) where
    Point: CayleyKleinPlanePrimitive<Line>,
    Line: CayleyKleinPlanePrimitive<Point>,

    requires
        altitude_fits::<Point, Line>(point_p.hc(), line_m.hc()),
    ensures
        r.hc() == altitude_s::<Point, Line>(point_p.hc(), line_m.hc()),
{
    line_m.perp().meet(point_p)
}

/// The orthocenter of a triangle: the meet of its altitudes. The triangle
/// must not be degenerate.
pub fn orthocenter<Point, Line>(triangle: &[Point; 3]) -> (r: Point) where
    Point: CayleyKleinPlanePrimitive<Line>,
    Line: CayleyKleinPlanePrimitive<Point>,

    requires
        !coincident_s(triangle[0].hc(), triangle[1].hc(), triangle[2].hc()),
        orthocenter_fits::<Point, Line>(triangle[0].hc(), triangle[1].hc(), triangle[2].hc()),
    ensures
        r.hc() == orthocenter_s::<Point, Line>(
            triangle[0].hc(),
            triangle[1].hc(),
            triangle[2].hc(),
        ),
{
    let a_1 = &triangle[0];
    let a_2 = &triangle[1];
    let a_3 = &triangle[2];
    let t_1 = altitude(a_1, &a_2.meet(a_3));
    let t_2 = altitude(a_2, &a_3.meet(a_1));
    t_1.meet(&t_2)
}

/// The three altitudes of a triangle, one from each vertex. The triangle must
/// not be degenerate.
pub fn tri_altitude<Point, Line>(triangle: &[Point; 3]) -> (r: [Line; 3]) where
    Point: CayleyKleinPlanePrimitive<Line>,
    Line: CayleyKleinPlanePrimitive<Point>,

    requires
        !coincident_s(triangle[0].hc(), triangle[1].hc(), triangle[2].hc()),
        tri_altitude_fits::<Point, Line>(triangle[0].hc(), triangle[1].hc(), triangle[2].hc()),
    ensures
        r[0].hc() == altitude_s::<Point, Line>(
            triangle[0].hc(),
            cross_s(triangle[1].hc(), triangle[2].hc()),
        ),
        r[1].hc() == altitude_s::<Point, Line>(
            triangle[1].hc(),
            cross_s(triangle[0].hc(), triangle[2].hc()),
        ),
        r[2].hc() == altitude_s::<Point, Line>(
            triangle[2].hc(),
            cross_s(triangle[0].hc(), triangle[1].hc()),
        ),
{
    let sides = tri_dual(triangle);
    let t_1 = altitude(&triangle[0], &sides[0]);
    let t_2 = altitude(&triangle[1], &sides[1]);
    let t_3 = altitude(&triangle[2], &sides[2]);
    [t_1, t_2, t_3]
}

/// The reflection of `point_p` in the line `mirror`: the involution whose
/// centre is the pole of the mirror.
pub fn reflect<Point, Line>(mirror: &Line, point_p: &Point) -> (r: Point) where
    Point: CayleyKleinPlane<Line>,
    Line: CayleyKleinPlane<Point>,

    requires
        Line::perp_fits(mirror.hc()),
        involution_fits(Line::perp_s(mirror.hc()), mirror.hc(), point_p.hc()),
    ensures
        r.hc() == involution_s(Line::perp_s(mirror.hc()), mirror.hc(), point_p.hc()),
{
    involution(&mirror.perp(), mirror, point_p)
}

// ---------------------------------------------------------------------------
// Concurrency of the altitudes

/// The diagonal linear map `x -> (m0 x0, m1 x1, m2 x2)`.
pub open spec fn diag_s(m: Tri, x: Tri) -> Tri {
    (m.0 * x.0, m.1 * x.1, m.2 * x.2)
}

/// The cofactors of a diagonal map.
pub open spec fn cof_s(m: Tri) -> Tri {
    (m.1 * m.2, m.0 * m.2, m.0 * m.1)
}

/// The three altitudes of the triangle `a1 a2 a3` meet in one point, for
/// any polarity of lines given by a diagonal map `m`.
pub proof fn diagonal_altitudes_concurrent(m: Tri, a1: Tri, a2: Tri, a3: Tri)
    ensures
        coincident_s(
            cross_s(diag_s(m, cross_s(a2, a3)), a1),
            cross_s(diag_s(m, cross_s(a1, a3)), a2),
            cross_s(diag_s(m, cross_s(a1, a2)), a3),
        ),
{
    let s1 = cross_s(a2, a3);
    let s2 = cross_s(a1, a3);
    let s3 = cross_s(a1, a2);
    let n1 = diag_s(m, s1);
    let n2 = diag_s(m, s2);
    let n3 = diag_s(m, s3);
    let t1 = cross_s(n1, a1);
    let t2 = cross_s(n2, a2);
    let t3 = cross_s(n3, a3);
    let c = cof_s(m);
    // t1 x t2 = alpha n2 - beta a2
    let alpha = dot_s(t1, a2);
    let beta = dot_s(t1, n2);
    lemma_bac_cab(t1, n2, a2);
    lemma_dot_lin(alpha, n2, -beta, a2, t3);
    lemma_triple(n1, a1, a2);
    assert(alpha == dot_s(n1, s3));
    lemma_triple(n2, n3, a3);
    lemma_det_swap(a2, n3, a3);
    lemma_triple(a2, n3, a3);
    incidence_symmetry(a2, t3);
    incidence_symmetry(n2, t3);
    let sigma = dot_s(n1, s3);
    lemma_diag_sym(m, s1, s3);
    lemma_diag_sym(m, s3, s1);
    assert(dot_s(n3, s1) == sigma);
    let g = dot_s(cross_s(n2, n3), a3);
    assert(dot_s(a2, t3) == -sigma);
    assert(dot_s(cross_s(t1, t2), t3) == alpha * g + (-beta) * (-sigma));
    vstd::arithmetic::mul::lemma_mul_unary_negation(beta, -sigma);
    vstd::arithmetic::mul::lemma_mul_is_commutative(beta, sigma);
    assert(dot_s(cross_s(t1, t2), t3) == sigma * g + sigma * beta);
    vstd::arithmetic::mul::lemma_mul_is_distributive_add(sigma, g, beta);
    // g = e * (c a1 . a3)
    let e = dot_s(s2, a2);
    lemma_diag_cross(m, s2, s3);
    lemma_bac_cab(s2, a1, a2);
    meet_incidence(a1, a3);
    lemma_scale_combination(e, a1, a2);
    assert(cross_s(s2, s3) == scale_s(e, a1));
    lemma_scale_pull(c, e, a1, a3);
    assert(g == e * dot_s(diag_s(c, a1), a3));
    // beta = -e * (a1 . c a3)
    lemma_det_cycle(n1, a1, n2);
    lemma_diag_cross(m, s2, s1);
    lemma_bac_cab(s2, a2, a3);
    lemma_scale_combination_second(e, a2, a3);
    assert(cross_s(s2, s1) == scale_s(-e, a3));
    lemma_scale_pull(c, -e, a3, a1);
    assert(beta == -e * dot_s(a1, diag_s(c, a3)));
    lemma_diag_sym(c, a1, a3);
    vstd::arithmetic::mul::lemma_mul_unary_negation(e, dot_s(a1, diag_s(c, a3)));
    assert(g + beta == 0);
    assert(sigma * (g + beta) == 0) by (nonlinear_arith)
        requires
            g + beta == 0,
    ;
}

pub proof fn lemma_scale_combination(e: int, a: Tri, b: Tri)
    ensures
        lin_s(e, a, -0, b) == scale_s(e, a),
{
    assert(-0 * b.0 == 0 && -0 * b.1 == 0 && -0 * b.2 == 0) by (nonlinear_arith);
}

pub proof fn lemma_scale_combination_second(e: int, a: Tri, b: Tri)
    ensures
        lin_s(0, a, -e, b) == scale_s(-e, b),
{
    assert(0 * a.0 == 0 && 0 * a.1 == 0 && 0 * a.2 == 0) by (nonlinear_arith);
}

/// `(p x q) . r == -(q . (p x r))`.
pub proof fn lemma_det_swap(p: Tri, q: Tri, r: Tri)
    ensures
        dot_s(cross_s(p, q), r) == -dot_s(q, cross_s(p, r)),
{
    let (p0, p1, p2) = p;
    let (q0, q1, q2) = q;
    let (r0, r1, r2) = r;
    vstd::arithmetic::mul::lemma_mul_is_distributive_sub_other_way(r0, p1 * q2, p2 * q1);
    assert((p1 * q2) * r0 == (p1 * q2 * r0)) by (nonlinear_arith);
    assert((p2 * q1) * r0 == (p2 * q1 * r0)) by (nonlinear_arith);
    vstd::arithmetic::mul::lemma_mul_is_distributive_sub_other_way(r1, p2 * q0, p0 * q2);
    assert((p2 * q0) * r1 == (p2 * q0 * r1)) by (nonlinear_arith);
    assert((p0 * q2) * r1 == (p0 * q2 * r1)) by (nonlinear_arith);
    vstd::arithmetic::mul::lemma_mul_is_distributive_sub_other_way(r2, p0 * q1, p1 * q0);
    assert((p0 * q1) * r2 == (p0 * q1 * r2)) by (nonlinear_arith);
    assert((p1 * q0) * r2 == (p1 * q0 * r2)) by (nonlinear_arith);
    vstd::arithmetic::mul::lemma_mul_is_distributive_sub(q0, p1 * r2, p2 * r1);
    assert(q0 * (p1 * r2) == (p1 * q0 * r2)) by (nonlinear_arith);
    assert(q0 * (p2 * r1) == (p2 * q0 * r1)) by (nonlinear_arith);
    vstd::arithmetic::mul::lemma_mul_is_distributive_sub(q1, p2 * r0, p0 * r2);
    assert(q1 * (p2 * r0) == (p2 * q1 * r0)) by (nonlinear_arith);
    assert(q1 * (p0 * r2) == (p0 * q1 * r2)) by (nonlinear_arith);
    vstd::arithmetic::mul::lemma_mul_is_distributive_sub(q2, p0 * r1, p1 * r0);
    assert(q2 * (p0 * r1) == (p0 * q2 * r1)) by (nonlinear_arith);
    assert(q2 * (p1 * r0) == (p1 * q2 * r0)) by (nonlinear_arith);
}

/// `(p x q) . r == q . (r x p)`.
pub proof fn lemma_det_cycle(p: Tri, q: Tri, r: Tri)
    ensures
        dot_s(cross_s(p, q), r) == dot_s(q, cross_s(r, p)),
{
    let (p0, p1, p2) = p;
    let (q0, q1, q2) = q;
    let (r0, r1, r2) = r;
    vstd::arithmetic::mul::lemma_mul_is_distributive_sub_other_way(r0, p1 * q2, p2 * q1);
    assert((p1 * q2) * r0 == (p1 * q2 * r0)) by (nonlinear_arith);
    assert((p2 * q1) * r0 == (p2 * q1 * r0)) by (nonlinear_arith);
    vstd::arithmetic::mul::lemma_mul_is_distributive_sub_other_way(r1, p2 * q0, p0 * q2);
    assert((p2 * q0) * r1 == (p2 * q0 * r1)) by (nonlinear_arith);
    assert((p0 * q2) * r1 == (p0 * q2 * r1)) by (nonlinear_arith);
    vstd::arithmetic::mul::lemma_mul_is_distributive_sub_other_way(r2, p0 * q1, p1 * q0);
    assert((p0 * q1) * r2 == (p0 * q1 * r2)) by (nonlinear_arith);
    assert((p1 * q0) * r2 == (p1 * q0 * r2)) by (nonlinear_arith);
    vstd::arithmetic::mul::lemma_mul_is_distributive_sub(q0, r1 * p2, r2 * p1);
    assert(q0 * (r1 * p2) == (p2 * q0 * r1)) by (nonlinear_arith);
    assert(q0 * (r2 * p1) == (p1 * q0 * r2)) by (nonlinear_arith);
    vstd::arithmetic::mul::lemma_mul_is_distributive_sub(q1, r2 * p0, r0 * p2);
    assert(q1 * (r2 * p0) == (p0 * q1 * r2)) by (nonlinear_arith);
    assert(q1 * (r0 * p2) == (p2 * q1 * r0)) by (nonlinear_arith);
    vstd::arithmetic::mul::lemma_mul_is_distributive_sub(q2, r0 * p1, r1 * p0);
    assert(q2 * (r0 * p1) == (p1 * q2 * r0)) by (nonlinear_arith);
    assert(q2 * (r1 * p0) == (p0 * q2 * r1)) by (nonlinear_arith);
}

/// A diagonal map is symmetric for the pairing.
pub proof fn lemma_diag_sym(m: Tri, x: Tri, y: Tri)
    ensures
        dot_s(diag_s(m, x), y) == dot_s(diag_s(m, y), x),
        dot_s(diag_s(m, x), y) == dot_s(x, diag_s(m, y)),
{
    let (m0, m1, m2) = m;
    let (x0, x1, x2) = x;
    let (y0, y1, y2) = y;
    assert(m0 * x0 * (y0) == (m0 * x0 * y0)) by (nonlinear_arith);
    assert(m1 * x1 * (y1) == (m1 * x1 * y1)) by (nonlinear_arith);
    assert(m2 * x2 * (y2) == (m2 * x2 * y2)) by (nonlinear_arith);
    assert(m0 * y0 * (x0) == (m0 * x0 * y0)) by (nonlinear_arith);
    assert(m1 * y1 * (x1) == (m1 * x1 * y1)) by (nonlinear_arith);
    assert(m2 * y2 * (x2) == (m2 * x2 * y2)) by (nonlinear_arith);
    assert(x0 * (m0 * y0) == (m0 * x0 * y0)) by (nonlinear_arith);
    assert(x1 * (m1 * y1) == (m1 * x1 * y1)) by (nonlinear_arith);
    assert(x2 * (m2 * y2) == (m2 * x2 * y2)) by (nonlinear_arith);
}

/// `(M x) x (M y) == cof(M) (x x y)` for a diagonal `M`.
pub proof fn lemma_diag_cross(m: Tri, x: Tri, y: Tri)
    ensures
        cross_s(diag_s(m, x), diag_s(m, y)) == diag_s(cof_s(m), cross_s(x, y)),
{
    let (m0, m1, m2) = m;
    let (x0, x1, x2) = x;
    let (y0, y1, y2) = y;
    assert(m1 * x1 * (m2 * y2) == (m1 * m2 * x1 * y2)) by (nonlinear_arith);
    assert(m2 * x2 * (m1 * y1) == (m1 * m2 * x2 * y1)) by (nonlinear_arith);
    vstd::arithmetic::mul::lemma_mul_is_distributive_sub(m1 * m2, x1 * y2, x2 * y1);
    assert(m1 * m2 * (x1 * y2) == (m1 * m2 * x1 * y2)) by (nonlinear_arith);
    assert(m1 * m2 * (x2 * y1) == (m1 * m2 * x2 * y1)) by (nonlinear_arith);
    assert(m2 * x2 * (m0 * y0) == (m0 * m2 * x2 * y0)) by (nonlinear_arith);
    assert(m0 * x0 * (m2 * y2) == (m0 * m2 * x0 * y2)) by (nonlinear_arith);
    vstd::arithmetic::mul::lemma_mul_is_distributive_sub(m0 * m2, x2 * y0, x0 * y2);
    assert(m0 * m2 * (x2 * y0) == (m0 * m2 * x2 * y0)) by (nonlinear_arith);
    assert(m0 * m2 * (x0 * y2) == (m0 * m2 * x0 * y2)) by (nonlinear_arith);
    assert(m0 * x0 * (m1 * y1) == (m0 * m1 * x0 * y1)) by (nonlinear_arith);
    assert(m1 * x1 * (m0 * y0) == (m0 * m1 * x1 * y0)) by (nonlinear_arith);
    vstd::arithmetic::mul::lemma_mul_is_distributive_sub(m0 * m1, x0 * y1, x1 * y0);
    assert(m0 * m1 * (x0 * y1) == (m0 * m1 * x0 * y1)) by (nonlinear_arith);
    assert(m0 * m1 * (x1 * y0) == (m0 * m1 * x1 * y0)) by (nonlinear_arith);
}

/// A scale factor moves out of a diagonal map and a pairing.
pub proof fn lemma_scale_pull(c: Tri, e: int, x: Tri, y: Tri)
    ensures
        dot_s(diag_s(c, scale_s(e, x)), y) == e * dot_s(diag_s(c, x), y),
        dot_s(y, diag_s(c, scale_s(e, x))) == e * dot_s(y, diag_s(c, x)),
{
    let (c0, c1, c2) = c;
    let (x0, x1, x2) = x;
    let (y0, y1, y2) = y;
    assert(c0 * (e * x0) * (y0) == (c0 * e * x0 * y0)) by (nonlinear_arith);
    assert(c1 * (e * x1) * (y1) == (c1 * e * x1 * y1)) by (nonlinear_arith);
    assert(c2 * (e * x2) * (y2) == (c2 * e * x2 * y2)) by (nonlinear_arith);
    vstd::arithmetic::mul::lemma_mul_is_distributive_add(e, c0 * x0 * y0 + c1 * x1 * y1, c2 * x2 * y2);
    vstd::arithmetic::mul::lemma_mul_is_distributive_add(e, c0 * x0 * y0, c1 * x1 * y1);
    assert(e * (c0 * x0 * y0) == (c0 * e * x0 * y0)) by (nonlinear_arith);
    assert(e * (c1 * x1 * y1) == (c1 * e * x1 * y1)) by (nonlinear_arith);
    assert(e * (c2 * x2 * y2) == (c2 * e * x2 * y2)) by (nonlinear_arith);
    assert(y0 * (c0 * (e * x0)) == (c0 * e * x0 * y0)) by (nonlinear_arith);
    assert(y1 * (c1 * (e * x1)) == (c1 * e * x1 * y1)) by (nonlinear_arith);
    assert(y2 * (c2 * (e * x2)) == (c2 * e * x2 * y2)) by (nonlinear_arith);
    vstd::arithmetic::mul::lemma_mul_is_distributive_add(e, y0 * (c0 * x0) + y1 * (c1 * x1), y2 * (c2 * x2));
    vstd::arithmetic::mul::lemma_mul_is_distributive_add(e, y0 * (c0 * x0), y1 * (c1 * x1));
    assert(e * (y0 * (c0 * x0)) == (c0 * e * x0 * y0)) by (nonlinear_arith);
    assert(e * (y1 * (c1 * x1)) == (c1 * e * x1 * y1)) by (nonlinear_arith);
    assert(e * (y2 * (c2 * x2)) == (c2 * e * x2 * y2)) by (nonlinear_arith);
    assert(y0 * (c0 * x0) == (c0 * x0 * y0)) by (nonlinear_arith);
    assert(y1 * (c1 * x1) == (c1 * x1 * y1)) by (nonlinear_arith);
    assert(y2 * (c2 * x2) == (c2 * x2 * y2)) by (nonlinear_arith);
}

} // verus!
