//! The projective plane contract and the algorithms that hold in every plane
//! that meets it.
use vstd::prelude::*;
use crate::pg_object::{Tri, cross_s, dot_s, fits3, in_i64, lin_s, proj_eq, scale_s, zero3};

verus! {

/// An object given by homogeneous coordinates.
pub trait Homogeneous: Sized {
    /// The coordinates, as integers.
    spec fn hc(&self) -> Tri;

    fn coords(&self) -> (r: [i64; 3])
        ensures
            crate::pg_object::tri(r) == self.hc(),
    ;

    /// Equality up to a nonzero scale.
    fn same_as(&self, other: &Self) -> (r: bool)
        ensures
            r == proj_eq(self.hc(), other.hc()),
    ;
}

/// Points and lines of a projective plane: each kind has the other as its dual.
pub trait ProjectivePlanePrimitive<Dual: Homogeneous>: Homogeneous + Eq {
    /// The join of two points, or the meet of two lines.
    fn meet(&self, rhs: &Self) -> (r: Dual)
        requires
            fits3(cross_s(self.hc(), rhs.hc())),
        ensures
            r.hc() == cross_s(self.hc(), rhs.hc()),
    ;

    /// Incidence of a point and a line.
    fn incident(&self, dual: &Dual) -> (r: bool)
        requires
            in_i64(dot_s(self.hc(), dual.hc())),
        ensures
            r == (dot_s(self.hc(), dual.hc()) == 0),
    ;
}

/// A measurable projective plane.
pub trait ProjectivePlane<Dual: Homogeneous>: ProjectivePlanePrimitive<Dual> {
    /// A dual object that is not incident with `self` (when `self` is not the zero triple).
    fn aux(&self) -> (r: Dual)
        ensures
            r.hc() == self.hc(),
    ;

    /// The bilinear pairing whose zeros are the incidences.
    fn dot(&self, dual: &Dual) -> (r: i64)
        requires
            in_i64(dot_s(self.hc(), dual.hc())),
        ensures
            r == dot_s(self.hc(), dual.hc()),
    ;

    /// The linear combination `lambda_val * self + mu_val * other`.
    fn parametrize(&self, lambda_val: i64, other: &Self, mu_val: i64) -> (r: Self)
        requires
            fits3(lin_s(lambda_val as int, self.hc(), mu_val as int, other.hc())),
        ensures
            r.hc() == lin_s(lambda_val as int, self.hc(), mu_val as int, other.hc()),
    ;
}

/// `r` lies on the line through `p` and `q`.
pub open spec fn coincident_s(p: Tri, q: Tri, r: Tri) -> bool {
    dot_s(cross_s(p, q), r) == 0
}

/// The machine integers of `coincident` do not overflow.
pub open spec fn coincident_fits(p: Tri, q: Tri, r: Tri) -> bool {
    fits3(cross_s(p, q)) && in_i64(dot_s(cross_s(p, q), r))
}

/// The harmonic conjugate of `c` with respect to `a` and `b`, as built by
/// `harm_conj`.
pub open spec fn harm_s(a: Tri, b: Tri, c: Tri) -> Tri {
    let lc = cross_s(cross_s(a, b), c);
    lin_s(dot_s(lc, b), a, dot_s(lc, a), b)
}

/// The machine integers of `harm_conj` do not overflow.
pub open spec fn harm_fits(a: Tri, b: Tri, c: Tri) -> bool {
    let ab = cross_s(a, b);
    let lc = cross_s(ab, c);
    &&& coincident_fits(a, b, c)
    &&& fits3(lc)
    &&& in_i64(dot_s(lc, b))
    &&& in_i64(dot_s(lc, a))
    &&& fits3(harm_s(a, b, c))
}

/// The point where the line through `p` and `origin` meets `mirror`.
pub open spec fn mirror_foot_s(origin: Tri, mirror: Tri, p: Tri) -> Tri {
    cross_s(cross_s(p, origin), mirror)
}

/// The image of `p` under the involution with centre `origin` and axis `mirror`.
pub open spec fn involution_s(origin: Tri, mirror: Tri, p: Tri) -> Tri {
    harm_s(origin, mirror_foot_s(origin, mirror, p), p)
}

/// The machine integers of `involution` do not overflow.
pub open spec fn involution_fits(origin: Tri, mirror: Tri, p: Tri) -> bool {
    &&& fits3(cross_s(p, origin))
    &&& fits3(mirror_foot_s(origin, mirror, p))
    &&& harm_fits(origin, mirror_foot_s(origin, mirror, p), p)
}

/// The centre test of `persp`: the line through `c` and `f` passes through the
/// meet of the lines `ad` and `be`.
pub open spec fn persp_s(a: Tri, b: Tri, c: Tri, d: Tri, e: Tri, f: Tri) -> bool {
    dot_s(cross_s(c, f), cross_s(cross_s(a, d), cross_s(b, e))) == 0
}

/// The machine integers of `persp` do not overflow.
pub open spec fn persp_fits(a: Tri, b: Tri, c: Tri, d: Tri, e: Tri, f: Tri) -> bool {
    &&& fits3(cross_s(a, d))
    &&& fits3(cross_s(b, e))
    &&& fits3(cross_s(c, f))
    &&& fits3(cross_s(cross_s(a, d), cross_s(b, e)))
    &&& in_i64(dot_s(cross_s(c, f), cross_s(cross_s(a, d), cross_s(b, e))))
}

/// The three side lines of the triangle `a1 a2 a3`, opposite each vertex.
pub open spec fn dual_fits(a1: Tri, a2: Tri, a3: Tri) -> bool {
    &&& coincident_fits(a1, a2, a3)
    &&& fits3(cross_s(a2, a3))
    &&& fits3(cross_s(a1, a3))
}

/// The intersection of the cross joins of a hexagon inscribed in two triples.
pub open spec fn pappus_g(a: Tri, b: Tri, d: Tri, e: Tri) -> Tri {
    cross_s(cross_s(a, e), cross_s(b, d))
}

/// The machine integers of `check_pappus` do not overflow.
pub open spec fn pappus_fits(a: Tri, b: Tri, c: Tri, d: Tri, e: Tri, f: Tri) -> bool {
    &&& fits3(cross_s(a, e)) &&& fits3(cross_s(b, d))
    &&& fits3(cross_s(a, f)) &&& fits3(cross_s(c, d))
    &&& fits3(cross_s(b, f)) &&& fits3(cross_s(c, e))
    &&& fits3(pappus_g(a, b, d, e))
    &&& fits3(pappus_g(a, c, d, f))
    &&& fits3(pappus_g(b, c, e, f))
    &&& coincident_fits(pappus_g(a, b, d, e), pappus_g(a, c, d, f), pappus_g(b, c, e, f))
}

/// Whether `pt_r` lies on the line through `pt_p` and `pt_q`.
pub fn coincident<Point, Line>(pt_p: &Point, pt_q: &Point, pt_r: &Point) -> (r: bool) where
    Point: ProjectivePlanePrimitive<Line>,
    Line: ProjectivePlanePrimitive<Point>,

    requires
        coincident_fits(pt_p.hc(), pt_q.hc(), pt_r.hc()),
    ensures
        r == coincident_s(pt_p.hc(), pt_q.hc(), pt_r.hc()),
{
    pt_p.meet(pt_q).incident(pt_r)
}

/// Checks the incidence axioms on `pt_p`, `pt_q` and `ln_l`: incidence is
/// symmetric, the join is symmetric, and the join passes through both points.
/// They always hold.
pub fn check_axiom<Point, Line>(pt_p: &Point, pt_q: &Point, ln_l: &Line) -> (r: bool) where
    Point: ProjectivePlanePrimitive<Line>,
    Line: ProjectivePlanePrimitive<Point>,

    requires
        in_i64(dot_s(pt_p.hc(), ln_l.hc())),
        fits3(cross_s(pt_p.hc(), pt_q.hc())),
        fits3(cross_s(pt_q.hc(), pt_p.hc())),
    ensures
        r,
{
    proof {
        incidence_symmetry(pt_p.hc(), ln_l.hc());
        meet_symmetry(pt_p.hc(), pt_q.hc());
        meet_incidence(pt_p.hc(), pt_q.hc());
    }
    let sym_incident = pt_p.incident(ln_l) == ln_l.incident(pt_p);
    let ln_m = pt_p.meet(pt_q);
    let sym_meet = ln_m.same_as(&pt_q.meet(pt_p));
    sym_incident && sym_meet && ln_m.incident(pt_p) && ln_m.incident(pt_q)
}

/// Pappus' hexagon theorem on the triples `coline_1` and `coline_2`: whether
/// the three cross joins are collinear.
pub fn check_pappus<Point, Line>(coline_1: &[Point; 3], coline_2: &[Point; 3]) -> (r: bool) where
    Point: ProjectivePlanePrimitive<Line>,
    Line: ProjectivePlanePrimitive<Point>,

    requires
        pappus_fits(
            coline_1[0].hc(),
            coline_1[1].hc(),
            coline_1[2].hc(),
            coline_2[0].hc(),
            coline_2[1].hc(),
            coline_2[2].hc(),
        ),
    ensures
        r == coincident_s(
            pappus_g(coline_1[0].hc(), coline_1[1].hc(), coline_2[0].hc(), coline_2[1].hc()),
            pappus_g(coline_1[0].hc(), coline_1[2].hc(), coline_2[0].hc(), coline_2[2].hc()),
            pappus_g(coline_1[1].hc(), coline_1[2].hc(), coline_2[1].hc(), coline_2[2].hc()),
        ),
{
    let pt_a = &coline_1[0];
    let pt_b = &coline_1[1];
    let pt_c = &coline_1[2];
    let pt_d = &coline_2[0];
    let pt_e = &coline_2[1];
    let pt_f = &coline_2[2];
    let pt_g = pt_a.meet(pt_e).meet(&pt_b.meet(pt_d));
    let pt_h = pt_a.meet(pt_f).meet(&pt_c.meet(pt_d));
    let pt_i = pt_b.meet(pt_f).meet(&pt_c.meet(pt_e));
    coincident(&pt_g, &pt_h, &pt_i)
}

/// The three side lines of a triangle, each opposite its vertex:
/// `[a2 a3, a1 a3, a1 a2]`. The triangle must not be degenerate.
pub fn tri_dual<Point, Line>(triangle: &[Point; 3]) -> (r: [Line; 3]) where
    Point: ProjectivePlanePrimitive<Line>,
    Line: ProjectivePlanePrimitive<Point>,

    requires
        dual_fits(triangle[0].hc(), triangle[1].hc(), triangle[2].hc()),
        !coincident_s(triangle[0].hc(), triangle[1].hc(), triangle[2].hc()),
    ensures
        r[0].hc() == cross_s(triangle[1].hc(), triangle[2].hc()),
        r[1].hc() == cross_s(triangle[0].hc(), triangle[2].hc()),
        r[2].hc() == cross_s(triangle[0].hc(), triangle[1].hc()),
{
    let a_1 = &triangle[0];
    let a_2 = &triangle[1];
    let a_3 = &triangle[2];
    [a_2.meet(a_3), a_1.meet(a_3), a_1.meet(a_2)]
}

/// Whether two triangles are perspective from a point: the lines joining
/// corresponding vertices are concurrent.
pub fn persp<Point, Line>(tri1: &[Point; 3], tri2: &[Point; 3]) -> (r: bool) where
    Point: ProjectivePlanePrimitive<Line>,
    Line: ProjectivePlanePrimitive<Point>,

    requires
        persp_fits(
            tri1[0].hc(),
            tri1[1].hc(),
            tri1[2].hc(),
            tri2[0].hc(),
            tri2[1].hc(),
            tri2[2].hc(),
        ),
    ensures
        r == persp_s(
            tri1[0].hc(),
            tri1[1].hc(),
            tri1[2].hc(),
            tri2[0].hc(),
            tri2[1].hc(),
            tri2[2].hc(),
        ),
{
    let pt_a = &tri1[0];
    let pt_b = &tri1[1];
    let pt_c = &tri1[2];
    let pt_d = &tri2[0];
    let pt_e = &tri2[1];
    let pt_f = &tri2[2];
    let pt_o = pt_a.meet(pt_d).meet(&pt_b.meet(pt_e));
    pt_c.meet(pt_f).incident(&pt_o)
}

/// The centre test of `persp` on the dual triangles of `a b c` and `d e f`.
pub open spec fn persp_dual_s(a: Tri, b: Tri, c: Tri, d: Tri, e: Tri, f: Tri) -> bool {
    persp_s(cross_s(b, c), cross_s(a, c), cross_s(a, b), cross_s(e, f), cross_s(d, f), cross_s(d, e))
}

/// The machine integers of `check_desargue` do not overflow.
pub open spec fn desargue_fits(a: Tri, b: Tri, c: Tri, d: Tri, e: Tri, f: Tri) -> bool {
    &&& dual_fits(a, b, c)
    &&& dual_fits(d, e, f)
    &&& persp_fits(a, b, c, d, e, f)
    &&& persp_fits(
        cross_s(b, c),
        cross_s(a, c),
        cross_s(a, b),
        cross_s(e, f),
        cross_s(d, f),
        cross_s(d, e),
    )
}

/// Desargues' theorem on two triangles: whether being perspective from a
/// point (`persp` on the vertices) agrees with being perspective from a line
/// (`persp` on the side lines). Both triangles must be non-degenerate.
pub fn check_desargue<Point, Line>(tri1: &[Point; 3], tri2: &[Point; 3]) -> (r: bool) where
    Point: ProjectivePlanePrimitive<Line>,
    Line: ProjectivePlanePrimitive<Point>,

    requires
        !coincident_s(tri1[0].hc(), tri1[1].hc(), tri1[2].hc()),
        !coincident_s(tri2[0].hc(), tri2[1].hc(), tri2[2].hc()),
        desargue_fits(
            tri1[0].hc(),
            tri1[1].hc(),
            tri1[2].hc(),
            tri2[0].hc(),
            tri2[1].hc(),
            tri2[2].hc(),
        ),
    ensures
        r == (persp_s(
            tri1[0].hc(),
            tri1[1].hc(),
            tri1[2].hc(),
            tri2[0].hc(),
            tri2[1].hc(),
            tri2[2].hc(),
        ) == persp_dual_s(
            tri1[0].hc(),
            tri1[1].hc(),
            tri1[2].hc(),
            tri2[0].hc(),
            tri2[1].hc(),
            tri2[2].hc(),
        )),
{
    let trid1 = tri_dual(tri1);
    let trid2 = tri_dual(tri2);
    let bool1 = persp(tri1, tri2);
    let bool2 = persp(&trid1, &trid2);
    (bool1 && bool2) || (!bool1 && !bool2)
}

/// Checks the incidence facts of a measurable plane on `pt_p`, `pt_q`, `ln_l`:
/// the pairing is symmetric, `aux` gives a dual object not through `pt_p`, and
/// every combination of `pt_p` and `pt_q` lies on their join. The first and
/// the last always hold; the second holds exactly when `pt_p` is not the zero
/// triple.
pub fn check_axiom2<Point, Line>(
    pt_p: &Point,
    pt_q: &Point,
    ln_l: &Line,
    alpha: i64,
    beta: i64,
) -> (r: bool) where
    Point: ProjectivePlane<Line>,
    Line: ProjectivePlane<Point>,

    requires
        in_i64(dot_s(pt_p.hc(), ln_l.hc())),
        in_i64(dot_s(pt_p.hc(), pt_p.hc())),
        fits3(cross_s(pt_p.hc(), pt_q.hc())),
        fits3(lin_s(alpha as int, pt_p.hc(), beta as int, pt_q.hc())),
    ensures
        r == (pt_p.hc() != zero3()),
{
    proof {
        incidence_symmetry(pt_p.hc(), ln_l.hc());
        lemma_self_dot_zero(pt_p.hc());
        lemma_join_contains_combination(pt_p.hc(), pt_q.hc(), alpha as int, beta as int);
    }
    let sym = pt_p.dot(ln_l) == ln_l.dot(pt_p);
    let apart = !pt_p.aux().incident(pt_p);
    let ln_m = pt_p.meet(pt_q);
    let on_join = ln_m.incident(&pt_p.parametrize(alpha, pt_q, beta));
    sym && apart && on_join
}

/// The harmonic conjugate of `pt_c` with respect to `pt_a` and `pt_b`: the
/// fourth point `d` on their line with cross-ratio `(a, b; c, d) = -1`.
/// The three points must be collinear.
pub fn harm_conj<Point, Line>(pt_a: &Point, pt_b: &Point, pt_c: &Point) -> (r: Point) where
    Point: ProjectivePlane<Line>,
    Line: ProjectivePlane<Point>,

    requires
        coincident_s(pt_a.hc(), pt_b.hc(), pt_c.hc()),
        harm_fits(pt_a.hc(), pt_b.hc(), pt_c.hc()),
    ensures
        r.hc() == harm_s(pt_a.hc(), pt_b.hc(), pt_c.hc()),
{
    let ln_ab = pt_a.meet(pt_b);
    let ln_xc = ln_ab.aux().meet(pt_c);
    pt_a.parametrize(ln_xc.dot(pt_b), pt_b, ln_xc.dot(pt_a))
}

/// The image of `pt_p` under the harmonic homology (involution) with centre
/// `origin` and axis `mirror`.
pub fn involution<Point, Line>(origin: &Point, mirror: &Line, pt_p: &Point) -> (r: Point) where
    Point: ProjectivePlane<Line>,
    Line: ProjectivePlane<Point>,

    requires
        involution_fits(origin.hc(), mirror.hc(), pt_p.hc()),
    ensures
        r.hc() == involution_s(origin.hc(), mirror.hc(), pt_p.hc()),
{
    let ln_po = pt_p.meet(origin);
    let pt_b = ln_po.meet(mirror);
    proof {
        lemma_foot_collinear(origin.hc(), mirror.hc(), pt_p.hc());
    }
    harm_conj(origin, &pt_b, pt_p)
}

// ---------------------------------------------------------------------------
// Laws of the plane

/// Incidence is symmetric: a point lies on a line iff the line passes through
/// the point.
pub proof fn incidence_symmetry(p: Tri, l: Tri)
    ensures
        dot_s(p, l) == dot_s(l, p),
        (dot_s(p, l) == 0) == (dot_s(l, p) == 0),
{
    assert(dot_s(p, l) == dot_s(l, p)) by (nonlinear_arith);
}

/// The join (meet) is symmetric up to projective equality.
pub proof fn meet_symmetry(a: Tri, b: Tri)
    ensures
        proj_eq(cross_s(a, b), cross_s(b, a)),
        cross_s(b, a) == scale_s(-1, cross_s(a, b)),
{
    lemma_cross_self_scaled(cross_s(a, b), -1);
    assert(cross_s(b, a) == scale_s(-1, cross_s(a, b))) by (nonlinear_arith);
    lemma_cross_anti(cross_s(a, b), cross_s(b, a));
}

/// The join of two objects is incident with both of them.
pub proof fn meet_incidence(a: Tri, b: Tri)
    ensures
        dot_s(cross_s(a, b), a) == 0,
        dot_s(cross_s(a, b), b) == 0,
        dot_s(a, cross_s(a, b)) == 0,
        dot_s(b, cross_s(a, b)) == 0,
{
    assert(dot_s(cross_s(a, b), a) == 0) by (nonlinear_arith);
    assert(dot_s(cross_s(a, b), b) == 0) by (nonlinear_arith);
    assert(dot_s(a, cross_s(a, b)) == 0) by (nonlinear_arith);
    assert(dot_s(b, cross_s(a, b)) == 0) by (nonlinear_arith);
}

/// Scale invariance: a triple and any nonzero multiple of it stand for the
/// same point (or line).
pub proof fn scale_invariance(t: Tri, k: int)
    requires
        k != 0,
    ensures
        proj_eq(t, scale_s(k, t)),
{
    lemma_cross_anti(scale_s(k, t), t);
    lemma_cross_self_scaled(t, k);
}

/// Harmonic involution: for collinear `a`, `b`, `c`, taking the harmonic
/// conjugate twice gives back `c` (the result is `(a x b . a x b)^2 c`).
pub proof fn harmonic_involution(a: Tri, b: Tri, c: Tri)
    requires
        coincident_s(a, b, c),
    ensures
        proj_eq(harm_s(a, b, harm_s(a, b, c)), c),
{
    let u = cross_s(a, b);
    let n = dot_s(u, u);
    let lc = cross_s(u, c);
    let lam = dot_s(lc, b);
    let mu = dot_s(lc, a);
    let d = harm_s(a, b, c);
    assert(d == lin_s(lam, a, mu, b));
    let ua = cross_s(u, a);
    let ub = cross_s(u, b);
    lemma_cross_lin(u, lam, a, mu, b);
    lemma_dot_lin(lam, ua, mu, ub, b);
    lemma_dot_lin(lam, ua, mu, ub, a);
    lemma_triple(u, a, b);
    let lam2 = dot_s(cross_s(u, d), b);
    let mu2 = dot_s(cross_s(u, d), a);
    assert(mu * 0 == 0 && lam * 0 == 0) by (nonlinear_arith);
    vstd::arithmetic::mul::lemma_mul_unary_negation(mu, n);
    assert(lam2 == lam * n);
    assert(mu2 == -(mu * n));
    // lam * a - mu * b == lc x u == n * c
    lemma_bac_cab(lc, a, b);
    lemma_bac_cab(u, u, c);
    lemma_cross_anti(lc, u);
    lemma_neg_combination(u, n, c);
    assert(lin_s(lam, a, -mu, b) == scale_s(n, c));
    let e = harm_s(a, b, d);
    assert(e == lin_s(lam2, a, mu2, b));
    lemma_scaled_combination(n, lam, a, mu, b, c);
    assert(e == scale_s(n * n, c));
    lemma_cross_anti(e, c);
    lemma_cross_self_scaled(c, n * n);
}

proof fn lemma_neg_combination(u: Tri, n: int, c: Tri)
    ensures
        scale_s(-1, lin_s(0, u, -n, c)) == scale_s(n, c),
{
    assert(-1 * (0 * u.0 + -n * c.0) == n * c.0) by (nonlinear_arith);
    assert(-1 * (0 * u.1 + -n * c.1) == n * c.1) by (nonlinear_arith);
    assert(-1 * (0 * u.2 + -n * c.2) == n * c.2) by (nonlinear_arith);
}

// ---------------------------------------------------------------------------
// Vector identities

pub proof fn lemma_cross_self_scaled(t: Tri, k: int)
    ensures
        cross_s(t, scale_s(k, t)) == zero3(),
{
    assert(t.1 * (k * t.2) - t.2 * (k * t.1) == 0) by (nonlinear_arith);
    assert(t.2 * (k * t.0) - t.0 * (k * t.2) == 0) by (nonlinear_arith);
    assert(t.0 * (k * t.1) - t.1 * (k * t.0) == 0) by (nonlinear_arith);
}

/// `b x a == -(a x b)`.
pub proof fn lemma_cross_anti(a: Tri, b: Tri)
    ensures
        cross_s(b, a) == scale_s(-1, cross_s(a, b)),
{
    assert(cross_s(b, a) == scale_s(-1, cross_s(a, b))) by (nonlinear_arith);
}

/// `x x (a x b) == (x . b) a - (x . a) b`.
pub proof fn lemma_bac_cab(x: Tri, a: Tri, b: Tri)
    ensures
        cross_s(x, cross_s(a, b)) == lin_s(dot_s(x, b), a, -dot_s(x, a), b),
{
    let (x0, x1, x2) = x;
    let (a0, a1, a2) = a;
    let (b0, b1, b2) = b;
    vstd::arithmetic::mul::lemma_mul_is_distributive_sub(x1, a0 * b1, a1 * b0);
    assert(x1 * (a0 * b1) == (a0 * b1 * x1)) by (nonlinear_arith);
    assert(x1 * (a1 * b0) == (a1 * b0 * x1)) by (nonlinear_arith);
    vstd::arithmetic::mul::lemma_mul_is_distributive_sub(x2, a2 * b0, a0 * b2);
    assert(x2 * (a2 * b0) == (a2 * b0 * x2)) by (nonlinear_arith);
    assert(x2 * (a0 * b2) == (a0 * b2 * x2)) by (nonlinear_arith);
    vstd::arithmetic::mul::lemma_mul_is_distributive_add_other_way(a0, x0 * b0 + x1 * b1, x2 * b2);
    vstd::arithmetic::mul::lemma_mul_is_distributive_add_other_way(a0, x0 * b0, x1 * b1);
    assert((x0 * b0) * a0 == (a0 * b0 * x0)) by (nonlinear_arith);
    assert((x1 * b1) * a0 == (a0 * b1 * x1)) by (nonlinear_arith);
    assert((x2 * b2) * a0 == (a0 * b2 * x2)) by (nonlinear_arith);
    vstd::arithmetic::mul::lemma_mul_unary_negation(x0 * a0 + x1 * a1 + x2 * a2, b0);
    vstd::arithmetic::mul::lemma_mul_is_distributive_add_other_way(b0, x0 * a0 + x1 * a1, x2 * a2);
    vstd::arithmetic::mul::lemma_mul_is_distributive_add_other_way(b0, x0 * a0, x1 * a1);
    assert((x0 * a0) * b0 == (a0 * b0 * x0)) by (nonlinear_arith);
    assert((x1 * a1) * b0 == (a1 * b0 * x1)) by (nonlinear_arith);
    assert((x2 * a2) * b0 == (a2 * b0 * x2)) by (nonlinear_arith);
    vstd::arithmetic::mul::lemma_mul_is_distributive_sub(x2, a1 * b2, a2 * b1);
    assert(x2 * (a1 * b2) == (a1 * b2 * x2)) by (nonlinear_arith);
    assert(x2 * (a2 * b1) == (a2 * b1 * x2)) by (nonlinear_arith);
    vstd::arithmetic::mul::lemma_mul_is_distributive_sub(x0, a0 * b1, a1 * b0);
    assert(x0 * (a0 * b1) == (a0 * b1 * x0)) by (nonlinear_arith);
    assert(x0 * (a1 * b0) == (a1 * b0 * x0)) by (nonlinear_arith);
    vstd::arithmetic::mul::lemma_mul_is_distributive_add_other_way(a1, x0 * b0 + x1 * b1, x2 * b2);
    vstd::arithmetic::mul::lemma_mul_is_distributive_add_other_way(a1, x0 * b0, x1 * b1);
    assert((x0 * b0) * a1 == (a1 * b0 * x0)) by (nonlinear_arith);
    assert((x1 * b1) * a1 == (a1 * b1 * x1)) by (nonlinear_arith);
    assert((x2 * b2) * a1 == (a1 * b2 * x2)) by (nonlinear_arith);
    vstd::arithmetic::mul::lemma_mul_unary_negation(x0 * a0 + x1 * a1 + x2 * a2, b1);
    vstd::arithmetic::mul::lemma_mul_is_distributive_add_other_way(b1, x0 * a0 + x1 * a1, x2 * a2);
    vstd::arithmetic::mul::lemma_mul_is_distributive_add_other_way(b1, x0 * a0, x1 * a1);
    assert((x0 * a0) * b1 == (a0 * b1 * x0)) by (nonlinear_arith);
    assert((x1 * a1) * b1 == (a1 * b1 * x1)) by (nonlinear_arith);
    assert((x2 * a2) * b1 == (a2 * b1 * x2)) by (nonlinear_arith);
    vstd::arithmetic::mul::lemma_mul_is_distributive_sub(x0, a2 * b0, a0 * b2);
    assert(x0 * (a2 * b0) == (a2 * b0 * x0)) by (nonlinear_arith);
    assert(x0 * (a0 * b2) == (a0 * b2 * x0)) by (nonlinear_arith);
    vstd::arithmetic::mul::lemma_mul_is_distributive_sub(x1, a1 * b2, a2 * b1);
    assert(x1 * (a1 * b2) == (a1 * b2 * x1)) by (nonlinear_arith);
    assert(x1 * (a2 * b1) == (a2 * b1 * x1)) by (nonlinear_arith);
    vstd::arithmetic::mul::lemma_mul_is_distributive_add_other_way(a2, x0 * b0 + x1 * b1, x2 * b2);
    vstd::arithmetic::mul::lemma_mul_is_distributive_add_other_way(a2, x0 * b0, x1 * b1);
    assert((x0 * b0) * a2 == (a2 * b0 * x0)) by (nonlinear_arith);
    assert((x1 * b1) * a2 == (a2 * b1 * x1)) by (nonlinear_arith);
    assert((x2 * b2) * a2 == (a2 * b2 * x2)) by (nonlinear_arith);
    vstd::arithmetic::mul::lemma_mul_unary_negation(x0 * a0 + x1 * a1 + x2 * a2, b2);
    vstd::arithmetic::mul::lemma_mul_is_distributive_add_other_way(b2, x0 * a0 + x1 * a1, x2 * a2);
    vstd::arithmetic::mul::lemma_mul_is_distributive_add_other_way(b2, x0 * a0, x1 * a1);
    assert((x0 * a0) * b2 == (a0 * b2 * x0)) by (nonlinear_arith);
    assert((x1 * a1) * b2 == (a1 * b2 * x1)) by (nonlinear_arith);
    assert((x2 * a2) * b2 == (a2 * b2 * x2)) by (nonlinear_arith);
}

/// The cross product is linear in its second argument.
pub proof fn lemma_cross_lin(u: Tri, l: int, a: Tri, m: int, b: Tri)
    ensures
        cross_s(u, lin_s(l, a, m, b)) == lin_s(l, cross_s(u, a), m, cross_s(u, b)),
{
    let (u0, u1, u2) = u;
    let (a0, a1, a2) = a;
    let (b0, b1, b2) = b;
    vstd::arithmetic::mul::lemma_mul_is_distributive_add(u1, l * a2, m * b2);
    assert(u1 * (l * a2) == (a2 * l * u1)) by (nonlinear_arith);
    assert(u1 * (m * b2) == (b2 * m * u1)) by (nonlinear_arith);
    vstd::arithmetic::mul::lemma_mul_is_distributive_add(u2, l * a1, m * b1);
    assert(u2 * (l * a1) == (a1 * l * u2)) by (nonlinear_arith);
    assert(u2 * (m * b1) == (b1 * m * u2)) by (nonlinear_arith);
    vstd::arithmetic::mul::lemma_mul_is_distributive_sub(l, u1 * a2, u2 * a1);
    assert(l * (u1 * a2) == (a2 * l * u1)) by (nonlinear_arith);
    assert(l * (u2 * a1) == (a1 * l * u2)) by (nonlinear_arith);
    vstd::arithmetic::mul::lemma_mul_is_distributive_sub(m, u1 * b2, u2 * b1);
    assert(m * (u1 * b2) == (b2 * m * u1)) by (nonlinear_arith);
    assert(m * (u2 * b1) == (b1 * m * u2)) by (nonlinear_arith);
    vstd::arithmetic::mul::lemma_mul_is_distributive_add(u2, l * a0, m * b0);
    assert(u2 * (l * a0) == (a0 * l * u2)) by (nonlinear_arith);
    assert(u2 * (m * b0) == (b0 * m * u2)) by (nonlinear_arith);
    vstd::arithmetic::mul::lemma_mul_is_distributive_add(u0, l * a2, m * b2);
    assert(u0 * (l * a2) == (a2 * l * u0)) by (nonlinear_arith);
    assert(u0 * (m * b2) == (b2 * m * u0)) by (nonlinear_arith);
    vstd::arithmetic::mul::lemma_mul_is_distributive_sub(l, u2 * a0, u0 * a2);
    assert(l * (u2 * a0) == (a0 * l * u2)) by (nonlinear_arith);
    assert(l * (u0 * a2) == (a2 * l * u0)) by (nonlinear_arith);
    vstd::arithmetic::mul::lemma_mul_is_distributive_sub(m, u2 * b0, u0 * b2);
    assert(m * (u2 * b0) == (b0 * m * u2)) by (nonlinear_arith);
    assert(m * (u0 * b2) == (b2 * m * u0)) by (nonlinear_arith);
    vstd::arithmetic::mul::lemma_mul_is_distributive_add(u0, l * a1, m * b1);
    assert(u0 * (l * a1) == (a1 * l * u0)) by (nonlinear_arith);
    assert(u0 * (m * b1) == (b1 * m * u0)) by (nonlinear_arith);
    vstd::arithmetic::mul::lemma_mul_is_distributive_add(u1, l * a0, m * b0);
    assert(u1 * (l * a0) == (a0 * l * u1)) by (nonlinear_arith);
    assert(u1 * (m * b0) == (b0 * m * u1)) by (nonlinear_arith);
    vstd::arithmetic::mul::lemma_mul_is_distributive_sub(l, u0 * a1, u1 * a0);
    assert(l * (u0 * a1) == (a1 * l * u0)) by (nonlinear_arith);
    assert(l * (u1 * a0) == (a0 * l * u1)) by (nonlinear_arith);
    vstd::arithmetic::mul::lemma_mul_is_distributive_sub(m, u0 * b1, u1 * b0);
    assert(m * (u0 * b1) == (b1 * m * u0)) by (nonlinear_arith);
    assert(m * (u1 * b0) == (b0 * m * u1)) by (nonlinear_arith);
}

/// The pairing is linear in its first argument.
pub proof fn lemma_dot_lin(l: int, p: Tri, m: int, q: Tri, x: Tri)
    ensures
        dot_s(lin_s(l, p, m, q), x) == l * dot_s(p, x) + m * dot_s(q, x),
{
    let (p0, p1, p2) = p;
    let (q0, q1, q2) = q;
    let (x0, x1, x2) = x;
    vstd::arithmetic::mul::lemma_mul_is_distributive_add_other_way(x0, l * p0, m * q0);
    assert((l * p0) * x0 == (l * p0 * x0)) by (nonlinear_arith);
    assert((m * q0) * x0 == (m * q0 * x0)) by (nonlinear_arith);
    vstd::arithmetic::mul::lemma_mul_is_distributive_add_other_way(x1, l * p1, m * q1);
    assert((l * p1) * x1 == (l * p1 * x1)) by (nonlinear_arith);
    assert((m * q1) * x1 == (m * q1 * x1)) by (nonlinear_arith);
    vstd::arithmetic::mul::lemma_mul_is_distributive_add_other_way(x2, l * p2, m * q2);
    assert((l * p2) * x2 == (l * p2 * x2)) by (nonlinear_arith);
    assert((m * q2) * x2 == (m * q2 * x2)) by (nonlinear_arith);
    vstd::arithmetic::mul::lemma_mul_is_distributive_add(l, p0 * x0 + p1 * x1, p2 * x2);
    vstd::arithmetic::mul::lemma_mul_is_distributive_add(l, p0 * x0, p1 * x1);
    assert(l * (p0 * x0) == (l * p0 * x0)) by (nonlinear_arith);
    assert(l * (p1 * x1) == (l * p1 * x1)) by (nonlinear_arith);
    assert(l * (p2 * x2) == (l * p2 * x2)) by (nonlinear_arith);
    vstd::arithmetic::mul::lemma_mul_is_distributive_add(m, q0 * x0 + q1 * x1, q2 * x2);
    vstd::arithmetic::mul::lemma_mul_is_distributive_add(m, q0 * x0, q1 * x1);
    assert(m * (q0 * x0) == (m * q0 * x0)) by (nonlinear_arith);
    assert(m * (q1 * x1) == (m * q1 * x1)) by (nonlinear_arith);
    assert(m * (q2 * x2) == (m * q2 * x2)) by (nonlinear_arith);
}

/// Scalar triple products of `u`, `a`, `b`.
pub proof fn lemma_triple(u: Tri, a: Tri, b: Tri)
    ensures
        dot_s(cross_s(u, a), b) == dot_s(u, cross_s(a, b)),
        dot_s(cross_s(u, a), a) == 0,
        dot_s(cross_s(u, b), b) == 0,
        dot_s(cross_s(u, b), a) == -dot_s(u, cross_s(a, b)),
{
    let (u0, u1, u2) = u;
    let (a0, a1, a2) = a;
    let (b0, b1, b2) = b;
    vstd::arithmetic::mul::lemma_mul_is_distributive_sub_other_way(b0, u1 * a2, u2 * a1);
    assert((u1 * a2) * b0 == (a2 * b0 * u1)) by (nonlinear_arith);
    assert((u2 * a1) * b0 == (a1 * b0 * u2)) by (nonlinear_arith);
    vstd::arithmetic::mul::lemma_mul_is_distributive_sub_other_way(b1, u2 * a0, u0 * a2);
    assert((u2 * a0) * b1 == (a0 * b1 * u2)) by (nonlinear_arith);
    assert((u0 * a2) * b1 == (a2 * b1 * u0)) by (nonlinear_arith);
    vstd::arithmetic::mul::lemma_mul_is_distributive_sub_other_way(b2, u0 * a1, u1 * a0);
    assert((u0 * a1) * b2 == (a1 * b2 * u0)) by (nonlinear_arith);
    assert((u1 * a0) * b2 == (a0 * b2 * u1)) by (nonlinear_arith);
    vstd::arithmetic::mul::lemma_mul_is_distributive_sub_other_way(a0, u1 * a2, u2 * a1);
    assert((u1 * a2) * a0 == (a0 * a2 * u1)) by (nonlinear_arith);
    assert((u2 * a1) * a0 == (a0 * a1 * u2)) by (nonlinear_arith);
    vstd::arithmetic::mul::lemma_mul_is_distributive_sub_other_way(a1, u2 * a0, u0 * a2);
    assert((u2 * a0) * a1 == (a0 * a1 * u2)) by (nonlinear_arith);
    assert((u0 * a2) * a1 == (a1 * a2 * u0)) by (nonlinear_arith);
    vstd::arithmetic::mul::lemma_mul_is_distributive_sub_other_way(a2, u0 * a1, u1 * a0);
    assert((u0 * a1) * a2 == (a1 * a2 * u0)) by (nonlinear_arith);
    assert((u1 * a0) * a2 == (a0 * a2 * u1)) by (nonlinear_arith);
    vstd::arithmetic::mul::lemma_mul_is_distributive_sub_other_way(b0, u1 * b2, u2 * b1);
    assert((u1 * b2) * b0 == (b0 * b2 * u1)) by (nonlinear_arith);
    assert((u2 * b1) * b0 == (b0 * b1 * u2)) by (nonlinear_arith);
    vstd::arithmetic::mul::lemma_mul_is_distributive_sub_other_way(b1, u2 * b0, u0 * b2);
    assert((u2 * b0) * b1 == (b0 * b1 * u2)) by (nonlinear_arith);
    assert((u0 * b2) * b1 == (b1 * b2 * u0)) by (nonlinear_arith);
    vstd::arithmetic::mul::lemma_mul_is_distributive_sub_other_way(b2, u0 * b1, u1 * b0);
    assert((u0 * b1) * b2 == (b1 * b2 * u0)) by (nonlinear_arith);
    assert((u1 * b0) * b2 == (b0 * b2 * u1)) by (nonlinear_arith);
    vstd::arithmetic::mul::lemma_mul_is_distributive_sub_other_way(a0, u1 * b2, u2 * b1);
    assert((u1 * b2) * a0 == (a0 * b2 * u1)) by (nonlinear_arith);
    assert((u2 * b1) * a0 == (a0 * b1 * u2)) by (nonlinear_arith);
    vstd::arithmetic::mul::lemma_mul_is_distributive_sub_other_way(a1, u2 * b0, u0 * b2);
    assert((u2 * b0) * a1 == (a1 * b0 * u2)) by (nonlinear_arith);
    assert((u0 * b2) * a1 == (a1 * b2 * u0)) by (nonlinear_arith);
    vstd::arithmetic::mul::lemma_mul_is_distributive_sub_other_way(a2, u0 * b1, u1 * b0);
    assert((u0 * b1) * a2 == (a2 * b1 * u0)) by (nonlinear_arith);
    assert((u1 * b0) * a2 == (a2 * b0 * u1)) by (nonlinear_arith);
    vstd::arithmetic::mul::lemma_mul_is_distributive_sub(u0, a1 * b2, a2 * b1);
    assert(u0 * (a1 * b2) == (a1 * b2 * u0)) by (nonlinear_arith);
    assert(u0 * (a2 * b1) == (a2 * b1 * u0)) by (nonlinear_arith);
    vstd::arithmetic::mul::lemma_mul_is_distributive_sub(u1, a2 * b0, a0 * b2);
    assert(u1 * (a2 * b0) == (a2 * b0 * u1)) by (nonlinear_arith);
    assert(u1 * (a0 * b2) == (a0 * b2 * u1)) by (nonlinear_arith);
    vstd::arithmetic::mul::lemma_mul_is_distributive_sub(u2, a0 * b1, a1 * b0);
    assert(u2 * (a0 * b1) == (a0 * b1 * u2)) by (nonlinear_arith);
    assert(u2 * (a1 * b0) == (a1 * b0 * u2)) by (nonlinear_arith);
}

proof fn lemma_scaled_combination(n: int, lam: int, a: Tri, mu: int, b: Tri, c: Tri)
    requires
        lin_s(lam, a, -mu, b) == scale_s(n, c),
    ensures
        lin_s(lam * n, a, -(mu * n), b) == scale_s(n * n, c),
{
    assert(lam * n * a.0 + -(mu * n) * b.0 == n * (lam * a.0 + -mu * b.0)) by (nonlinear_arith);
    assert(lam * n * a.1 + -(mu * n) * b.1 == n * (lam * a.1 + -mu * b.1)) by (nonlinear_arith);
    assert(lam * n * a.2 + -(mu * n) * b.2 == n * (lam * a.2 + -mu * b.2)) by (nonlinear_arith);
    assert(n * (n * c.0) == n * n * c.0) by (nonlinear_arith);
    assert(n * (n * c.1) == n * n * c.1) by (nonlinear_arith);
    assert(n * (n * c.2) == n * n * c.2) by (nonlinear_arith);
}

proof fn lemma_self_dot_zero(p: Tri)
    ensures
        (dot_s(p, p) == 0) == (p == zero3()),
{
    assert(p.0 * p.0 >= 0) by (nonlinear_arith);
    assert(p.1 * p.1 >= 0) by (nonlinear_arith);
    assert(p.2 * p.2 >= 0) by (nonlinear_arith);
    if p.0 != 0 {
        assert(p.0 * p.0 > 0) by (nonlinear_arith) requires p.0 != 0;
    }
    if p.1 != 0 {
        assert(p.1 * p.1 > 0) by (nonlinear_arith) requires p.1 != 0;
    }
    if p.2 != 0 {
        assert(p.2 * p.2 > 0) by (nonlinear_arith) requires p.2 != 0;
    }
}

proof fn lemma_join_contains_combination(p: Tri, q: Tri, l: int, m: int)
    ensures
        dot_s(cross_s(p, q), lin_s(l, p, m, q)) == 0,
{
    meet_incidence(p, q);
    let u = cross_s(p, q);
    let (p0, p1, p2) = p;
    let (q0, q1, q2) = q;
    let (u0, u1, u2) = u;
    assert(u0 * (l * p0 + m * q0) == l * (u0 * p0) + m * (u0 * q0)) by (nonlinear_arith);
    assert(u1 * (l * p1 + m * q1) == l * (u1 * p1) + m * (u1 * q1)) by (nonlinear_arith);
    assert(u2 * (l * p2 + m * q2) == l * (u2 * p2) + m * (u2 * q2)) by (nonlinear_arith);
    assert(l * (u0 * p0) + l * (u1 * p1) + l * (u2 * p2) == l * (u0 * p0 + u1 * p1 + u2 * p2))
        by (nonlinear_arith);
    assert(m * (u0 * q0) + m * (u1 * q1) + m * (u2 * q2) == m * (u0 * q0 + u1 * q1 + u2 * q2))
        by (nonlinear_arith);
}


/// The foot `(p o) x mirror` lies on the line through `origin` and `p`.
pub proof fn lemma_foot_collinear(origin: Tri, mirror: Tri, p: Tri)
    ensures
        coincident_s(origin, mirror_foot_s(origin, mirror, p), p),
{
    let u = cross_s(p, origin);
    let s = dot_s(mirror, origin);
    let t = dot_s(mirror, p);
    let b = mirror_foot_s(origin, mirror, p);
    lemma_cross_anti(mirror, u);
    lemma_bac_cab(mirror, p, origin);
    assert(b == scale_s(-1, lin_s(s, p, -t, origin)));
    assert(-1 * (s * p.0 + -t * origin.0) == -s * p.0 + t * origin.0) by (nonlinear_arith);
    assert(-1 * (s * p.1 + -t * origin.1) == -s * p.1 + t * origin.1) by (nonlinear_arith);
    assert(-1 * (s * p.2 + -t * origin.2) == -s * p.2 + t * origin.2) by (nonlinear_arith);
    assert(b == lin_s(-s, p, t, origin));
    lemma_cross_lin(origin, -s, p, t, origin);
    let oo = cross_s(origin, origin);
    lemma_cross_self_scaled(origin, 1);
    assert(scale_s(1, origin) == origin);
    assert(oo == zero3());
    lemma_dot_lin(-s, cross_s(origin, p), t, oo, p);
    meet_incidence(origin, p);
    assert(dot_s(oo, p) == 0) by (nonlinear_arith)
        requires
            oo == zero3(),
    ;
    assert(-s * 0 + t * 0 == 0) by (nonlinear_arith);
}

} // verus!
