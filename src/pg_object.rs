//! Homogeneous coordinate triples: the integer arithmetic that every plane
//! shares, and the point / line types of each geometry.
use vstd::prelude::*;
use core::marker::PhantomData;
use crate::pg_plane::{Homogeneous, ProjectivePlane, ProjectivePlanePrimitive};

verus! {

/// A coordinate triple over the mathematical integers.
pub type Tri = (int, int, int);

/// The mathematical value of a machine coordinate triple.
pub open spec fn tri(c: [i64; 3]) -> Tri {
    (c[0] as int, c[1] as int, c[2] as int)
}

pub open spec fn in_i64(x: int) -> bool {
    i64::MIN <= x <= i64::MAX
}

/// Every component of `t` can be held in an `i64`.
pub open spec fn fits3(t: Tri) -> bool {
    in_i64(t.0) && in_i64(t.1) && in_i64(t.2)
}

pub open spec fn zero3() -> Tri {
    (0, 0, 0)
}

/// Componentwise multiply-sum.
pub open spec fn dot_s(a: Tri, b: Tri) -> int {
    a.0 * b.0 + a.1 * b.1 + a.2 * b.2
}

/// The 3-vector cross product.
pub open spec fn cross_s(a: Tri, b: Tri) -> Tri {
    (a.1 * b.2 - a.2 * b.1, a.2 * b.0 - a.0 * b.2, a.0 * b.1 - a.1 * b.0)
}

/// The linear combination `l * a + m * b`.
pub open spec fn lin_s(l: int, a: Tri, m: int, b: Tri) -> Tri {
    (l * a.0 + m * b.0, l * a.1 + m * b.1, l * a.2 + m * b.2)
}

/// `k * t`.
pub open spec fn scale_s(k: int, t: Tri) -> Tri {
    (k * t.0, k * t.1, k * t.2)
}

/// Projective equality: the two triples are proportional.
pub open spec fn proj_eq(a: Tri, b: Tri) -> bool {
    cross_s(a, b) == zero3()
}

pub proof fn lemma_mul_bound(x: i64, y: i64)
    ensures
        -0x4000_0000_0000_0000_0000_0000_0000_0000 + 0x8000_0000_0000_0000 <= x * y
            <= 0x4000_0000_0000_0000_0000_0000_0000_0000,
{
    let a = x as int;
    let b = y as int;
    assert(-0x8000_0000_0000_0000 <= a <= 0x7fff_ffff_ffff_ffff);
    assert(-0x8000_0000_0000_0000 <= b <= 0x7fff_ffff_ffff_ffff);
    assert(-0x4000_0000_0000_0000_0000_0000_0000_0000 + 0x8000_0000_0000_0000 <= a * b
        <= 0x4000_0000_0000_0000_0000_0000_0000_0000) by (nonlinear_arith)
        requires
            -0x8000_0000_0000_0000 <= a <= 0x7fff_ffff_ffff_ffff,
            -0x8000_0000_0000_0000 <= b <= 0x7fff_ffff_ffff_ffff,
    ;
}

/// Exact product of two machine integers.
pub(crate) fn wide_mul(a: i64, b: i64) -> (r: i128)
    ensures
        r == a * b,
        -0x4000_0000_0000_0000_0000_0000_0000_0000 + 0x8000_0000_0000_0000 <= r
            <= 0x4000_0000_0000_0000_0000_0000_0000_0000,
{
    proof {
        lemma_mul_bound(a, b);
    }
    (a as i128) * (b as i128)
}

/// Exact `a * b + c * d`, when the result fits in an `i64`.
fn mul_add(a: i64, b: i64, c: i64, d: i64) -> (r: i64)
    requires
        in_i64(a * b + c * d),
    ensures
        r == a * b + c * d,
{
    let p = wide_mul(a, b);
    let q = wide_mul(c, d);
    (p + q) as i64
}

/// Exact `a * b - c * d`, when the result fits in an `i64`.
fn mul_sub(a: i64, b: i64, c: i64, d: i64) -> (r: i64)
    requires
        in_i64(a * b - c * d),
    ensures
        r == a * b - c * d,
{
    let p = wide_mul(a, b);
    let q = wide_mul(c, d);
    (p - q) as i64
}

/// The dot product of two triples.
pub fn dot_product(v_a: &[i64; 3], v_b: &[i64; 3]) -> (r: i64)
    requires
        in_i64(dot_s(tri(*v_a), tri(*v_b))),
    ensures
        r == dot_s(tri(*v_a), tri(*v_b)),
{
    let p0 = wide_mul(v_a[0], v_b[0]);
    let p1 = wide_mul(v_a[1], v_b[1]);
    let p2 = wide_mul(v_a[2], v_b[2]);
    let s = p0 + p1;
    (s + p2) as i64
}

/// The dot product of the first two components of two slices.
pub fn dot1(v_a: &[i64], v_b: &[i64]) -> (r: i64)
    requires
        v_a@.len() >= 2,
        v_b@.len() >= 2,
        in_i64(v_a@[0] * v_b@[0] + v_a@[1] * v_b@[1]),
    ensures
        r == v_a@[0] * v_b@[0] + v_a@[1] * v_b@[1],
{
    mul_add(v_a[0], v_b[0], v_a[1], v_b[1])
}

/// The planar cross product `a0 * b1 - a1 * b0` of the first two components.
pub fn cross2(v_a: &[i64], v_b: &[i64]) -> (r: i64)
    requires
        v_a@.len() >= 2,
        v_b@.len() >= 2,
        in_i64(v_a@[0] * v_b@[1] - v_a@[1] * v_b@[0]),
    ensures
        r == v_a@[0] * v_b@[1] - v_a@[1] * v_b@[0],
{
    mul_sub(v_a[0], v_b[1], v_a[1], v_b[0])
}

/// The 3-vector cross product.
pub fn cross_product(v_a: &[i64; 3], v_b: &[i64; 3]) -> (r: [i64; 3])
    requires
        fits3(cross_s(tri(*v_a), tri(*v_b))),
    ensures
        tri(r) == cross_s(tri(*v_a), tri(*v_b)),
{
    [
        mul_sub(v_a[1], v_b[2], v_a[2], v_b[1]),
        mul_sub(v_a[2], v_b[0], v_a[0], v_b[2]),
        mul_sub(v_a[0], v_b[1], v_a[1], v_b[0]),
    ]
}

/// The linear combination `lambda_a * v_a + mu_b * v_b`.
pub fn plucker_operation(lambda_a: i64, v_a: &[i64; 3], mu_b: i64, v_b: &[i64; 3]) -> (r: [i64; 3])
    requires
        fits3(lin_s(lambda_a as int, tri(*v_a), mu_b as int, tri(*v_b))),
    ensures
        tri(r) == lin_s(lambda_a as int, tri(*v_a), mu_b as int, tri(*v_b)),
{
    [
        mul_add(lambda_a, v_a[0], mu_b, v_b[0]),
        mul_add(lambda_a, v_a[1], mu_b, v_b[1]),
        mul_add(lambda_a, v_a[2], mu_b, v_b[2]),
    ]
}

/// Whether two triples are proportional, i.e. stand for the same point or
/// line. Total: the cross product is formed in 128-bit integers.
pub fn projectively_equal(v_a: &[i64; 3], v_b: &[i64; 3]) -> (r: bool)
    ensures
        r == proj_eq(tri(*v_a), tri(*v_b)),
{
    let c0 = wide_mul(v_a[1], v_b[2]) - wide_mul(v_a[2], v_b[1]);
    let c1 = wide_mul(v_a[2], v_b[0]) - wide_mul(v_a[0], v_b[2]);
    let c2 = wide_mul(v_a[0], v_b[1]) - wide_mul(v_a[1], v_b[0]);
    c0 == 0 && c1 == 0 && c2 == 0
}

/// The general projective plane: no polarity.
#[derive(Debug, Clone, Copy)]
pub struct Projective;

/// Elliptic geometry: the polarity copies coordinates.
#[derive(Debug, Clone, Copy)]
pub struct Elliptic;

/// Hyperbolic geometry: the polarity negates the third coordinate.
#[derive(Debug, Clone, Copy)]
pub struct Hyperbolic;

/// Euclidean geometry: a degenerate polarity through the line at infinity.
#[derive(Debug, Clone, Copy)]
pub struct Euclidean;

/// A Cayley-Klein plane with asymmetric per-axis polarity coefficients.
#[derive(Debug, Clone, Copy)]
pub struct MyCk;

/// Perspective geometry: a line at infinity `(0, -1, 1)` and two circular points.
#[derive(Debug, Clone, Copy)]
pub struct Perspective;

/// A point of the plane of geometry `G`, in homogeneous coordinates.
#[derive(Debug)]
pub struct Point<G> {
    /// Homogeneous coordinate
    pub coord: [i64; 3],
    pub geometry: PhantomData<G>,
}

/// A line of the plane of geometry `G`, in homogeneous coordinates.
#[derive(Debug)]
pub struct Line<G> {
    /// Homogeneous coordinate
    pub coord: [i64; 3],
    pub geometry: PhantomData<G>,
}

pub type PgPoint = Point<Projective>;
pub type PgLine = Line<Projective>;
pub type EllipticPoint = Point<Elliptic>;
pub type EllipticLine = Line<Elliptic>;
pub type HyperbolicPoint = Point<Hyperbolic>;
pub type HyperbolicLine = Line<Hyperbolic>;
pub type EuclidPoint = Point<Euclidean>;
pub type EuclidLine = Line<Euclidean>;
pub type MyCKPoint = Point<MyCk>;
pub type MyCKLine = Line<MyCk>;
pub type PerspPoint = Point<Perspective>;
pub type PerspLine = Line<Perspective>;

impl<G> Point<G> {
    /// Create a new point with the given coordinates.
    pub fn new(coord: [i64; 3]) -> (r: Self)
        ensures
            r.coord == coord,
    {
        Point { coord, geometry: PhantomData }
    }
}

impl<G> Line<G> {
    /// Create a new line with the given coordinates.
    pub fn new(coord: [i64; 3]) -> (r: Self)
        ensures
            r.coord == coord,
    {
        Line { coord, geometry: PhantomData }
    }
}

impl<G> Clone for Point<G> {
    fn clone(&self) -> (r: Self)
        ensures
            r.coord == self.coord,
    {
        Point::new(self.coord)
    }
}

impl<G> Copy for Point<G> {
}

impl<G> Clone for Line<G> {
    fn clone(&self) -> (r: Self)
        ensures
            r.coord == self.coord,
    {
        Line::new(self.coord)
    }
}

impl<G> Copy for Line<G> {
}

impl<G> PartialEq for Point<G> {
    fn eq(&self, other: &Self) -> bool {
        projectively_equal(&self.coord, &other.coord)
    }
}

impl<G> vstd::std_specs::cmp::PartialEqSpecImpl for Point<G> {
    open spec fn obeys_eq_spec() -> bool {
        true
    }

    open spec fn eq_spec(&self, other: &Self) -> bool {
        proj_eq(tri(self.coord), tri(other.coord))
    }
}

impl<G> Eq for Point<G> {
}

impl<G> PartialEq for Line<G> {
    fn eq(&self, other: &Self) -> bool {
        projectively_equal(&self.coord, &other.coord)
    }
}

impl<G> vstd::std_specs::cmp::PartialEqSpecImpl for Line<G> {
    open spec fn obeys_eq_spec() -> bool {
        true
    }

    open spec fn eq_spec(&self, other: &Self) -> bool {
        proj_eq(tri(self.coord), tri(other.coord))
    }
}

impl<G> Eq for Line<G> {
}

impl<G> Homogeneous for Point<G> {
    open spec fn hc(&self) -> Tri {
        tri(self.coord)
    }

    fn coords(&self) -> [i64; 3] {
        self.coord
    }

    fn same_as(&self, other: &Self) -> bool {
        projectively_equal(&self.coord, &other.coord)
    }
}

impl<G> Homogeneous for Line<G> {
    open spec fn hc(&self) -> Tri {
        tri(self.coord)
    }

    fn coords(&self) -> [i64; 3] {
        self.coord
    }

    fn same_as(&self, other: &Self) -> bool {
        projectively_equal(&self.coord, &other.coord)
    }
}

impl<G> ProjectivePlanePrimitive<Line<G>> for Point<G> {
    fn meet(&self, rhs: &Self) -> Line<G> {
        Line::new(cross_product(&self.coord, &rhs.coord))
    }

    fn incident(&self, dual: &Line<G>) -> bool {
        dot_product(&self.coord, &dual.coord) == 0
    }
}

impl<G> ProjectivePlanePrimitive<Point<G>> for Line<G> {
    fn meet(&self, rhs: &Self) -> Point<G> {
        Point::new(cross_product(&self.coord, &rhs.coord))
    }

    fn incident(&self, dual: &Point<G>) -> bool {
        dot_product(&self.coord, &dual.coord) == 0
    }
}

impl<G> ProjectivePlane<Line<G>> for Point<G> {
    fn aux(&self) -> Line<G> {
        Line::new(self.coord)
    }

    fn dot(&self, dual: &Line<G>) -> i64 {
        dot_product(&self.coord, &dual.coord)
    }

    fn parametrize(&self, lambda_val: i64, other: &Self, mu_val: i64) -> Self {
        Point::new(plucker_operation(lambda_val, &self.coord, mu_val, &other.coord))
    }
}

impl<G> ProjectivePlane<Point<G>> for Line<G> {
    fn aux(&self) -> Point<G> {
        Point::new(self.coord)
    }

    fn dot(&self, dual: &Point<G>) -> i64 {
        dot_product(&self.coord, &dual.coord)
    }

    fn parametrize(&self, lambda_val: i64, other: &Self, mu_val: i64) -> Self {
        Line::new(plucker_operation(lambda_val, &self.coord, mu_val, &other.coord))
    }
}

} // verus!
