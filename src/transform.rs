//! Projective transformations of the plane, as 3x3 matrices of exact
//! fractions.
use vstd::prelude::*;
use crate::error::{trunc_div, trunc_quotient};
use crate::fractions::{Fraction, add_o, div_o, fv, mul_o, sub_o};
use crate::pg_object::{PgLine, PgPoint, in_i64};

verus! {

/// A matrix of pairs `(numerator, denominator)`, indexed by row and column.
pub type Mat = spec_fn(int, int) -> (int, int);

pub open spec fn add_oo(x: Option<(int, int)>, y: Option<(int, int)>) -> Option<(int, int)> {
    match (x, y) {
        (Some(p), Some(q)) => add_o(p, q),
        _ => None,
    }
}

pub open spec fn sub_oo(x: Option<(int, int)>, y: Option<(int, int)>) -> Option<(int, int)> {
    match (x, y) {
        (Some(p), Some(q)) => sub_o(p, q),
        _ => None,
    }
}

pub open spec fn mul_oo(x: Option<(int, int)>, y: Option<(int, int)>) -> Option<(int, int)> {
    match (x, y) {
        (Some(p), Some(q)) => mul_o(p, q),
        _ => None,
    }
}

pub open spec fn div_oo(x: Option<(int, int)>, y: Option<(int, int)>) -> Option<(int, int)> {
    match (x, y) {
        (Some(p), Some(q)) => div_o(p, q),
        _ => None,
    }
}

/// The exact product of two fractions that is known not to overflow.
pub(crate) fn mul_u(a: &Fraction<i64>, b: &Fraction<i64>) -> (r: Fraction<i64>)
    requires
        mul_o(fv(*a), fv(*b)) is Some,
    ensures
        fv(r) == mul_o(fv(*a), fv(*b))->Some_0,
{
    a.checked_mul(b).unwrap()
}

/// The exact sum of two fractions that is known not to overflow.
pub(crate) fn add_u(a: &Fraction<i64>, b: &Fraction<i64>) -> (r: Fraction<i64>)
    requires
        add_o(fv(*a), fv(*b)) is Some,
    ensures
        fv(r) == add_o(fv(*a), fv(*b))->Some_0,
{
    a.checked_add(b).unwrap()
}

/// The exact difference of two fractions that is known not to overflow.
pub(crate) fn sub_u(a: &Fraction<i64>, b: &Fraction<i64>) -> (r: Fraction<i64>)
    requires
        sub_o(fv(*a), fv(*b)) is Some,
    ensures
        fv(r) == sub_o(fv(*a), fv(*b))->Some_0,
{
    a.checked_sub(b).unwrap()
}

/// The matrix of a transform.
pub open spec fn mat_s(t: Transform) -> Mat {
    |i: int, j: int| fv(t.matrix[i][j])
}

/// `t` has the entries of `m`.
pub open spec fn has_mat(t: Transform, m: Mat) -> bool {
    forall|i: int, j: int| 0 <= i < 3 && 0 <= j < 3 ==> #[trigger] fv(t.matrix[i][j]) == m(i, j)
}

pub open spec fn identity_m() -> Mat {
    |i: int, j: int|
        if i == j {
            (1int, 1int)
        } else {
            (0int, 1int)
        }
}

pub open spec fn translation_m(tx: int, ty: int) -> Mat {
    |i: int, j: int|
        if i == 0 && j == 2 {
            (tx, 1int)
        } else if i == 1 && j == 2 {
            (ty, 1int)
        } else if i == j {
            (1int, 1int)
        } else {
            (0int, 1int)
        }
}

pub open spec fn rotation_m(c: (int, int), s: (int, int)) -> Mat {
    |i: int, j: int|
        if i == 0 && j == 0 {
            c
        } else if i == 0 && j == 1 {
            (-s.0, s.1)
        } else if i == 1 && j == 0 {
            s
        } else if i == 1 && j == 1 {
            c
        } else if i == j {
            (1int, 1int)
        } else {
            (0int, 1int)
        }
}

pub open spec fn scaling_m(sx: (int, int), sy: (int, int)) -> Mat {
    |i: int, j: int|
        if i == 0 && j == 0 {
            sx
        } else if i == 1 && j == 1 {
            sy
        } else if i == j {
            (1int, 1int)
        } else {
            (0int, 1int)
        }
}

pub open spec fn shear_m(shx: (int, int), shy: (int, int)) -> Mat {
    |i: int, j: int|
        if i == 0 && j == 1 {
            shx
        } else if i == 1 && j == 0 {
            shy
        } else if i == j {
            (1int, 1int)
        } else {
            (0int, 1int)
        }
}

/// Row `i` of `m` applied to the column `(x, y, z)`.
pub open spec fn row_o(m: Mat, i: int, x: int, y: int, z: int) -> Option<(int, int)> {
    add_oo(
        add_oo(mul_o(m(i, 0), (x, 1)), mul_o(m(i, 1), (y, 1))),
        mul_o(m(i, 2), (z, 1)),
    )
}

/// Column `j` of `m` applied to the row `(x, y, z)`.
pub open spec fn col_o(m: Mat, j: int, x: int, y: int, z: int) -> Option<(int, int)> {
    add_oo(
        add_oo(mul_o(m(0, j), (x, 1)), mul_o(m(1, j), (y, 1))),
        mul_o(m(2, j), (z, 1)),
    )
}

/// A fraction rounded toward zero to an integer.
pub open spec fn quot_s(f: (int, int)) -> int {
    trunc_div(f.0, f.1)
}

/// A computed fraction can be rounded to an `i64`.
pub open spec fn quot_ok(f: Option<(int, int)>) -> bool {
    f is Some && f->Some_0.1 != 0 && in_i64(quot_s(f->Some_0))
}

/// `m` can be applied to the point `c`.
pub open spec fn apply_ok(m: Mat, c: [i64; 3]) -> bool {
    &&& quot_ok(row_o(m, 0, c[0] as int, c[1] as int, c[2] as int))
    &&& quot_ok(row_o(m, 1, c[0] as int, c[1] as int, c[2] as int))
    &&& quot_ok(row_o(m, 2, c[0] as int, c[1] as int, c[2] as int))
}

/// The image of the point `c` under `m`, rounded to integers.
pub open spec fn apply_s(m: Mat, c: [i64; 3]) -> (int, int, int) {
    (
        quot_s(row_o(m, 0, c[0] as int, c[1] as int, c[2] as int)->Some_0),
        quot_s(row_o(m, 1, c[0] as int, c[1] as int, c[2] as int)->Some_0),
        quot_s(row_o(m, 2, c[0] as int, c[1] as int, c[2] as int)->Some_0),
    )
}

/// `m` can be applied, transposed, to the line `c`.
pub open spec fn apply_t_ok(m: Mat, c: [i64; 3]) -> bool {
    &&& quot_ok(col_o(m, 0, c[0] as int, c[1] as int, c[2] as int))
    &&& quot_ok(col_o(m, 1, c[0] as int, c[1] as int, c[2] as int))
    &&& quot_ok(col_o(m, 2, c[0] as int, c[1] as int, c[2] as int))
}

/// The image of the line `c` under the transpose of `m`, rounded to integers.
pub open spec fn apply_t_s(m: Mat, c: [i64; 3]) -> (int, int, int) {
    (
        quot_s(col_o(m, 0, c[0] as int, c[1] as int, c[2] as int)->Some_0),
        quot_s(col_o(m, 1, c[0] as int, c[1] as int, c[2] as int)->Some_0),
        quot_s(col_o(m, 2, c[0] as int, c[1] as int, c[2] as int)->Some_0),
    )
}

/// Entry `(i, j)` of the product `a * b`, summed from zero in order.
pub open spec fn compose_o(a: Mat, b: Mat, i: int, j: int) -> Option<(int, int)> {
    add_oo(
        add_oo(add_oo(Some((0int, 1int)), mul_o(a(i, 0), b(0, j))), mul_o(a(i, 1), b(1, j))),
        mul_o(a(i, 2), b(2, j)),
    )
}

/// The product `a * b` can be formed.
pub open spec fn compose_ok(a: Mat, b: Mat) -> bool {
    forall|i: int, j: int| 0 <= i < 3 && 0 <= j < 3 ==> (#[trigger] compose_o(a, b, i, j)) is Some
}

/// `p * q - r * s`.
pub open spec fn minor_o(p: (int, int), q: (int, int), r: (int, int), s: (int, int)) -> Option<
    (int, int),
> {
    sub_oo(mul_o(p, q), mul_o(r, s))
}

/// The determinant, expanded along the first row.
pub open spec fn det_o(m: Mat) -> Option<(int, int)> {
    add_oo(
        sub_oo(
            mul_oo(Some(m(0, 0)), minor_o(m(1, 1), m(2, 2), m(1, 2), m(2, 1))),
            mul_oo(Some(m(0, 1)), minor_o(m(1, 0), m(2, 2), m(1, 2), m(2, 0))),
        ),
        mul_oo(Some(m(0, 2)), minor_o(m(1, 0), m(2, 1), m(1, 1), m(2, 0))),
    )
}

/// Entry `(i, j)` of the adjugate of `m`.
pub open spec fn adj_o(m: Mat, i: int, j: int) -> Option<(int, int)> {
    let a = m(0, 0);
    let b = m(0, 1);
    let c = m(0, 2);
    let d = m(1, 0);
    let e = m(1, 1);
    let f = m(1, 2);
    let g = m(2, 0);
    let h = m(2, 1);
    let k = m(2, 2);
    if i == 0 && j == 0 {
        minor_o(e, k, f, h)
    } else if i == 0 && j == 1 {
        minor_o(c, h, b, k)
    } else if i == 0 && j == 2 {
        minor_o(b, f, c, e)
    } else if i == 1 && j == 0 {
        minor_o(f, g, d, k)
    } else if i == 1 && j == 1 {
        minor_o(a, k, c, g)
    } else if i == 1 && j == 2 {
        minor_o(c, d, a, f)
    } else if i == 2 && j == 0 {
        minor_o(d, h, e, g)
    } else if i == 2 && j == 1 {
        minor_o(b, g, a, h)
    } else {
        minor_o(a, e, b, d)
    }
}

/// Entry `(i, j)` of the inverse: the adjugate scaled by `1 / det`.
pub open spec fn inv_o(m: Mat, i: int, j: int) -> Option<(int, int)> {
    mul_oo(div_o((1, 1), det_o(m)->Some_0), adj_o(m, i, j))
}

/// The inverse of `m` can be formed: the determinant is not zero, and no
/// machine integer overflows.
pub open spec fn inverse_ok(m: Mat) -> bool {
    &&& det_o(m) is Some
    &&& det_o(m)->Some_0 != (0int, 1int)
    &&& div_o((1, 1), det_o(m)->Some_0) is Some
    &&& forall|i: int, j: int| 0 <= i < 3 && 0 <= j < 3 ==> (#[trigger] inv_o(m, i, j)) is Some
}

/// The inverse of `m`.
pub open spec fn inv_m(m: Mat) -> Mat {
    |i: int, j: int| inv_o(m, i, j)->Some_0
}

/// A projective transformation, as a matrix acting on column vectors.
#[derive(Debug, Clone, PartialEq)]
pub struct Transform {
    pub matrix: [[Fraction<i64>; 3]; 3],
}

pub(crate) fn div_u(a: &Fraction<i64>, b: &Fraction<i64>) -> (r: Fraction<i64>)
    requires
        div_o(fv(*a), fv(*b)) is Some,
    ensures
        fv(r) == div_o(fv(*a), fv(*b))->Some_0,
{
    a.checked_div(b).unwrap()
}

/// `p * q - r * s`, known not to overflow.
fn minor(p: &Fraction<i64>, q: &Fraction<i64>, r: &Fraction<i64>, s: &Fraction<i64>) -> (res:
    Fraction<i64>)
    requires
        minor_o(fv(*p), fv(*q), fv(*r), fv(*s)) is Some,
    ensures
        fv(res) == minor_o(fv(*p), fv(*q), fv(*r), fv(*s))->Some_0,
{
    sub_u(&mul_u(p, q), &mul_u(r, s))
}

/// A fraction rounded toward zero.
pub(crate) fn quotient(f: &Fraction<i64>) -> (r: i64)
    requires
        f.den != 0,
        in_i64(quot_s(fv(*f))),
    ensures
        r == quot_s(fv(*f)),
{
    trunc_quotient(f.num, f.den)
}

impl Transform {
    /// The identity transform.
    pub fn identity() -> (r: Transform)
        ensures
            has_mat(r, identity_m()),
    {
        let zero = Fraction { num: 0, den: 1 };
        let one = Fraction { num: 1, den: 1 };
        Transform { matrix: [[one, zero, zero], [zero, one, zero], [zero, zero, one]] }
    }

    /// The translation by `(tx, ty)`.
    pub fn translation(tx: i64, ty: i64) -> (r: Transform)
        ensures
            has_mat(r, translation_m(tx as int, ty as int)),
    {
        let zero = Fraction { num: 0, den: 1 };
        let one = Fraction { num: 1, den: 1 };
        Transform {
            matrix: [
                [one, zero, Fraction::from(tx)],
                [zero, one, Fraction::from(ty)],
                [zero, zero, one],
            ],
        }
    }

    /// The rotation with the given cosine and sine.
    pub fn rotation(angle_cos: Fraction<i64>, angle_sin: Fraction<i64>) -> (r: Transform)
        requires
            angle_sin.num != i64::MIN,
        ensures
            has_mat(r, rotation_m(fv(angle_cos), fv(angle_sin))),
    {
        let zero = Fraction { num: 0, den: 1 };
        let one = Fraction { num: 1, den: 1 };
        let neg_sin = Fraction { num: -angle_sin.num, den: angle_sin.den };
        Transform {
            matrix: [[angle_cos, neg_sin, zero], [angle_sin, angle_cos, zero], [zero, zero, one]],
        }
    }

    /// The scaling by `sx` and `sy` along the axes.
    pub fn scaling(sx: Fraction<i64>, sy: Fraction<i64>) -> (r: Transform)
        ensures
            has_mat(r, scaling_m(fv(sx), fv(sy))),
    {
        let zero = Fraction { num: 0, den: 1 };
        let one = Fraction { num: 1, den: 1 };
        Transform { matrix: [[sx, zero, zero], [zero, sy, zero], [zero, zero, one]] }
    }

    /// The shear with factors `shx` and `shy`.
    pub fn shear(shx: Fraction<i64>, shy: Fraction<i64>) -> (r: Transform)
        ensures
            has_mat(r, shear_m(fv(shx), fv(shy))),
    {
        let zero = Fraction { num: 0, den: 1 };
        let one = Fraction { num: 1, den: 1 };
        Transform { matrix: [[one, shx, zero], [shy, one, zero], [zero, zero, one]] }
    }

    fn compose_entry(&self, other: &Transform, i: usize, j: usize) -> (r: Fraction<i64>)
        requires
            i < 3,
            j < 3,
            compose_o(mat_s(*self), mat_s(*other), i as int, j as int) is Some,
        ensures
            fv(r) == compose_o(mat_s(*self), mat_s(*other), i as int, j as int)->Some_0,
    {
        let zero = Fraction { num: 0, den: 1 };
        let s0 = add_u(&zero, &mul_u(&self.matrix[i][0], &other.matrix[0][j]));
        let s1 = add_u(&s0, &mul_u(&self.matrix[i][1], &other.matrix[1][j]));
        add_u(&s1, &mul_u(&self.matrix[i][2], &other.matrix[2][j]))
    }

    /// The product `self * other`: apply `other` first, then `self`.
    pub fn compose(&self, other: &Transform) -> (r: Transform)
        requires
            compose_ok(mat_s(*self), mat_s(*other)),
        ensures
            forall|i: int, j: int|
                0 <= i < 3 && 0 <= j < 3 ==> fv(#[trigger] r.matrix[i][j]) == compose_o(
                    mat_s(*self),
                    mat_s(*other),
                    i,
                    j,
                )->Some_0,
    {
        let ghost a = mat_s(*self);
        let ghost b = mat_s(*other);
        assert(compose_o(a, b, 0, 0) is Some && compose_o(a, b, 0, 1) is Some && compose_o(a, b, 0, 2) is Some);
        assert(compose_o(a, b, 1, 0) is Some && compose_o(a, b, 1, 1) is Some && compose_o(a, b, 1, 2) is Some);
        assert(compose_o(a, b, 2, 0) is Some && compose_o(a, b, 2, 1) is Some && compose_o(a, b, 2, 2) is Some);
        Transform {
            matrix: [
                [
                    self.compose_entry(other, 0, 0),
                    self.compose_entry(other, 0, 1),
                    self.compose_entry(other, 0, 2),
                ],
                [
                    self.compose_entry(other, 1, 0),
                    self.compose_entry(other, 1, 1),
                    self.compose_entry(other, 1, 2),
                ],
                [
                    self.compose_entry(other, 2, 0),
                    self.compose_entry(other, 2, 1),
                    self.compose_entry(other, 2, 2),
                ],
            ],
        }
    }

    fn row_value(&self, i: usize, c: &[i64; 3]) -> (r: Fraction<i64>)
        requires
            i < 3,
            row_o(mat_s(*self), i as int, c[0] as int, c[1] as int, c[2] as int) is Some,
        ensures
            fv(r) == row_o(mat_s(*self), i as int, c[0] as int, c[1] as int, c[2] as int)->Some_0,
    {
        let x = Fraction::from(c[0]);
        let y = Fraction::from(c[1]);
        let z = Fraction::from(c[2]);
        let s = add_u(&mul_u(&self.matrix[i][0], &x), &mul_u(&self.matrix[i][1], &y));
        add_u(&s, &mul_u(&self.matrix[i][2], &z))
    }

    fn col_value(&self, j: usize, c: &[i64; 3]) -> (r: Fraction<i64>)
        requires
            j < 3,
            col_o(mat_s(*self), j as int, c[0] as int, c[1] as int, c[2] as int) is Some,
        ensures
            fv(r) == col_o(mat_s(*self), j as int, c[0] as int, c[1] as int, c[2] as int)->Some_0,
    {
        let x = Fraction::from(c[0]);
        let y = Fraction::from(c[1]);
        let z = Fraction::from(c[2]);
        let s = add_u(&mul_u(&self.matrix[0][j], &x), &mul_u(&self.matrix[1][j], &y));
        add_u(&s, &mul_u(&self.matrix[2][j], &z))
    }

    /// The image of a point, each coordinate rounded toward zero.
    pub fn apply_point(&self, point: &PgPoint) -> (r: PgPoint)
        requires
            apply_ok(mat_s(*self), point.coord),
        ensures
            crate::pg_object::tri(r.coord) == apply_s(mat_s(*self), point.coord),
    {
        let x_new = self.row_value(0, &point.coord);
        let y_new = self.row_value(1, &point.coord);
        let z_new = self.row_value(2, &point.coord);
        PgPoint::new([quotient(&x_new), quotient(&y_new), quotient(&z_new)])
    }

    /// The image of a line under the inverse transpose, each coordinate
    /// rounded toward zero. The transform must be invertible.
    pub fn apply_line(&self, line: &PgLine) -> (r: PgLine)
        requires
            inverse_ok(mat_s(*self)),
            apply_t_ok(inv_m(mat_s(*self)), line.coord),
        ensures
            crate::pg_object::tri(r.coord) == apply_t_s(inv_m(mat_s(*self)), line.coord),
    {
        let inverse = self.inverse();
        let x_new = inverse.col_value(0, &line.coord);
        let y_new = inverse.col_value(1, &line.coord);
        let z_new = inverse.col_value(2, &line.coord);
        PgLine::new([quotient(&x_new), quotient(&y_new), quotient(&z_new)])
    }

    /// The inverse transform, by the adjugate over the determinant. The
    /// determinant must not be zero.
    pub fn inverse(&self) -> (r: Transform)
        requires
            inverse_ok(mat_s(*self)),
        ensures
            has_mat(r, inv_m(mat_s(*self))),
    {
        let ghost m = mat_s(*self);
        let a = self.matrix[0][0];
        let b = self.matrix[0][1];
        let c = self.matrix[0][2];
        let d = self.matrix[1][0];
        let e = self.matrix[1][1];
        let f = self.matrix[1][2];
        let g = self.matrix[2][0];
        let h = self.matrix[2][1];
        let i = self.matrix[2][2];
        let det = add_u(
            &sub_u(&mul_u(&a, &minor(&e, &i, &f, &h)), &mul_u(&b, &minor(&d, &i, &f, &g))),
            &mul_u(&c, &minor(&d, &h, &e, &g)),
        );
        let inv_det = div_u(&Fraction { num: 1, den: 1 }, &det);
        assert(inv_o(m, 0, 0) is Some && inv_o(m, 0, 1) is Some && inv_o(m, 0, 2) is Some);
        assert(inv_o(m, 1, 0) is Some && inv_o(m, 1, 1) is Some && inv_o(m, 1, 2) is Some);
        assert(inv_o(m, 2, 0) is Some && inv_o(m, 2, 1) is Some && inv_o(m, 2, 2) is Some);
        let matrix = [
            [
                mul_u(&inv_det, &minor(&e, &i, &f, &h)),
                mul_u(&inv_det, &minor(&c, &h, &b, &i)),
                mul_u(&inv_det, &minor(&b, &f, &c, &e)),
            ],
            [
                mul_u(&inv_det, &minor(&f, &g, &d, &i)),
                mul_u(&inv_det, &minor(&a, &i, &c, &g)),
                mul_u(&inv_det, &minor(&c, &d, &a, &f)),
            ],
            [
                mul_u(&inv_det, &minor(&d, &h, &e, &g)),
                mul_u(&inv_det, &minor(&b, &g, &a, &h)),
                mul_u(&inv_det, &minor(&a, &e, &b, &d)),
            ],
        ];
        Transform { matrix }
    }
}

impl Default for Transform {
    fn default() -> (r: Transform)
        ensures
            has_mat(r, identity_m()),
    {
        Self::identity()
    }
}

/// `point` rotated about the origin.
pub fn rotate_point(point: &PgPoint, angle_cos: Fraction<i64>, angle_sin: Fraction<i64>) -> (r:
    PgPoint)
    requires
        angle_sin.num != i64::MIN,
        apply_ok(rotation_m(fv(angle_cos), fv(angle_sin)), point.coord),
    ensures
        crate::pg_object::tri(r.coord) == apply_s(
            rotation_m(fv(angle_cos), fv(angle_sin)),
            point.coord,
        ),
{
    let transform = Transform::rotation(angle_cos, angle_sin);
    transform.apply_point(point)
}

/// `point` translated by `(tx, ty)`.
pub fn translate_point(point: &PgPoint, tx: i64, ty: i64) -> (r: PgPoint)
    requires
        apply_ok(translation_m(tx as int, ty as int), point.coord),
    ensures
        crate::pg_object::tri(r.coord) == apply_s(translation_m(tx as int, ty as int), point.coord),
{
    let transform = Transform::translation(tx, ty);
    transform.apply_point(point)
}

/// `point` scaled by `sx` and `sy` along the axes.
pub fn scale_point(point: &PgPoint, sx: Fraction<i64>, sy: Fraction<i64>) -> (r: PgPoint)
    requires
        apply_ok(scaling_m(fv(sx), fv(sy)), point.coord),
    ensures
        crate::pg_object::tri(r.coord) == apply_s(scaling_m(fv(sx), fv(sy)), point.coord),
{
    let transform = Transform::scaling(sx, sy);
    transform.apply_point(point)
}

/// The transform taking four source points to four destination points.
/// Solving for it is not attempted: the identity is returned.
pub fn projective_transform(src: &[PgPoint; 4], dst: &[PgPoint; 4]) -> (r: Transform)
    ensures
        has_mat(r, identity_m()),
{
    Transform::identity()
}

} // verus!
