//! Cross-ratios of collinear points, and the action of a matrix of
//! fractions on points and lines.
use vstd::prelude::*;
use crate::fractions::{Fraction, div_o, fv, new_ok, reduce_s, sub_o};
use crate::pg_object::{PgPoint, tri};
use crate::pg_plane::{Homogeneous, ProjectivePlane};
use crate::transform::{
    Mat, add_u, apply_ok, apply_s, apply_t_ok, apply_t_s, div_oo, div_u, identity_m, mul_oo, mul_u,
    quotient, sub_oo, sub_u,
};

verus! {

/// The matrix of an array of fractions.
pub open spec fn arr_mat(m: [[Fraction<i64>; 3]; 3]) -> Mat {
    |i: int, j: int| fv(m[i][j])
}

/// The affine coordinate `c / z` as a fraction, when it can be built.
pub open spec fn coord_o(c: i64, z: i64) -> Option<(int, int)> {
    if new_ok(c as int, z as int) {
        Some(reduce_s(c as int, z as int))
    } else {
        None
    }
}

/// The parameter of `p` on the line from `a` to `b` (`p = a + t (b - a)`),
/// read off the `x` coordinates, or the `y` coordinates when the line is
/// vertical; zero when `a` or `b` is at infinity, or when they coincide.
pub open spec fn param_o(a: [i64; 3], b: [i64; 3], p: [i64; 3]) -> Option<(int, int)> {
    if a[2] == 0 || b[2] == 0 {
        Some((0int, 1int))
    } else {
        let x1 = coord_o(a[0], a[2]);
        let y1 = coord_o(a[1], a[2]);
        let x2 = coord_o(b[0], b[2]);
        let y2 = coord_o(b[1], b[2]);
        let xp = coord_o(p[0], p[2]);
        let yp = coord_o(p[1], p[2]);
        let dx = sub_oo(x2, x1);
        let dy = sub_oo(y2, y1);
        if x1 is None || y1 is None || x2 is None || y2 is None || xp is None || yp is None
            || dx is None || dy is None {
            None
        } else if dx->Some_0 == (0int, 1int) {
            if dy->Some_0 == (0int, 1int) {
                Some((0int, 1int))
            } else {
                div_oo(sub_oo(yp, y1), dy)
            }
        } else {
            div_oo(sub_oo(xp, x1), dx)
        }
    }
}

/// The cross-ratio `(a, b; c, d)` from the parameters of `c` and `d`.
pub open spec fn cross_ratio_o(a: [i64; 3], b: [i64; 3], c: [i64; 3], d: [i64; 3]) -> Option<
    (int, int),
> {
    let lc = param_o(a, b, c);
    let ld = param_o(a, b, d);
    let one = Some((1int, 1int));
    div_oo(mul_oo(lc, sub_oo(one, ld)), mul_oo(ld, sub_oo(one, lc)))
}

/// `c / z` as a fraction.
fn coord_frac(c: i64, z: i64) -> (r: Fraction<i64>)
    requires
        coord_o(c, z) is Some,
    ensures
        fv(r) == coord_o(c, z)->Some_0,
{
    Fraction::new(c, z)
}

/// The parameter of `p` on the line from `a` to `b`.
pub fn compute_parameter(a: &PgPoint, b: &PgPoint, p: &PgPoint) -> (r: Fraction<i64>)
    requires
        param_o(a.coord, b.coord, p.coord) is Some,
    ensures
        fv(r) == param_o(a.coord, b.coord, p.coord)->Some_0,
{
    if a.coord[2] == 0 || b.coord[2] == 0 {
        return Fraction { num: 0, den: 1 };
    }
    let x1 = coord_frac(a.coord[0], a.coord[2]);
    let y1 = coord_frac(a.coord[1], a.coord[2]);
    let x2 = coord_frac(b.coord[0], b.coord[2]);
    let y2 = coord_frac(b.coord[1], b.coord[2]);
    let xp = coord_frac(p.coord[0], p.coord[2]);
    let yp = coord_frac(p.coord[1], p.coord[2]);
    let dx = sub_u(&x2, &x1);
    let dy = sub_u(&y2, &y1);
    if dx.num == 0 && dx.den == 1 {
        if dy.num == 0 && dy.den == 1 {
            Fraction { num: 0, den: 1 }
        } else {
            div_u(&sub_u(&yp, &y1), &dy)
        }
    } else {
        div_u(&sub_u(&xp, &x1), &dx)
    }
}

/// The cross-ratio `(a, b; c, d)` of four collinear points.
pub fn cross_ratio(a: &PgPoint, b: &PgPoint, c: &PgPoint, d: &PgPoint) -> (r: Fraction<i64>)
    requires
        cross_ratio_o(a.coord, b.coord, c.coord, d.coord) is Some,
    ensures
        fv(r) == cross_ratio_o(a.coord, b.coord, c.coord, d.coord)->Some_0,
{
    let lambda_c = compute_parameter(a, b, c);
    let lambda_d = compute_parameter(a, b, d);
    let one = Fraction { num: 1, den: 1 };
    let numerator = mul_u(&lambda_c, &sub_u(&one, &lambda_d));
    let denominator = mul_u(&lambda_d, &sub_u(&one, &lambda_c));
    div_u(&numerator, &denominator)
}

/// The cross-ratio of four lines, given by their coordinates: that of their
/// dual points.
pub fn cross_ratio_lines(l1: &PgPoint, l2: &PgPoint, l3: &PgPoint, l4: &PgPoint) -> (r: Fraction<
    i64,
>)
    requires
        cross_ratio_o(l1.coord, l2.coord, l3.coord, l4.coord) is Some,
    ensures
        fv(r) == cross_ratio_o(l1.coord, l2.coord, l3.coord, l4.coord)->Some_0,
{
    let p1 = l1.aux();
    let p2 = l2.aux();
    let p3 = l3.aux();
    let p4 = l4.aux();
    cross_ratio(
        &PgPoint::new(p1.coord),
        &PgPoint::new(p2.coord),
        &PgPoint::new(p3.coord),
        &PgPoint::new(p4.coord),
    )
}

/// Whether `(a, b; c, d) = -1`.
pub fn is_harmonic_division(a: &PgPoint, b: &PgPoint, c: &PgPoint, d: &PgPoint) -> (r: bool)
    requires
        cross_ratio_o(a.coord, b.coord, c.coord, d.coord) is Some,
    ensures
        r == (cross_ratio_o(a.coord, b.coord, c.coord, d.coord)->Some_0 == (-1int, 1int)),
{
    let ratio = cross_ratio(a, b, c, d);
    ratio.num == -1 && ratio.den == 1
}

/// Row `i` of `m` applied to `c`.
fn row_of(m: &[[Fraction<i64>; 3]; 3], i: usize, c: &[i64; 3]) -> (r: Fraction<i64>)
    requires
        i < 3,
        crate::transform::row_o(arr_mat(*m), i as int, c[0] as int, c[1] as int, c[2] as int) is Some,
    ensures
        fv(r) == crate::transform::row_o(
            arr_mat(*m),
            i as int,
            c[0] as int,
            c[1] as int,
            c[2] as int,
        )->Some_0,
{
    let x = Fraction::from(c[0]);
    let y = Fraction::from(c[1]);
    let z = Fraction::from(c[2]);
    let s = add_u(&mul_u(&m[i][0], &x), &mul_u(&m[i][1], &y));
    add_u(&s, &mul_u(&m[i][2], &z))
}

/// Column `j` of `m` applied to `c`.
fn col_of(m: &[[Fraction<i64>; 3]; 3], j: usize, c: &[i64; 3]) -> (r: Fraction<i64>)
    requires
        j < 3,
        crate::transform::col_o(arr_mat(*m), j as int, c[0] as int, c[1] as int, c[2] as int) is Some,
    ensures
        fv(r) == crate::transform::col_o(
            arr_mat(*m),
            j as int,
            c[0] as int,
            c[1] as int,
            c[2] as int,
        )->Some_0,
{
    let x = Fraction::from(c[0]);
    let y = Fraction::from(c[1]);
    let z = Fraction::from(c[2]);
    let s = add_u(&mul_u(&m[0][j], &x), &mul_u(&m[1][j], &y));
    add_u(&s, &mul_u(&m[2][j], &z))
}

/// The image of a point under `matrix`, each coordinate rounded toward zero.
pub fn projective_transform_point(matrix: &[[Fraction<i64>; 3]; 3], point: &PgPoint) -> (r:
    PgPoint)
    requires
        apply_ok(arr_mat(*matrix), point.coord),
    ensures
        tri(r.coord) == apply_s(arr_mat(*matrix), point.coord),
{
    let x = row_of(matrix, 0, &point.coord);
    let y = row_of(matrix, 1, &point.coord);
    let z = row_of(matrix, 2, &point.coord);
    PgPoint::new([quotient(&x), quotient(&y), quotient(&z)])
}

/// The image of a line, given by its coordinates, under the transpose of
/// `matrix`, each coordinate rounded toward zero.
pub fn projective_transform_line(matrix: &[[Fraction<i64>; 3]; 3], line: &PgPoint) -> (r: PgPoint)
    requires
        apply_t_ok(arr_mat(*matrix), line.coord),
    ensures
        tri(r.coord) == apply_t_s(arr_mat(*matrix), line.coord),
{
    let x = col_of(matrix, 0, &line.coord);
    let y = col_of(matrix, 1, &line.coord);
    let z = col_of(matrix, 2, &line.coord);
    PgPoint::new([quotient(&x), quotient(&y), quotient(&z)])
}

/// The matrix taking four source points to four destination points. Solving
/// for it is not attempted: the identity is returned.
pub fn compute_projective_transform(_src: &[PgPoint; 4], _dst: &[PgPoint; 4]) -> (r: [[Fraction<
    i64,
>; 3]; 3])
    ensures
        forall|i: int, j: int|
            0 <= i < 3 && 0 <= j < 3 ==> #[trigger] fv(r[i][j]) == identity_m()(i, j),
{
    let zero = Fraction { num: 0, den: 1 };
    let one = Fraction { num: 1, den: 1 };
    [[one, zero, zero], [zero, one, zero], [zero, zero, one]]
}

} // verus!
