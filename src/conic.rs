//! Conic sections, as symmetric 3x3 matrices of exact fractions.
use vstd::prelude::*;
use crate::fractions::{Fraction, fv, mul_o};
use crate::pg_object::{PgLine, PgPoint, in_i64, tri};
use crate::transform::{Mat, add_oo, add_u, apply_ok, apply_s, mul_oo, mul_u, quotient, row_o, sub_oo, sub_u};

verus! {

/// The kind of a conic, from the sign of its discriminant.
#[derive(Debug, Clone, Copy, PartialEq, Eq, Structural)]
pub enum ConicType {
    Ellipse,
    Parabola,
    Hyperbola,
}

/// A conic `x^T Q x = 0`.
#[derive(Debug, Clone, PartialEq)]
pub struct Conic {
    pub matrix: [[Fraction<i64>; 3]; 3],
}

/// The matrix of a conic.
pub open spec fn conic_mat(c: Conic) -> Mat {
    |i: int, j: int| fv(c.matrix[i][j])
}

/// `c` has the entries of `m`.
pub open spec fn conic_has(c: Conic, m: Mat) -> bool {
    forall|i: int, j: int| 0 <= i < 3 && 0 <= j < 3 ==> #[trigger] fv(c.matrix[i][j]) == m(i, j)
}

/// The circle with centre `(cx, cy)` and squared radius `r2`.
pub open spec fn circle_m(cx: int, cy: int, r2: int) -> Mat {
    |i: int, j: int|
        if i == 2 && j == 2 {
            (cx * cx + cy * cy - r2, 1int)
        } else if (i == 0 && j == 2) || (i == 2 && j == 0) {
            (-cx, 1int)
        } else if (i == 1 && j == 2) || (i == 2 && j == 1) {
            (-cy, 1int)
        } else if i == j {
            (1int, 1int)
        } else {
            (0int, 1int)
        }
}

/// The parabola `y z - a x^2 = 0`.
pub open spec fn parabola_m(a: (int, int)) -> Mat {
    |i: int, j: int|
        if i == 0 && j == 0 {
            (-a.0, a.1)
        } else if (i == 1 && j == 2) || (i == 2 && j == 1) {
            (1int, 2int)
        } else {
            (0int, 1int)
        }
}

/// The value of the quadratic form of `m` at `(x, y, z)`.
pub open spec fn quad_o(m: Mat, x: int, y: int, z: int) -> Option<(int, int)> {
    add_oo(
        add_oo(
            mul_oo(Some((x, 1int)), row_o(m, 0, x, y, z)),
            mul_oo(Some((y, 1int)), row_o(m, 1, x, y, z)),
        ),
        mul_oo(Some((z, 1int)), row_o(m, 2, x, y, z)),
    )
}

/// The determinant of the upper-left 2x2 block.
pub open spec fn disc_o(m: Mat) -> Option<(int, int)> {
    sub_oo(mul_o(m(0, 0), m(1, 1)), mul_o(m(0, 1), m(1, 0)))
}

/// The kind of a conic whose discriminant is `d`.
pub open spec fn conic_type_of(d: (int, int)) -> ConicType {
    if d.0 > 0 {
        ConicType::Ellipse
    } else if d == (0int, 1int) {
        ConicType::Parabola
    } else {
        ConicType::Hyperbola
    }
}

impl Conic {
    /// The conic with the given matrix.
    pub fn new(matrix: [[Fraction<i64>; 3]; 3]) -> (r: Conic)
        ensures
            r.matrix == matrix,
    {
        Conic { matrix }
    }

    /// The circle with centre `(center_x, center_y)` and squared radius `radius_sq`.
    pub fn circle(center_x: i64, center_y: i64, radius_sq: i64) -> (r: Conic)
        requires
            center_x != i64::MIN,
            center_y != i64::MIN,
            in_i64(center_x * center_x),
            in_i64(center_y * center_y),
            in_i64(center_x * center_x + center_y * center_y),
            in_i64(center_x * center_x + center_y * center_y - radius_sq),
        ensures
            conic_has(r, circle_m(center_x as int, center_y as int, radius_sq as int)),
    {
        let zero = Fraction { num: 0, den: 1 };
        let one = Fraction { num: 1, den: 1 };
        let ncx = Fraction::from(-center_x);
        let ncy = Fraction::from(-center_y);
        let c = center_x * center_x + center_y * center_y - radius_sq;
        let matrix = [[one, zero, ncx], [zero, one, ncy], [ncx, ncy, Fraction::from(c)]];
        Conic { matrix }
    }

    /// The unit circle.
    pub fn unit_circle() -> (r: Conic)
        ensures
            conic_has(r, circle_m(0, 0, 1)),
    {
        Conic::circle(0, 0, 1)
    }

    /// The parabola `y = a x^2`.
    pub fn parabola(a: Fraction<i64>) -> (r: Conic)
        requires
            a.num != i64::MIN,
        ensures
            conic_has(r, parabola_m(fv(a))),
    {
        let zero = Fraction { num: 0, den: 1 };
        let half = Fraction { num: 1, den: 2 };
        let neg_a = Fraction { num: -a.num, den: a.den };
        let matrix = [[neg_a, zero, zero], [zero, zero, half], [zero, half, zero]];
        Conic { matrix }
    }

    fn row_value(&self, i: usize, c: &[i64; 3]) -> (r: Fraction<i64>)
        requires
            i < 3,
            row_o(conic_mat(*self), i as int, c[0] as int, c[1] as int, c[2] as int) is Some,
        ensures
            fv(r) == row_o(conic_mat(*self), i as int, c[0] as int, c[1] as int, c[2] as int)->Some_0,
    {
        let x = Fraction::from(c[0]);
        let y = Fraction::from(c[1]);
        let z = Fraction::from(c[2]);
        let s = add_u(&mul_u(&self.matrix[i][0], &x), &mul_u(&self.matrix[i][1], &y));
        add_u(&s, &mul_u(&self.matrix[i][2], &z))
    }

    /// Whether the point lies on the conic.
    pub fn contains(&self, point: &PgPoint) -> (r: bool)
        requires
            quad_o(
                conic_mat(*self),
                point.coord[0] as int,
                point.coord[1] as int,
                point.coord[2] as int,
            ) is Some,
        ensures
            r == (quad_o(
                conic_mat(*self),
                point.coord[0] as int,
                point.coord[1] as int,
                point.coord[2] as int,
            )->Some_0 == (0int, 1int)),
    {
        let c = &point.coord;
        let x = Fraction::from(c[0]);
        let y = Fraction::from(c[1]);
        let z = Fraction::from(c[2]);
        let rx = self.row_value(0, c);
        let ry = self.row_value(1, c);
        let rz = self.row_value(2, c);
        let s = add_u(&mul_u(&x, &rx), &mul_u(&y, &ry));
        let result = add_u(&s, &mul_u(&z, &rz));
        result.num == 0 && result.den == 1
    }

    /// The polar line of a point, each coordinate rounded toward zero.
    pub fn polar(&self, point: &PgPoint) -> (r: PgLine)
        requires
            apply_ok(conic_mat(*self), point.coord),
        ensures
            tri(r.coord) == apply_s(conic_mat(*self), point.coord),
    {
        let a = self.row_value(0, &point.coord);
        let b = self.row_value(1, &point.coord);
        let c = self.row_value(2, &point.coord);
        PgLine::new([quotient(&a), quotient(&b), quotient(&c)])
    }

    /// A point standing for the pole of a line: the point with the line's
    /// coordinates. Inverting the matrix is not attempted.
    pub fn pole(&self, line: &PgLine) -> (r: PgPoint)
        ensures
            r.coord == line.coord,
    {
        PgPoint::new([line.coord[0], line.coord[1], line.coord[2]])
    }

    /// The tangent at a point of the conic: its polar.
    pub fn tangent(&self, point: &PgPoint) -> (r: PgLine)
        requires
            apply_ok(conic_mat(*self), point.coord),
        ensures
            tri(r.coord) == apply_s(conic_mat(*self), point.coord),
    {
        self.polar(point)
    }

    /// The intersections with a line. Solving the quadratic is not
    /// attempted: the result is always empty.
    pub fn intersect(&self, _line: &PgLine) -> (r: Vec<PgPoint>)
        ensures
            r@.len() == 0,
    {
        Vec::new()
    }

    /// The determinant of the upper-left 2x2 block.
    pub fn discriminant(&self) -> (r: Fraction<i64>)
        requires
            disc_o(conic_mat(*self)) is Some,
        ensures
            fv(r) == disc_o(conic_mat(*self))->Some_0,
    {
        let a = self.matrix[0][0];
        let b = self.matrix[0][1];
        let d = self.matrix[1][0];
        let e = self.matrix[1][1];
        sub_u(&mul_u(&a, &e), &mul_u(&b, &d))
    }

    /// Ellipse, parabola or hyperbola, from the sign of the discriminant.
    pub fn conic_type(&self) -> (r: ConicType)
        requires
            disc_o(conic_mat(*self)) is Some,
        ensures
            r == conic_type_of(disc_o(conic_mat(*self))->Some_0),
    {
        let disc = self.discriminant();
        if disc.num > 0 {
            ConicType::Ellipse
        } else if disc.num == 0 && disc.den == 1 {
            ConicType::Parabola
        } else {
            ConicType::Hyperbola
        }
    }
}

} // verus!
