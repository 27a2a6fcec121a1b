//! Errors of geometric computations, and integer arithmetic that reports
//! overflow instead of wrapping.
use vstd::prelude::*;
use crate::pg_object::in_i64;

verus! {

/// What can go wrong in a geometric computation.
#[derive(Debug, Clone, PartialEq, Eq)]
pub enum GeometryError {
    Overflow(String),
    DivisionByZero,
    InvalidCoordinates,
    PointAtInfinity,
    CoincidentPoints,
    CoincidentLines,
    NotCollinear,
    InvalidTriangle,
}

/// Relies on `format!`: renders the context and operands of an overflow.
#[verifier::external_body]
fn overflow_text(context: &str, a: i64, op: &str, b: i64) -> String {
    format!("{}: {} {} {}", context, a, op, b)
}

/// Relies on `format!`: prefixes the message of an overflow.
#[verifier::external_body]
fn overflow_display(msg: &String) -> String {
    format!("Arithmetic overflow: {}", msg)
}

impl GeometryError {
    /// A human-readable description of the error.
    pub fn message(&self) -> (r: String)
        ensures
            self is DivisionByZero ==> r@ == "Division by zero"@,
            self is InvalidCoordinates ==> r@ == "Invalid homogeneous coordinates (all zeros)"@,
            self is PointAtInfinity ==> r@ == "Point is at infinity"@,
            self is CoincidentPoints ==> r@ == "Points are coincident"@,
            self is CoincidentLines ==> r@ == "Lines are coincident"@,
            self is NotCollinear ==> r@ == "Points are not collinear"@,
            self is InvalidTriangle ==> r@ == "Invalid triangle (collinear points)"@,
    {
        match self {
            GeometryError::Overflow(msg) => overflow_display(msg),
            GeometryError::DivisionByZero => "Division by zero".to_owned(),
            GeometryError::InvalidCoordinates => "Invalid homogeneous coordinates (all zeros)".to_owned(),
            GeometryError::PointAtInfinity => "Point is at infinity".to_owned(),
            GeometryError::CoincidentPoints => "Points are coincident".to_owned(),
            GeometryError::CoincidentLines => "Lines are coincident".to_owned(),
            GeometryError::NotCollinear => "Points are not collinear".to_owned(),
            GeometryError::InvalidTriangle => "Invalid triangle (collinear points)".to_owned(),
        }
    }
}

/// Rust's `/` on integers: the quotient rounded toward zero.
pub open spec fn trunc_div(a: int, b: int) -> int {
    let q = abs(a) / abs(b);
    if (a < 0) != (b < 0) {
        -q
    } else {
        q
    }
}

pub open spec fn abs(x: int) -> int {
    if x < 0 {
        -x
    } else {
        x
    }
}

/// The magnitude of `x`, exactly.
pub fn magnitude(x: i64) -> (r: u64)
    ensures
        r == abs(x as int),
{
    if x < 0 {
        (-(x as i128)) as u64
    } else {
        x as u64
    }
}

/// `a / b` rounded toward zero, for `b != 0` and a quotient that fits.
pub fn trunc_quotient(a: i64, b: i64) -> (r: i64)
    requires
        b != 0,
        in_i64(trunc_div(a as int, b as int)),
    ensures
        r == trunc_div(a as int, b as int),
{
    let q = magnitude(a) / magnitude(b);
    if (a < 0) != (b < 0) {
        (-(q as i128)) as i64
    } else {
        q as i64
    }
}

/// `a + b`, or an overflow error.
pub fn checked_add(a: i64, b: i64, context: &str) -> (r: Result<i64, GeometryError>)
    ensures
        in_i64(a + b) <==> r is Ok,
        r is Ok ==> r->Ok_0 == a + b,
        r is Err ==> r->Err_0 is Overflow,
{
    let s = a as i128 + b as i128;
    if s < i64::MIN as i128 || s > i64::MAX as i128 {
        Err(GeometryError::Overflow(overflow_text(context, a, "+", b)))
    } else {
        Ok(s as i64)
    }
}

/// `a - b`, or an overflow error.
pub fn checked_sub(a: i64, b: i64, context: &str) -> (r: Result<i64, GeometryError>)
    ensures
        in_i64(a - b) <==> r is Ok,
        r is Ok ==> r->Ok_0 == a - b,
        r is Err ==> r->Err_0 is Overflow,
{
    let s = a as i128 - b as i128;
    if s < i64::MIN as i128 || s > i64::MAX as i128 {
        Err(GeometryError::Overflow(overflow_text(context, a, "-", b)))
    } else {
        Ok(s as i64)
    }
}

/// `a * b`, or an overflow error.
pub fn checked_mul(a: i64, b: i64, context: &str) -> (r: Result<i64, GeometryError>)
    ensures
        in_i64(a * b) <==> r is Ok,
        r is Ok ==> r->Ok_0 == a * b,
        r is Err ==> r->Err_0 is Overflow,
{
    let s = crate::pg_object::wide_mul(a, b);
    if s < i64::MIN as i128 || s > i64::MAX as i128 {
        Err(GeometryError::Overflow(overflow_text(context, a, "*", b)))
    } else {
        Ok(s as i64)
    }
}

/// `a / b` rounded toward zero, or a division-by-zero or overflow error.
pub fn checked_div(a: i64, b: i64, context: &str) -> (r: Result<i64, GeometryError>)
    ensures
        b == 0 <==> r == Err::<i64, GeometryError>(GeometryError::DivisionByZero),
        (b != 0 && in_i64(trunc_div(a as int, b as int))) <==> r is Ok,
        r is Ok ==> r->Ok_0 == trunc_div(a as int, b as int),
        (b != 0 && !in_i64(trunc_div(a as int, b as int))) ==> r->Err_0 is Overflow,
{
    if b == 0 {
        return Err(GeometryError::DivisionByZero);
    }
    if a == i64::MIN && b == -1 {
        assert(abs(a as int) / abs(b as int) == 0x8000_0000_0000_0000);
        return Err(GeometryError::Overflow(overflow_text(context, a, "/", b)));
    }
    proof {
        assert(abs(a as int) / abs(b as int) <= abs(a as int)) by (nonlinear_arith)
            requires abs(b as int) >= 1, abs(a as int) >= 0;
        if a == i64::MIN && b != 1 {
            assert(abs(b as int) >= 2);
            assert(abs(a as int) / abs(b as int) <= abs(a as int) / 2) by (nonlinear_arith)
                requires abs(b as int) >= 2, abs(a as int) >= 0;
        }
    }
    Ok(trunc_quotient(a, b))
}

/// Homogeneous coordinates must not be all zero.
pub fn validate_coords(coord: &[i64; 3]) -> (r: Result<(), GeometryError>)
    ensures
        r is Ok <==> !(coord[0] == 0 && coord[1] == 0 && coord[2] == 0),
        r is Err ==> r->Err_0 is InvalidCoordinates,
{
    if coord[0] == 0 && coord[1] == 0 && coord[2] == 0 {
        Err(GeometryError::InvalidCoordinates)
    } else {
        Ok(())
    }
}

} // verus!
