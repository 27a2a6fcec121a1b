//! Exact rational numbers over `i64`, kept in lowest terms with a
//! non-negative denominator.
use vstd::prelude::*;
use crate::error::{abs, trunc_div, trunc_quotient};
use crate::pg_object::{in_i64, wide_mul};

verus! {

/// A rational number `num / den`.
#[derive(Debug, Clone, Copy, PartialEq, Eq, Structural)]
pub struct Fraction<Z> {
    pub num: Z,
    pub den: Z,
}

/// The greatest common divisor, by Euclid's algorithm.
pub open spec fn gcd_s(a: nat, b: nat) -> nat
    decreases b,
{
    if b == 0 {
        a
    } else {
        gcd_s(b, a % b)
    }
}

/// Relies on `num_integer::gcd`: the greatest common divisor of `|a|` and
/// `|b|`, never negative. `|i64::MIN|` has no `i64` value, so it is left out.
#[verifier::external_body]
pub(crate) fn gcd(a: i64, b: i64) -> (r: i64)
    requires
        a != i64::MIN,
        b != i64::MIN,
    ensures
        r == gcd_s(abs(a as int) as nat, abs(b as int) as nat),
{
    num_integer::gcd(a, b)
}

/// The pair as numbers.
pub open spec fn fv(f: Fraction<i64>) -> (int, int) {
    (f.num as int, f.den as int)
}

/// `(n, d)` with the sign moved out of the denominator.
pub open spec fn sign_fix_s(n: int, d: int) -> (int, int) {
    if d < 0 {
        (-n, -d)
    } else {
        (n, d)
    }
}

/// `(n, d)` divided by the greatest common divisor, unless that is zero.
pub open spec fn divide_common_s(n: int, d: int) -> (int, int) {
    let g = gcd_s(abs(n) as nat, abs(d) as nat) as int;
    if g == 0 || g == 1 {
        (n, d)
    } else {
        (trunc_div(n, g), trunc_div(d, g))
    }
}

/// The canonical form of `n / d`: lowest terms, non-negative denominator.
pub open spec fn reduce_s(n: int, d: int) -> (int, int) {
    let s = sign_fix_s(n, d);
    divide_common_s(s.0, s.1)
}

/// `n / d` can be built: both are `i64` values other than `i64::MIN`.
pub open spec fn new_ok(n: int, d: int) -> bool {
    in_i64(n) && in_i64(d) && n != i64::MIN && d != i64::MIN
}

/// The product, or `None` when a machine integer would overflow.
pub open spec fn mul_o(a: (int, int), b: (int, int)) -> Option<(int, int)> {
    if new_ok(a.0 * b.0, a.1 * b.1) {
        Some(reduce_s(a.0 * b.0, a.1 * b.1))
    } else {
        None
    }
}

/// The quotient, or `None` when a machine integer would overflow.
pub open spec fn div_o(a: (int, int), b: (int, int)) -> Option<(int, int)> {
    if new_ok(a.0 * b.1, a.1 * b.0) {
        Some(reduce_s(a.0 * b.1, a.1 * b.0))
    } else {
        None
    }
}

/// The unreduced numerator and denominator of a sum.
pub open spec fn sum_parts(a: (int, int), b: (int, int)) -> (int, int) {
    if a.1 == b.1 {
        (a.0 + b.0, a.1)
    } else {
        (a.0 * b.1 + b.0 * a.1, a.1 * b.1)
    }
}

/// The unreduced numerator and denominator of a difference.
pub open spec fn diff_parts(a: (int, int), b: (int, int)) -> (int, int) {
    if a.1 == b.1 {
        (a.0 - b.0, a.1)
    } else {
        (a.0 * b.1 - b.0 * a.1, a.1 * b.1)
    }
}

/// The cross products of a sum or difference fit in an `i64`.
pub open spec fn cross_terms_fit(a: (int, int), b: (int, int)) -> bool {
    a.1 == b.1 || (in_i64(a.0 * b.1) && in_i64(b.0 * a.1))
}

/// The sum, or `None` when a machine integer would overflow.
pub open spec fn add_o(a: (int, int), b: (int, int)) -> Option<(int, int)> {
    let p = sum_parts(a, b);
    if cross_terms_fit(a, b) && new_ok(p.0, p.1) {
        Some(reduce_s(p.0, p.1))
    } else {
        None
    }
}

/// The difference, or `None` when a machine integer would overflow.
pub open spec fn sub_o(a: (int, int), b: (int, int)) -> Option<(int, int)> {
    let p = diff_parts(a, b);
    if cross_terms_fit(a, b) && new_ok(p.0, p.1) {
        Some(reduce_s(p.0, p.1))
    } else {
        None
    }
}

/// `abs(n) / g <= abs(n)` for a positive divisor.
pub(crate) proof fn lemma_quotient_shrinks(n: int, g: int)
    requires
        g >= 1,
    ensures
        abs(n) / g <= abs(n),
        abs(n) / g >= 0,
{
    assert(abs(n) / g <= abs(n)) by (nonlinear_arith)
        requires
            g >= 1,
            abs(n) >= 0,
    ;
    assert(abs(n) / g >= 0) by (nonlinear_arith)
        requires
            g >= 1,
            abs(n) >= 0,
    ;
}

impl Fraction<i64> {
    /// The fraction `num / den` in canonical form.
    pub fn new(num: i64, den: i64) -> (r: Self)
        requires
            num != i64::MIN,
            den != i64::MIN,
        ensures
            fv(r) == reduce_s(num as int, den as int),
    {
        let mut res = Fraction { num, den };
        res.normalize();
        res
    }

    /// Brings `self` to canonical form, and returns the common divisor found.
    pub fn normalize(&mut self) -> (common: i64)
        requires
            old(self).num != i64::MIN,
            old(self).den != i64::MIN,
        ensures
            fv(*final(self)) == reduce_s(old(self).num as int, old(self).den as int),
            common == gcd_s(
                abs(sign_fix_s(old(self).num as int, old(self).den as int).0) as nat,
                abs(sign_fix_s(old(self).num as int, old(self).den as int).1) as nat,
            ),
    {
        self.normalize1();
        self.normalize2()
    }

    /// Divides numerator and denominator by their greatest common divisor,
    /// which it returns.
    pub fn normalize2(&mut self) -> (common: i64)
        requires
            old(self).num != i64::MIN,
            old(self).den != i64::MIN,
        ensures
            fv(*final(self)) == divide_common_s(old(self).num as int, old(self).den as int),
            common == gcd_s(abs(old(self).num as int) as nat, abs(old(self).den as int) as nat),
    {
        let common = gcd(self.num, self.den);
        if common != 1 && common != 0 {
            proof {
                lemma_quotient_shrinks(self.num as int, common as int);
                lemma_quotient_shrinks(self.den as int, common as int);
            }
            self.num = trunc_quotient(self.num, common);
            self.den = trunc_quotient(self.den, common);
        }
        common
    }

    /// Makes the denominator non-negative.
    pub fn normalize1(&mut self)
        requires
            old(self).num != i64::MIN,
            old(self).den != i64::MIN,
        ensures
            fv(*final(self)) == sign_fix_s(old(self).num as int, old(self).den as int),
            final(self).num != i64::MIN,
            final(self).den != i64::MIN,
    {
        if self.den < 0 {
            self.num = -self.num;
            self.den = -self.den;
        }
    }

    /// The integer `num` as a fraction.
    pub fn from(num: i64) -> (r: Self)
        ensures
            fv(r) == (num as int, 1int),
    {
        Fraction { num, den: 1 }
    }

    /// The numerator.
    pub fn numer(&self) -> (r: &i64)
        ensures
            *r == self.num,
    {
        &self.num
    }

    /// The denominator.
    pub fn denom(&self) -> (r: &i64)
        ensures
            *r == self.den,
    {
        &self.den
    }

    /// `self.num * rhs.den - self.den * rhs.num`.
    pub fn cross(&self, rhs: &Fraction<i64>) -> (r: i64)
        requires
            in_i64(self.num * rhs.den - self.den * rhs.num),
        ensures
            r == self.num * rhs.den - self.den * rhs.num,
    {
        (wide_mul(self.num, rhs.den) - wide_mul(self.den, rhs.num)) as i64
    }

    /// Replaces `self` by its reciprocal, with a non-negative denominator.
    pub fn reciprocal(&mut self)
        requires
            old(self).num != i64::MIN,
            old(self).den != i64::MIN,
        ensures
            fv(*final(self)) == sign_fix_s(old(self).den as int, old(self).num as int),
    {
        let t = self.num;
        self.num = self.den;
        self.den = t;
        self.normalize1();
    }

    /// The negation, when the numerator is not `i64::MIN`.
    pub fn checked_neg(&self) -> (r: Option<Self>)
        ensures
            r is Some <==> self.num != i64::MIN,
            r is Some ==> fv(r->Some_0) == (-self.num, self.den as int),
    {
        if self.num == i64::MIN {
            None
        } else {
            Some(Fraction { num: -self.num, den: self.den })
        }
    }

    /// The product, or `None` on overflow.
    pub fn checked_mul(&self, other: &Self) -> (r: Option<Self>)
        ensures
            r is Some <==> mul_o(fv(*self), fv(*other)) is Some,
            r is Some ==> fv(r->Some_0) == mul_o(fv(*self), fv(*other))->Some_0,
    {
        let n = wide_mul(self.num, other.num);
        let d = wide_mul(self.den, other.den);
        Self::checked_new(n, d)
    }

    /// The quotient, or `None` on overflow.
    pub fn checked_div(&self, other: &Self) -> (r: Option<Self>)
        ensures
            r is Some <==> div_o(fv(*self), fv(*other)) is Some,
            r is Some ==> fv(r->Some_0) == div_o(fv(*self), fv(*other))->Some_0,
    {
        let n = wide_mul(self.num, other.den);
        let d = wide_mul(self.den, other.num);
        Self::checked_new(n, d)
    }

    /// The sum, or `None` on overflow.
    pub fn checked_add(&self, other: &Self) -> (r: Option<Self>)
        ensures
            r is Some <==> add_o(fv(*self), fv(*other)) is Some,
            r is Some ==> fv(r->Some_0) == add_o(fv(*self), fv(*other))->Some_0,
    {
        if self.den == other.den {
            Self::checked_new(self.num as i128 + other.num as i128, self.den as i128)
        } else {
            let p = wide_mul(self.num, other.den);
            let q = wide_mul(other.num, self.den);
            if p < i64::MIN as i128 || p > i64::MAX as i128 || q < i64::MIN as i128 || q
                > i64::MAX as i128 {
                return None;
            }
            Self::checked_new(p + q, wide_mul(self.den, other.den))
        }
    }

    /// The difference, or `None` on overflow.
    pub fn checked_sub(&self, other: &Self) -> (r: Option<Self>)
        ensures
            r is Some <==> sub_o(fv(*self), fv(*other)) is Some,
            r is Some ==> fv(r->Some_0) == sub_o(fv(*self), fv(*other))->Some_0,
    {
        if self.den == other.den {
            Self::checked_new(self.num as i128 - other.num as i128, self.den as i128)
        } else {
            let p = wide_mul(self.num, other.den);
            let q = wide_mul(other.num, self.den);
            if p < i64::MIN as i128 || p > i64::MAX as i128 || q < i64::MIN as i128 || q
                > i64::MAX as i128 {
                return None;
            }
            Self::checked_new(p - q, wide_mul(self.den, other.den))
        }
    }

    /// `n / d` in canonical form, or `None` when it cannot be built.
    fn checked_new(n: i128, d: i128) -> (r: Option<Self>)
        ensures
            r is Some <==> new_ok(n as int, d as int),
            r is Some ==> fv(r->Some_0) == reduce_s(n as int, d as int),
    {
        if n <= i64::MIN as i128 || n > i64::MAX as i128 || d <= i64::MIN as i128 || d
            > i64::MAX as i128 {
            None
        } else {
            Some(Self::new(n as i64, d as i64))
        }
    }

    /// Whether the value is positive (for a non-negative denominator).
    pub fn is_positive(&self) -> (r: bool)
        ensures
            r == (self.num > 0 && self.den > 0 || self.num < 0 && self.den < 0),
    {
        self.num > 0 && self.den > 0 || self.num < 0 && self.den < 0
    }
}

impl Default for Fraction<i64> {
    fn default() -> (r: Self)
        ensures
            fv(r) == (0int, 1int),
    {
        Fraction { num: 0, den: 1 }
    }
}

impl PartialOrd for Fraction<i64> {
    fn partial_cmp(&self, other: &Self) -> Option<core::cmp::Ordering> {
        let l = wide_mul(self.num, other.den);
        let r = wide_mul(other.num, self.den);
        if l < r {
            Some(core::cmp::Ordering::Less)
        } else if l > r {
            Some(core::cmp::Ordering::Greater)
        } else {
            Some(core::cmp::Ordering::Equal)
        }
    }
}

impl vstd::std_specs::cmp::PartialOrdSpecImpl for Fraction<i64> {
    open spec fn obeys_partial_cmp_spec() -> bool {
        true
    }

    open spec fn partial_cmp_spec(&self, other: &Self) -> Option<core::cmp::Ordering> {
        let l = self.num * other.den;
        let r = other.num * self.den;
        if l < r {
            Some(core::cmp::Ordering::Less)
        } else if l > r {
            Some(core::cmp::Ordering::Greater)
        } else {
            Some(core::cmp::Ordering::Equal)
        }
    }
}

} // verus!
