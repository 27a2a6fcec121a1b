use projgeom::fractions::Fraction;

#[test]
fn new_reduces_and_moves_the_sign() {
    let f = Fraction::<i64>::new(30, -40);
    assert_eq!((f.num, f.den), (-3, 4));
    let g = Fraction::<i64>::new(0, 5);
    assert_eq!((g.num, g.den), (0, 1));
    let h = Fraction::<i64>::new(0, 0);
    assert_eq!((h.num, h.den), (0, 0));
    let i = Fraction::<i64>::new(-7, 0);
    assert_eq!((i.num, i.den), (-1, 0));
}

#[test]
fn normalize_returns_the_common_divisor() {
    let mut f = Fraction { num: 12i64, den: -18 };
    assert_eq!(f.normalize(), 6);
    assert_eq!((f.num, f.den), (-2, 3));
}

#[test]
fn reciprocal_and_cross() {
    let mut f = Fraction::<i64>::new(3, -4);
    f.reciprocal();
    assert_eq!((f.num, f.den), (-4, 3));
    let a = Fraction::<i64>::new(30, 40);
    let b = Fraction::<i64>::from(3);
    assert_eq!(a.cross(&b), -9);
    assert_eq!(Fraction::<i64>::default(), Fraction::<i64>::new(0, 1));
}

#[test]
fn checked_arithmetic() {
    let f = Fraction::<i64>::new(3, 4);
    let g = Fraction::<i64>::new(5, 6);
    assert_eq!(f.checked_mul(&g), Some(Fraction::<i64>::new(5, 8)));
    assert_eq!(f.checked_div(&g), Some(Fraction::<i64>::new(9, 10)));
    assert_eq!(f.checked_add(&g), Some(Fraction::<i64>::new(19, 12)));
    assert_eq!(f.checked_sub(&g), Some(Fraction::<i64>::new(-1, 12)));
    assert_eq!(g.checked_neg(), Some(Fraction::<i64>::new(-5, 6)));
    let big = Fraction::<i64>::new(i64::MAX, 1);
    assert_eq!(big.checked_mul(&big), None);
    assert_eq!(big.checked_add(&big), None);
}

#[test]
fn ordering() {
    let f = Fraction::<i64>::new(3, 4);
    assert!(f < Fraction::<i64>::new(1, 1));
    assert!(Fraction::<i64>::new(-1, 2) < Fraction::<i64>::new(0, 1));
    assert!(f.is_positive());
    assert_eq!(*f.numer(), 3);
    assert_eq!(*f.denom(), 4);
}
