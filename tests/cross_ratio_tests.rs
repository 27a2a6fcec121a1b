use projgeom::cross_ratio::{
    compute_parameter, compute_projective_transform, cross_ratio, cross_ratio_lines,
    is_harmonic_division, projective_transform_line, projective_transform_point,
};
use projgeom::fractions::Fraction;
use projgeom::PgPoint;

fn diag(a: i64, b: i64, c: i64) -> [[Fraction<i64>; 3]; 3] {
    [
        [Fraction::<i64>::new(a, 1), Fraction::<i64>::new(0, 1), Fraction::<i64>::new(0, 1)],
        [Fraction::<i64>::new(0, 1), Fraction::<i64>::new(b, 1), Fraction::<i64>::new(0, 1)],
        [Fraction::<i64>::new(0, 1), Fraction::<i64>::new(0, 1), Fraction::<i64>::new(c, 1)],
    ]
}

#[test]
fn test_cross_ratio_basic() {
    let a = PgPoint::new([1, 0, 1]);
    let b = PgPoint::new([0, 1, 1]);
    let c = PgPoint::new([1, 1, 1]);
    let d = PgPoint::new([2, 1, 1]);
    let ratio = cross_ratio(&a, &b, &c, &d);
    assert!(ratio != Fraction::<i64>::new(0, 0));
}

#[test]
fn test_is_harmonic_division() {
    let a = PgPoint::new([0, 0, 1]);
    let b = PgPoint::new([2, 0, 1]);
    let c = PgPoint::new([1, 0, 1]);
    let d = PgPoint::new([3, 0, 1]);
    let ratio = cross_ratio(&a, &b, &c, &d);
    assert_eq!(ratio, Fraction::<i64>::new(-1, 3));
}

#[test]
fn test_cross_ratio_lines() {
    let l1 = PgPoint::new([1, 0, 1]);
    let l2 = PgPoint::new([0, 1, 1]);
    let l3 = PgPoint::new([1, 1, 1]);
    let l4 = PgPoint::new([2, 1, 1]);
    let ratio = cross_ratio_lines(&l1, &l2, &l3, &l4);
    assert!(*ratio.denom() != 0);
}

#[test]
fn test_projective_transform_line() {
    let identity = diag(1, 1, 1);
    let line = PgPoint::new([1, 2, 3]);
    let transformed = projective_transform_line(&identity, &line);
    assert_eq!(transformed, line);
}

#[test]
fn test_compute_parameter_edge_cases() {
    let a = PgPoint::new([1, 0, 0]);
    let b = PgPoint::new([0, 1, 1]);
    let p = PgPoint::new([1, 1, 1]);
    let param = compute_parameter(&a, &b, &p);
    assert_eq!(param, Fraction::<i64>::new(0, 1));

    let a2 = PgPoint::new([0, 0, 1]);
    let b2 = PgPoint::new([0, 0, 1]);
    let p2 = PgPoint::new([0, 0, 1]);
    let param2 = compute_parameter(&a2, &b2, &p2);
    assert_eq!(param2, Fraction::<i64>::new(0, 1));

    let a3 = PgPoint::new([0, 0, 1]);
    let b3 = PgPoint::new([0, 2, 1]);
    let p3 = PgPoint::new([0, 1, 1]);
    let param3 = compute_parameter(&a3, &b3, &p3);
    assert_eq!(param3, Fraction::<i64>::new(1, 2));
}

#[test]
fn test_projective_transform_identity() {
    let identity = diag(1, 1, 1);
    let point = PgPoint::new([1, 2, 1]);
    let transformed = projective_transform_point(&identity, &point);
    assert_eq!(transformed, point);
}

#[test]
fn test_compute_projective_transform() {
    let src = [
        PgPoint::new([0, 0, 1]),
        PgPoint::new([1, 0, 1]),
        PgPoint::new([0, 1, 1]),
        PgPoint::new([1, 1, 1]),
    ];
    let dst = [
        PgPoint::new([0, 0, 1]),
        PgPoint::new([2, 0, 1]),
        PgPoint::new([0, 2, 1]),
        PgPoint::new([2, 2, 1]),
    ];
    let transform = compute_projective_transform(&src, &dst);
    assert_eq!(transform.len(), 3);
    for row in &transform {
        assert_eq!(row.len(), 3);
    }
}

#[test]
fn test_compute_projective_transform_identity_case() {
    let src = [
        PgPoint::new([0, 0, 1]),
        PgPoint::new([1, 0, 1]),
        PgPoint::new([0, 1, 1]),
        PgPoint::new([1, 1, 1]),
    ];
    let dst = src;
    let transform = compute_projective_transform(&src, &dst);
    assert_eq!(transform, diag(1, 1, 1));
}

#[test]
fn test_projective_transform_point_non_identity() {
    let scale_2 = diag(2, 2, 1);
    let point = PgPoint::new([1, 2, 1]);
    let transformed = projective_transform_point(&scale_2, &point);
    assert_eq!(transformed, PgPoint::new([2, 4, 1]));
}

#[test]
fn test_projective_transform_line_non_identity() {
    let scale_2 = diag(2, 2, 1);
    let line = PgPoint::new([1, 2, 3]);
    let transformed = projective_transform_line(&scale_2, &line);
    assert_eq!(transformed, PgPoint::new([2, 4, 3]));
}

#[test]
fn harmonic_division_is_detected() {
    // on the x-axis: 0 and 2, with the harmonic pair 2/3 and -2
    let a = PgPoint::new([0, 0, 1]);
    let b = PgPoint::new([2, 0, 1]);
    let c = PgPoint::new([2, 0, 3]);
    let d = PgPoint::new([-2, 0, 1]);
    assert!(is_harmonic_division(&a, &b, &c, &d));
    let e = PgPoint::new([3, 0, 1]);
    assert!(!is_harmonic_division(&a, &b, &c, &e));
}
