use projgeom::conic::{Conic, ConicType};
use projgeom::fractions::Fraction;
use projgeom::{PgLine, PgPoint};

fn hyperbola_matrix() -> [[Fraction<i64>; 3]; 3] {
    [
        [Fraction::<i64>::new(1, 1), Fraction::<i64>::new(0, 1), Fraction::<i64>::new(0, 1)],
        [Fraction::<i64>::new(0, 1), Fraction::<i64>::new(-1, 1), Fraction::<i64>::new(0, 1)],
        [Fraction::<i64>::new(0, 1), Fraction::<i64>::new(0, 1), Fraction::<i64>::new(-1, 1)],
    ]
}

#[test]
fn test_unit_circle() {
    let circle = Conic::unit_circle();
    let p1 = PgPoint::new([1, 0, 1]);
    let p2 = PgPoint::new([0, 1, 1]);
    let p3 = PgPoint::new([-1, 0, 1]);
    let p4 = PgPoint::new([0, -1, 1]);
    assert!(circle.contains(&p1));
    assert!(circle.contains(&p2));
    assert!(circle.contains(&p3));
    assert!(circle.contains(&p4));
    let p5 = PgPoint::new([2, 0, 1]);
    assert!(!circle.contains(&p5));
}

#[test]
fn test_circle_with_center() {
    let circle = Conic::circle(1, 1, 4);
    let center = PgPoint::new([1, 1, 1]);
    assert!(!circle.contains(&center));
    let p1 = PgPoint::new([3, 1, 1]);
    assert!(circle.contains(&p1));
    let p2 = PgPoint::new([1, 3, 1]);
    assert!(circle.contains(&p2));
}

#[test]
fn test_conic_type() {
    let circle = Conic::unit_circle();
    assert_eq!(circle.conic_type(), ConicType::Ellipse);
    let parabola = Conic::parabola(Fraction::<i64>::new(1, 1));
    assert_eq!(parabola.conic_type(), ConicType::Parabola);
}

#[test]
fn test_polar() {
    let circle = Conic::unit_circle();
    let p = PgPoint::new([1, 0, 1]);
    let polar = circle.polar(&p);
    assert_eq!(polar, PgLine::new([1, 0, -1]));
}

#[test]
fn test_parabola_creation() {
    let parabola = Conic::parabola(Fraction::<i64>::new(1, 1));
    assert_eq!(parabola.conic_type(), ConicType::Parabola);
}

#[test]
fn test_parabola_different_coefficients() {
    let parabola1 = Conic::parabola(Fraction::<i64>::new(1, 1));
    let parabola2 = Conic::parabola(Fraction::<i64>::new(2, 1));
    assert_eq!(parabola1.conic_type(), ConicType::Parabola);
    assert_eq!(parabola2.conic_type(), ConicType::Parabola);
    assert_ne!(parabola1.matrix, parabola2.matrix);
}

#[test]
fn test_tangent() {
    let circle = Conic::unit_circle();
    let p = PgPoint::new([0, 1, 1]);
    let tangent = circle.tangent(&p);
    let polar = circle.polar(&p);
    assert_eq!(tangent, polar);
}

#[test]
fn test_tangent_multiple_points() {
    let circle = Conic::unit_circle();
    let points = vec![
        PgPoint::new([1, 0, 1]),
        PgPoint::new([0, 1, 1]),
        PgPoint::new([-1, 0, 1]),
        PgPoint::new([0, -1, 1]),
    ];
    for p in points {
        let tangent = circle.tangent(&p);
        let polar = circle.polar(&p);
        assert_eq!(tangent, polar);
    }
}

#[test]
fn test_intersect_empty() {
    let circle = Conic::unit_circle();
    let line = PgLine::new([1, 0, 2]);
    let intersections = circle.intersect(&line);
    assert_eq!(intersections.len(), 0);
}

#[test]
fn test_intersect_line_through_center() {
    let circle = Conic::unit_circle();
    let line = PgLine::new([0, 0, 1]);
    let intersections = circle.intersect(&line);
    assert_eq!(intersections.len(), 0);
}

#[test]
fn test_discriminant_ellipse() {
    let circle = Conic::unit_circle();
    let disc = circle.discriminant();
    assert!(disc > Fraction::<i64>::new(0, 1));
}

#[test]
fn test_discriminant_parabola() {
    let parabola = Conic::parabola(Fraction::<i64>::new(1, 1));
    let disc = parabola.discriminant();
    assert_eq!(disc, Fraction::<i64>::new(0, 1));
}

#[test]
fn test_discriminant_hyperbola() {
    let hyperbola = Conic::new(hyperbola_matrix());
    let disc = hyperbola.discriminant();
    assert!(disc < Fraction::<i64>::new(0, 1));
}

#[test]
fn test_pole() {
    let circle = Conic::unit_circle();
    let line = PgLine::new([1, 0, -1]);
    let pole = circle.pole(&line);
    assert!(pole.coord[0] != 0 || pole.coord[1] != 0 || pole.coord[2] != 0);
}

#[test]
fn test_conic_type_all_types() {
    let circle = Conic::unit_circle();
    assert_eq!(circle.conic_type(), ConicType::Ellipse);
    let parabola = Conic::parabola(Fraction::<i64>::new(1, 1));
    assert_eq!(parabola.conic_type(), ConicType::Parabola);
    let hyperbola = Conic::new(hyperbola_matrix());
    assert_eq!(hyperbola.conic_type(), ConicType::Hyperbola);
}

#[test]
fn circle_entries_are_exact() {
    let circle = Conic::circle(2, -3, 5);
    assert_eq!(circle.matrix[0][2], Fraction::<i64>::new(-2, 1));
    assert_eq!(circle.matrix[2][1], Fraction::<i64>::new(3, 1));
    assert_eq!(circle.matrix[2][2], Fraction::<i64>::new(8, 1));
    assert_eq!(circle.discriminant(), Fraction::<i64>::new(1, 1));
}
