use projgeom::fractions::Fraction;
use projgeom::predicates::{
    angle_cosine, distance, is_at_infinity, is_line_at_infinity, line_position,
    normalize_homogeneous, orientation, point_in_triangle, squared_distance, to_affine, triangle_area, LinePosition, Orientation,
};
use projgeom::{PgLine, PgPoint};

#[test]
fn test_orientation() {
    let p1 = PgPoint::new([0, 0, 1]);
    let p2 = PgPoint::new([1, 0, 1]);
    let p3 = PgPoint::new([0, 1, 1]);

    assert_eq!(orientation(&p1, &p2, &p3), Orientation::CounterClockwise);

    let p4 = PgPoint::new([0, -1, 1]);
    assert_eq!(orientation(&p1, &p2, &p4), Orientation::Clockwise);

    let p5 = PgPoint::new([2, 0, 1]);
    assert_eq!(orientation(&p1, &p2, &p5), Orientation::Collinear);
}

#[test]
fn test_squared_distance() {
    let p1 = PgPoint::new([0, 0, 1]);
    let p2 = PgPoint::new([3, 4, 1]);
    let dist_sq = squared_distance(&p1, &p2);
    assert_eq!(dist_sq, Fraction::<i64>::new(25, 1));
}

#[test]
fn test_triangle_area() {
    let p1 = PgPoint::new([0, 0, 1]);
    let p2 = PgPoint::new([2, 0, 1]);
    let p3 = PgPoint::new([0, 2, 1]);
    let area = triangle_area(&p1, &p2, &p3);
    assert_eq!(area, Fraction::<i64>::new(2, 1));
}

#[test]
fn test_point_in_triangle() {
    let v1 = PgPoint::new([0, 0, 1]);
    let v2 = PgPoint::new([2, 0, 1]);
    let v3 = PgPoint::new([0, 2, 1]);

    let inside = PgPoint::new([1, 0, 1]);
    assert!(point_in_triangle(&inside, &v1, &v2, &v3));

    let outside = PgPoint::new([2, 2, 1]);
    assert!(!point_in_triangle(&outside, &v1, &v2, &v3));
}

#[test]
fn test_is_at_infinity() {
    let finite = PgPoint::new([1, 2, 1]);
    assert!(!is_at_infinity(&finite));

    let infinite = PgPoint::new([1, 2, 0]);
    assert!(is_at_infinity(&infinite));
}

#[test]
fn test_line_position_on_line() {
    let point = PgPoint::new([1, 1, 1]);
    let line = PgLine::new([1, 1, -2]);
    assert_eq!(line_position(&point, &line), LinePosition::OnLine);
}

#[test]
fn test_line_position_left() {
    let point = PgPoint::new([1, 1, 1]);
    let line = PgLine::new([1, 0, 0]);
    assert_eq!(line_position(&point, &line), LinePosition::Left);
}

#[test]
fn test_line_position_right() {
    let point = PgPoint::new([-1, 1, 1]);
    let line = PgLine::new([1, 0, 0]);
    assert_eq!(line_position(&point, &line), LinePosition::Right);
}

#[test]
fn test_angle_cosine_right_angle() {
    let p1 = PgPoint::new([0, 1, 1]);
    let p2 = PgPoint::new([0, 0, 1]);
    let p3 = PgPoint::new([1, 0, 1]);
    let cos = angle_cosine(&p1, &p2, &p3);
    assert_eq!(cos, Fraction::<i64>::new(0, 1));
}

#[test]
fn test_angle_cosine_zero_angle() {
    let p1 = PgPoint::new([1, 0, 1]);
    let p2 = PgPoint::new([0, 0, 1]);
    let p3 = PgPoint::new([2, 0, 1]);
    let cos = angle_cosine(&p1, &p2, &p3);
    assert!(cos > Fraction::<i64>::new(0, 1));
}

#[test]
fn test_angle_cosine_obtuse() {
    let p1 = PgPoint::new([1, 0, 1]);
    let p2 = PgPoint::new([0, 0, 1]);
    let p3 = PgPoint::new([-1, 0, 1]);
    let cos = angle_cosine(&p1, &p2, &p3);
    assert!(cos < Fraction::<i64>::new(0, 1));
}

#[test]
fn test_distance() {
    let p1 = PgPoint::new([0, 0, 1]);
    let p2 = PgPoint::new([3, 4, 1]);
    let dist = distance(&p1, &p2);
    assert_eq!(dist, Fraction::<i64>::new(25, 1));
}

#[test]
fn test_squared_distance_zero() {
    let p1 = PgPoint::new([1, 1, 1]);
    let p2 = PgPoint::new([1, 1, 1]);
    let dist_sq = squared_distance(&p1, &p2);
    assert_eq!(dist_sq, Fraction::<i64>::new(0, 1));
}

#[test]
fn test_squared_distance_negative_coordinates() {
    let p1 = PgPoint::new([-1, -1, 1]);
    let p2 = PgPoint::new([2, 2, 1]);
    let dist_sq = squared_distance(&p1, &p2);
    assert_eq!(dist_sq, Fraction::<i64>::new(18, 1));
}

#[test]
fn test_triangle_area_negative() {
    let p1 = PgPoint::new([0, 0, 1]);
    let p2 = PgPoint::new([0, 2, 1]);
    let p3 = PgPoint::new([2, 0, 1]);
    let area = triangle_area(&p1, &p2, &p3);
    assert_eq!(area, Fraction::<i64>::new(-2, 1));
}

#[test]
fn test_point_in_triangle_inside() {
    let v1 = PgPoint::new([0, 0, 1]);
    let v2 = PgPoint::new([2, 0, 1]);
    let v3 = PgPoint::new([0, 2, 1]);
    let inside = PgPoint::new([1, 1, 2]);
    assert!(point_in_triangle(&inside, &v1, &v2, &v3));
}

#[test]
fn test_point_in_triangle_vertex() {
    let v1 = PgPoint::new([0, 0, 1]);
    let v2 = PgPoint::new([2, 0, 1]);
    let v3 = PgPoint::new([0, 2, 1]);
    assert!(point_in_triangle(&v1, &v1, &v2, &v3));
}

#[test]
fn test_is_line_at_infinity() {
    let finite = PgLine::new([1, 2, 3]);
    assert!(!is_line_at_infinity(&finite));

    let infinite = PgLine::new([0, 0, 1]);
    assert!(is_line_at_infinity(&infinite));
}

#[test]
fn test_is_line_at_infinity_false() {
    let line = PgLine::new([1, 0, 0]);
    assert!(!is_line_at_infinity(&line));
}

#[test]
fn affine_coordinates_round_toward_zero() {
    assert_eq!(to_affine(&PgPoint::new([-7, 7, 2])), (-3, 3));
    assert_eq!(to_affine(&PgPoint::new([6, -9, 3])), (2, -3));
}

#[test]
fn angle_cosine_has_exact_value() {
    let p1 = PgPoint::new([2, 1, 1]);
    let p2 = PgPoint::new([0, 0, 1]);
    let p3 = PgPoint::new([1, 0, 1]);
    // dot 2, squared lengths 5 and 1
    assert_eq!(angle_cosine(&p1, &p2, &p3), Fraction::<i64>::new(2, 5));
}

#[test]
fn triangle_area_halves_an_odd_turn() {
    let p1 = PgPoint::new([0, 0, 1]);
    let p2 = PgPoint::new([1, 0, 1]);
    let p3 = PgPoint::new([0, 1, 1]);
    let area = triangle_area(&p1, &p2, &p3);
    assert_eq!((area.num, area.den), (1, 2));
}

#[test]
fn test_normalize_homogeneous() {
    let mut coord = [2, 4, 6];
    normalize_homogeneous(&mut coord);
    assert_eq!(coord, [1, 2, 3]);

    let mut coord = [-2, -4, 6];
    normalize_homogeneous(&mut coord);
    assert_eq!(coord, [-1, -2, 3]);

    let mut coord = [0, 0, 1];
    normalize_homogeneous(&mut coord);
    assert_eq!(coord, [0, 0, 1]);
}

#[test]
fn test_normalize_homogeneous_negative_gcd() {
    let mut coord = [-4, -6, -8];
    normalize_homogeneous(&mut coord);
    assert_eq!(coord, [2, 3, 4]);
}

#[test]
fn test_normalize_homogeneous_no_gcd() {
    let mut coord = [5, 7, 11];
    normalize_homogeneous(&mut coord);
    assert_eq!(coord, [5, 7, 11]);
}

#[test]
fn test_normalize_homogeneous_zero_last() {
    let mut coord = [2, 4, 0];
    normalize_homogeneous(&mut coord);
    assert_eq!(coord, [1, 2, 0]);
}

#[test]
fn normalize_homogeneous_fixes_sign_of_middle_and_first() {
    let mut coord = [3, -6, 0];
    normalize_homogeneous(&mut coord);
    assert_eq!(coord, [-1, 2, 0]);
    let mut coord = [-5, 0, 0];
    normalize_homogeneous(&mut coord);
    assert_eq!(coord, [1, 0, 0]);
}
