use projgeom::error::{checked_add, checked_div, checked_mul, checked_sub, validate_coords, GeometryError};

#[test]
fn test_checked_add_success() {
    let result = checked_add(5, 3, "test");
    assert_eq!(result, Ok(8));
}

#[test]
fn test_checked_add_overflow() {
    let result = checked_add(i64::MAX, 1, "test");
    assert!(matches!(result, Err(GeometryError::Overflow(_))));
}

#[test]
fn test_checked_div_by_zero() {
    let result = checked_div(5, 0, "test");
    assert_eq!(result, Err(GeometryError::DivisionByZero));
}

#[test]
fn test_validate_coords_valid() {
    let result = validate_coords(&[1, 2, 3]);
    assert_eq!(result, Ok(()));
}

#[test]
fn test_validate_coords_invalid() {
    let result = validate_coords(&[0, 0, 0]);
    assert_eq!(result, Err(GeometryError::InvalidCoordinates));
}

#[test]
fn test_checked_sub_success() {
    let result = checked_sub(5, 3, "test");
    assert_eq!(result, Ok(2));
}

#[test]
fn test_checked_sub_overflow() {
    let result = checked_sub(i64::MIN, 1, "test");
    assert!(matches!(result, Err(GeometryError::Overflow(_))));
}

#[test]
fn test_checked_mul_success() {
    let result = checked_mul(5, 3, "test");
    assert_eq!(result, Ok(15));
}

#[test]
fn test_checked_mul_overflow() {
    let result = checked_mul(i64::MAX, 2, "test");
    assert!(matches!(result, Err(GeometryError::Overflow(_))));
}

#[test]
fn test_error_display_overflow() {
    let error = GeometryError::Overflow("test overflow".to_string());
    let display = error.message();
    assert!(display.contains("overflow"));
    assert!(display.contains("test overflow"));
}

#[test]
fn test_error_display_division_by_zero() {
    let error = GeometryError::DivisionByZero;
    let display = error.message();
    assert!(display.contains("Division by zero"));
}

#[test]
fn test_error_display_invalid_coordinates() {
    let error = GeometryError::InvalidCoordinates;
    let display = error.message();
    assert!(display.contains("Invalid homogeneous coordinates"));
}

#[test]
fn test_error_display_point_at_infinity() {
    let error = GeometryError::PointAtInfinity;
    let display = error.message();
    assert!(display.contains("Point is at infinity"));
}

#[test]
fn test_error_display_coincident_points() {
    let error = GeometryError::CoincidentPoints;
    let display = error.message();
    assert!(display.contains("Points are coincident"));
}

#[test]
fn test_error_display_coincident_lines() {
    let error = GeometryError::CoincidentLines;
    let display = error.message();
    assert!(display.contains("Lines are coincident"));
}

#[test]
fn test_error_display_not_collinear() {
    let error = GeometryError::NotCollinear;
    let display = error.message();
    assert!(display.contains("Points are not collinear"));
}

#[test]
fn test_error_display_invalid_triangle() {
    let error = GeometryError::InvalidTriangle;
    let display = error.message();
    assert!(display.contains("Invalid triangle"));
}

#[test]
fn checked_div_truncates_toward_zero() {
    assert_eq!(checked_div(-7, 2, "t"), Ok(-3));
    assert_eq!(checked_div(7, -2, "t"), Ok(-3));
    assert_eq!(checked_div(-7, -2, "t"), Ok(3));
    assert_eq!(checked_div(i64::MIN, 1, "t"), Ok(i64::MIN));
}

#[test]
fn checked_div_overflow_on_min_over_minus_one() {
    let result = checked_div(i64::MIN, -1, "t");
    assert!(matches!(result, Err(GeometryError::Overflow(_))));
}

#[test]
fn overflow_message_names_context_and_operands() {
    match checked_add(i64::MAX, 1, "ctx") {
        Err(GeometryError::Overflow(msg)) => {
            assert!(msg.contains("ctx"));
            assert!(msg.contains("+"));
        }
        other => panic!("unexpected {:?}", other),
    }
}
