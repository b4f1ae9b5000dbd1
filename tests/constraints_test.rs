use transportations_library::constraints::{
    grade_constraint, horizontal_class_constraint, lane_width_constraint, passing_type_constraint,
    validate_two_lane_highway, vertical_class_constraint,
};

// Numeric values are in hundredths of their unit.

#[test]
fn test_lane_width_constraint() {
    let c = &lane_width_constraint();
    assert!(c.is_valid(900));
    assert!(c.is_valid(1200));
    assert!(c.is_valid(1050));
    assert!(!c.is_valid(800));
    assert!(!c.is_valid(1300));
}

#[test]
fn test_validate_function() {
    // Valid input
    let errors = validate_two_lane_highway(
        Some(1100),
        Some(600),
        Some(0),
        Some(3),
        Some(200),
        Some(95),
        Some(500),
        Some(5000),
    );
    assert!(errors.is_empty());

    // Invalid lane width
    let errors = validate_two_lane_highway(Some(800), None, None, None, None, None, None, None);
    assert_eq!(errors.len(), 1);
    assert!(errors[0].contains("lane_width"));
}

#[test]
fn validate_reports_each_broken_input() {
    let errors = validate_two_lane_highway(
        Some(1300),
        Some(900),
        Some(3),
        Some(6),
        Some(-1050),
        Some(40),
        Some(10001),
        Some(1400),
    );
    assert_eq!(errors.len(), 8);
    assert!(errors[4].contains("grade = -10.50 % is outside valid range [-10.00, 10.00]"));
    let none = validate_two_lane_highway(None, None, None, None, None, None, None, None);
    assert!(none.is_empty());
}

#[test]
fn range_messages_write_decimals() {
    let g = grade_constraint();
    assert_eq!(g.validate(-1000), None);
    let msg = g.validate(1005).unwrap();
    assert!(msg.contains("10.05"));
    assert!(msg.contains("AASHTO"));
}

#[test]
fn test_passing_type_constraint() {
    let c = &passing_type_constraint();
    assert!(c.is_valid(0));
    assert!(c.is_valid(1));
    assert!(c.is_valid(2));
    assert!(!c.is_valid(3));
    assert!(!c.is_valid(-1));
}

#[test]
fn horizontal_and_vertical_class_codes() {
    let h = horizontal_class_constraint();
    for code in 0..=5 {
        assert!(h.is_valid(code));
    }
    assert!(!h.is_valid(-1));
    assert!(!h.is_valid(6));
    let v = vertical_class_constraint();
    assert!(!v.is_valid(0));
    for code in 1..=5 {
        assert!(v.is_valid(code));
    }
    assert!(!v.is_valid(6));
}

#[test]
fn validate_names_the_parameter_and_the_codes() {
    let c = passing_type_constraint();
    assert_eq!(c.validate(1), None);
    let msg = c.validate(3).unwrap();
    assert!(msg.contains("passing_type"));
    assert!(msg.contains("[0, 1, 2]"));
    assert!(msg.contains("HCM 7th Edition"));
}
