use transportations_library::topology::{ControlType, Direction, Intersection, NodeType};

#[test]
fn test_intersection_creation() {
    let intersection = Intersection::new(
        "I001".to_string(),
        "N001".to_string(),
        4,
        ControlType::Signal,
        vec!["S1".to_string(), "S2".to_string(), "S3".to_string(), "S4".to_string()],
    );
    assert!(intersection.is_ok());
    let intersection = intersection.unwrap();
    assert!(intersection.is_signalized());
    assert!(intersection.is_four_leg());
}

#[test]
fn test_intersection_invalid_approach_count() {
    let intersection = Intersection::new(
        "I001".to_string(),
        "N001".to_string(),
        7,
        ControlType::Signal,
        vec!["S1".to_string(); 7],
    );
    assert!(intersection.is_err());
}

#[test]
fn test_direction_opendrive() {
    assert_eq!(Direction::Forward.to_opendrive(), "same");
    assert_eq!(Direction::Backward.to_opendrive(), "opposite");
    assert_eq!(Direction::Both.to_opendrive(), "both");
}

#[test]
fn intersection_leg_list_must_match_count() {
    let r = Intersection::new(
        "I002".to_string(),
        "N002".to_string(),
        3,
        ControlType::StopTwoWay,
        vec!["S1".to_string(), "S2".to_string()],
    );
    assert!(r.unwrap_err().contains("doesn't match"));
    let t = Intersection::new(
        "I003".to_string(),
        "N003".to_string(),
        3,
        ControlType::StopAllWay,
        vec!["S1".to_string(), "S2".to_string(), "S3".to_string()],
    )
    .unwrap();
    assert!(t.is_t_intersection());
    assert!(!t.is_four_leg());
    assert!(!t.is_signalized());
    assert_eq!(t.hcm_methodology(), "Chapter 21");
    assert!(Intersection::new("I".to_string(), "N".to_string(), 1, ControlType::Yield, vec!["S".to_string()]).is_err());
}

#[test]
fn node_types_and_connection_counts() {
    assert_eq!(NodeType::Intersection.to_opendrive(), "default");
    assert_eq!(NodeType::Terminus.to_opendrive(), "virtual");
    assert_eq!(NodeType::Merge.to_opendrive(), "direct");
    assert!(NodeType::Intersection.typically_signalized());
    assert!(!NodeType::Merge.typically_signalized());
    assert_eq!(NodeType::Intersection.min_connections(), 3);
    assert_eq!(NodeType::Intersection.max_connections(), 8);
    assert_eq!(NodeType::RampJunction.max_connections(), 3);
    assert!(NodeType::Intersection.check_connection_count(2).is_err());
    assert!(NodeType::Intersection.check_connection_count(4).is_ok());
    assert!(NodeType::Terminus.check_connection_count(1).is_ok());
    assert!(NodeType::Transition.check_connection_count(3).is_err());
}

#[test]
fn direction_lane_split() {
    assert_eq!(Direction::Both.lanes_forward(4), 2);
    assert_eq!(Direction::Both.lanes_backward(4), 2);
    assert_eq!(Direction::Both.lanes_forward(3), 2);
    assert_eq!(Direction::Both.lanes_backward(3), 1);
    assert_eq!(Direction::Forward.lanes_forward(3), 3);
    assert_eq!(Direction::Forward.lanes_backward(3), 0);
    assert!(Direction::Both.allows_forward() && Direction::Both.allows_backward());
    assert!(!Direction::Forward.allows_backward());
    assert!(!Direction::Backward.allows_forward());
}

#[test]
fn control_types() {
    assert_eq!(ControlType::Signal.hcm_chapter(), "Chapter 19");
    assert_eq!(ControlType::Roundabout.hcm_chapter(), "Chapter 22");
    assert_eq!(ControlType::Yield.hcm_chapter(), "Chapter 20");
    assert!(ControlType::StopTwoWay.requires_stop());
    assert!(!ControlType::Signal.requires_stop());
    assert!(ControlType::Signal.has_signal_timing());
}

#[test]
fn refusal_messages_name_the_bound() {
    let low = NodeType::Intersection.check_connection_count(2).unwrap_err();
    assert!(low.contains("below minimum 3"));
    let high = NodeType::Merge.check_connection_count(5).unwrap_err();
    assert!(high.contains("exceeds maximum 4"));
    let legs = Intersection::new("I".to_string(), "N".to_string(), 7, ControlType::Signal, Vec::new())
        .unwrap_err();
    assert!(legs.contains("Approach count 7 outside valid range"));
}
