//! Network topology types that map to road-network interchange concepts:
//! junction types, travel directions, intersection control, intersections.
use vstd::prelude::*;

verus! {

/// Node type of a network junction.
#[derive(Debug, Clone, Copy, PartialEq, Eq, Structural)]
pub enum NodeType {
    /// At-grade intersection with several approach legs.
    Intersection,
    /// Road terminus or dead end.
    Terminus,
    /// Transition point (lane count or facility type change).
    Transition,
    /// Freeway ramp junction.
    RampJunction,
    /// Merge point.
    Merge,
    /// Diverge point.
    Diverge,
}

/// Fewest connections that a node of a type is expected to have.
pub open spec fn min_connections_of(t: NodeType) -> u32 {
    match t {
        NodeType::Terminus => 1,
        NodeType::Intersection => 3,
        _ => 2,
    }
}

/// Most connections that a node of a type is expected to have.
pub open spec fn max_connections_of(t: NodeType) -> u32 {
    match t {
        NodeType::Terminus => 1,
        NodeType::Merge | NodeType::Diverge => 4,
        NodeType::Transition => 2,
        NodeType::RampJunction => 3,
        NodeType::Intersection => 8,
    }
}

impl NodeType {
    /// Junction type name in the interchange format.
    pub fn to_opendrive(&self) -> (r: &'static str)
        ensures
            r@ == (match *self {
                NodeType::Intersection => "default"@,
                NodeType::Terminus | NodeType::Transition => "virtual"@,
                _ => "direct"@,
            }),
    {
        match self {
            NodeType::Intersection => "default",
            NodeType::Terminus => "virtual",
            NodeType::Transition => "virtual",
            NodeType::RampJunction => "direct",
            NodeType::Merge => "direct",
            NodeType::Diverge => "direct",
        }
    }

    /// Whether nodes of this type typically have signal control.
    pub fn typically_signalized(&self) -> (r: bool)
        ensures
            r == (*self == NodeType::Intersection),
    {
        matches!(self, NodeType::Intersection)
    }

    /// Minimum expected connection count.
    pub fn min_connections(&self) -> (r: u32)
        ensures
            r == min_connections_of(*self),
    {
        match self {
            NodeType::Terminus => 1,
            NodeType::Merge | NodeType::Diverge | NodeType::Transition => 2,
            NodeType::RampJunction => 2,
            NodeType::Intersection => 3,
        }
    }

    /// Maximum expected connection count.
    pub fn max_connections(&self) -> (r: u32)
        ensures
            r == max_connections_of(*self),
    {
        match self {
            NodeType::Terminus => 1,
            NodeType::Merge | NodeType::Diverge => 4,
            NodeType::Transition => 2,
            NodeType::RampJunction => 3,
            NodeType::Intersection => 8,
        }
    }

    /// Checks a node's connection count against the range of its type; the
    /// error names the bound that was missed.
    pub fn check_connection_count(&self, connection_count: u32) -> (r: Result<(), String>)
        ensures
            r is Ok <==> min_connections_of(*self) <= connection_count <= max_connections_of(
                *self,
            ),
    {
        if connection_count < self.min_connections() {
            return Err(below_minimum_message(connection_count, self.min_connections()));
        }
        if connection_count > self.max_connections() {
            return Err(above_maximum_message(connection_count, self.max_connections()));
        }
        Ok(())
    }
}

/// Relies on std's `format!`: the message for a connection count under the minimum.
#[verifier::external_body]
fn below_minimum_message(count: u32, min: u32) -> String {
    format!("Connection count {} is below minimum {}", count, min)
}

/// Relies on std's `format!`: the message for a connection count over the maximum.
#[verifier::external_body]
fn above_maximum_message(count: u32, max: u32) -> String {
    format!("Connection count {} exceeds maximum {}", count, max)
}

/// Travel direction of a network segment.
#[derive(Debug, Clone, Copy, PartialEq, Eq, Structural)]
pub enum Direction {
    /// One-way along the reference line.
    Forward,
    /// One-way against the reference line.
    Backward,
    /// Two-way traffic.
    Both,
}

impl Direction {
    /// Direction attribute in the interchange format.
    pub fn to_opendrive(&self) -> (r: &'static str)
        ensures
            r@ == (match *self {
                Direction::Forward => "same"@,
                Direction::Backward => "opposite"@,
                Direction::Both => "both"@,
            }),
    {
        match self {
            Direction::Forward => "same",
            Direction::Backward => "opposite",
            Direction::Both => "both",
        }
    }

    /// Whether the direction allows forward travel.
    pub fn allows_forward(&self) -> (r: bool)
        ensures
            r == (*self == Direction::Forward || *self == Direction::Both),
    {
        matches!(self, Direction::Forward | Direction::Both)
    }

    /// Whether the direction allows backward travel.
    pub fn allows_backward(&self) -> (r: bool)
        ensures
            r == (*self == Direction::Backward || *self == Direction::Both),
    {
        matches!(self, Direction::Backward | Direction::Both)
    }

    /// Lanes in the forward direction out of `lane_count`; on a two-way road
    /// the odd lane goes forward.
    pub fn lanes_forward(&self, lane_count: u32) -> (r: u32)
        ensures
            r == (match *self {
                Direction::Forward => lane_count,
                Direction::Backward => 0,
                Direction::Both => (lane_count / 2 + lane_count % 2) as u32,
            }),
    {
        match self {
            Direction::Forward => lane_count,
            Direction::Backward => 0,
            Direction::Both => lane_count / 2 + lane_count % 2,
        }
    }

    /// Lanes in the backward direction out of `lane_count`.
    pub fn lanes_backward(&self, lane_count: u32) -> (r: u32)
        ensures
            r == (match *self {
                Direction::Forward => 0,
                Direction::Backward => lane_count,
                Direction::Both => lane_count / 2,
            }),
    {
        match self {
            Direction::Forward => 0,
            Direction::Backward => lane_count,
            Direction::Both => lane_count / 2,
        }
    }
}

/// Intersection control type.
#[derive(Debug, Clone, Copy, PartialEq, Eq, Structural)]
pub enum ControlType {
    Uncontrolled,
    StopTwoWay,
    StopAllWay,
    Yield,
    Signal,
    Roundabout,
}

/// The manual chapter that analyses a control type.
pub open spec fn hcm_chapter_of(c: ControlType) -> Seq<char> {
    match c {
        ControlType::Uncontrolled | ControlType::Roundabout => "Chapter 22"@,
        ControlType::StopTwoWay | ControlType::Yield => "Chapter 20"@,
        ControlType::StopAllWay => "Chapter 21"@,
        ControlType::Signal => "Chapter 19"@,
    }
}

impl ControlType {
    /// The manual chapter of this control type's methodology.
    pub fn hcm_chapter(&self) -> (r: &'static str)
        ensures
            r@ == hcm_chapter_of(*self),
    {
        match self {
            ControlType::Uncontrolled => "Chapter 22",
            ControlType::StopTwoWay => "Chapter 20",
            ControlType::StopAllWay => "Chapter 21",
            ControlType::Yield => "Chapter 20",
            ControlType::Signal => "Chapter 19",
            ControlType::Roundabout => "Chapter 22",
        }
    }

    /// Whether this control involves stopping.
    pub fn requires_stop(&self) -> (r: bool)
        ensures
            r == (*self == ControlType::StopTwoWay || *self == ControlType::StopAllWay),
    {
        matches!(self, ControlType::StopTwoWay | ControlType::StopAllWay)
    }

    /// Whether this control has signal timing.
    pub fn has_signal_timing(&self) -> (r: bool)
        ensures
            r == (*self == ControlType::Signal),
    {
        matches!(self, ControlType::Signal)
    }
}

/// An intersection: its legs and its control.
#[derive(Debug, Clone)]
pub struct Intersection {
    pub id: String,
    pub node_id: String,
    pub approach_count: u32,
    pub control_type: ControlType,
    pub approach_segment_ids: Vec<String>,
}

/// Relies on std's `format!`: the message for an approach count outside 2 to 6.
#[verifier::external_body]
fn approach_count_message(count: u32) -> String {
    format!("Approach count {} outside valid range (2-6)", count)
}

/// Relies on std's `format!`: the message for a leg list whose length is not
/// the approach count.
#[verifier::external_body]
fn approach_segments_message(len: usize, count: u32) -> String {
    format!("Approach segment count {} doesn't match approach count {}", len, count)
}

impl Intersection {
    /// Creates an intersection of 2 to 6 legs, one segment id per leg.
    pub fn new(
        id: String,
        node_id: String,
        approach_count: u32,
        control_type: ControlType,
        approach_segment_ids: Vec<String>,
    ) -> (r: Result<Intersection, String>)
        ensures
            r is Ok <==> (2 <= approach_count <= 6 && approach_segment_ids.len()
                == approach_count),
            r matches Ok(i) ==> (i.id == id && i.node_id == node_id && i.approach_count
                == approach_count && i.control_type == control_type && i.approach_segment_ids
                == approach_segment_ids),
    {
        if approach_count < 2 || approach_count > 6 {
            return Err(approach_count_message(approach_count));
        }
        if approach_segment_ids.len() != approach_count as usize {
            return Err(approach_segments_message(approach_segment_ids.len(), approach_count));
        }
        Ok(Intersection { id, node_id, approach_count, control_type, approach_segment_ids })
    }

    /// Whether the intersection is signalized.
    pub fn is_signalized(&self) -> (r: bool)
        ensures
            r == (self.control_type == ControlType::Signal),
    {
        matches!(self.control_type, ControlType::Signal)
    }

    /// The manual chapter of the intersection's methodology.
    pub fn hcm_methodology(&self) -> (r: &'static str)
        ensures
            r@ == hcm_chapter_of(self.control_type),
    {
        self.control_type.hcm_chapter()
    }

    /// Whether this is a four-leg intersection.
    pub fn is_four_leg(&self) -> (r: bool)
        ensures
            r == (self.approach_count == 4),
    {
        self.approach_count == 4
    }

    /// Whether this is a T-intersection (three legs).
    pub fn is_t_intersection(&self) -> (r: bool)
        ensures
            r == (self.approach_count == 3),
    {
        self.approach_count == 3
    }
}

} // verus!
