//! Managed lane segments: segment types and their estimated capacities.
use vstd::prelude::*;

verus! {

/// Managed lane segment types.
#[derive(Debug, Clone, Copy, PartialEq, Eq, Structural)]
pub enum ManagedLaneType {
    /// Skip-stripe or solid single line separated, single lane.
    ContinuousAccess,
    /// Buffer separated, single lane.
    Buffer1,
    /// Buffer separated, multiple lanes.
    Buffer2,
    /// Barrier separated, single lane.
    Barrier1,
    /// Barrier separated, multiple lanes.
    Barrier2,
}

/// Estimated capacity (pc/h/ln) of a managed lane type at a free-flow speed of 75 mi/h.
pub open spec fn capacity_at_75(t: ManagedLaneType) -> int {
    match t {
        ManagedLaneType::ContinuousAccess => 1800,
        ManagedLaneType::Buffer1 => 1700,
        ManagedLaneType::Buffer2 => 1850,
        ManagedLaneType::Barrier1 => 1750,
        ManagedLaneType::Barrier2 => 2100,
    }
}

/// Estimated capacity (pc/h/ln): tabulated for free-flow speeds of 55 to 75
/// mi/h in steps of 5, falling by 50 pc/h/ln for each step below 75.
pub open spec fn estimated_capacity_of(t: ManagedLaneType, ffs: int) -> Option<u32> {
    if 55 <= ffs <= 75 && ffs % 5 == 0 {
        Some((capacity_at_75(t) - 10 * (75 - ffs)) as u32)
    } else {
        None
    }
}

/// Estimated lane capacity (pc/h/ln) of a managed lane segment by type and
/// free-flow speed (mi/h); none off the table.
pub fn get_estimated_capacity(lane_type: ManagedLaneType, ffs: u32) -> (r: Option<u32>)
    ensures
        r == estimated_capacity_of(lane_type, ffs as int),
{
    match (lane_type, ffs) {
        (ManagedLaneType::ContinuousAccess, 75) => Some(1800),
        (ManagedLaneType::ContinuousAccess, 70) => Some(1750),
        (ManagedLaneType::ContinuousAccess, 65) => Some(1700),
        (ManagedLaneType::ContinuousAccess, 60) => Some(1650),
        (ManagedLaneType::ContinuousAccess, 55) => Some(1600),
        (ManagedLaneType::Buffer1, 75) => Some(1700),
        (ManagedLaneType::Buffer1, 70) => Some(1650),
        (ManagedLaneType::Buffer1, 65) => Some(1600),
        (ManagedLaneType::Buffer1, 60) => Some(1550),
        (ManagedLaneType::Buffer1, 55) => Some(1500),
        (ManagedLaneType::Buffer2, 75) => Some(1850),
        (ManagedLaneType::Buffer2, 70) => Some(1800),
        (ManagedLaneType::Buffer2, 65) => Some(1750),
        (ManagedLaneType::Buffer2, 60) => Some(1700),
        (ManagedLaneType::Buffer2, 55) => Some(1650),
        (ManagedLaneType::Barrier1, 75) => Some(1750),
        (ManagedLaneType::Barrier1, 70) => Some(1700),
        (ManagedLaneType::Barrier1, 65) => Some(1650),
        (ManagedLaneType::Barrier1, 60) => Some(1600),
        (ManagedLaneType::Barrier1, 55) => Some(1550),
        (ManagedLaneType::Barrier2, 75) => Some(2100),
        (ManagedLaneType::Barrier2, 70) => Some(2050),
        (ManagedLaneType::Barrier2, 65) => Some(2000),
        (ManagedLaneType::Barrier2, 60) => Some(1950),
        (ManagedLaneType::Barrier2, 55) => Some(1900),
        _ => None,
    }
}

} // verus!
