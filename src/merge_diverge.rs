//! Freeway merge and diverge segments: ramp configuration types.
use vstd::prelude::*;

verus! {

/// Type of ramp junction.
#[derive(Debug, Clone, Copy, PartialEq, Eq, Structural)]
pub enum RampType {
    /// On-ramp (merge area).
    OnRamp,
    /// Off-ramp (diverge area).
    OffRamp,
    /// Two facilities joining.
    MajorMerge,
    /// A facility splitting in two.
    MajorDiverge,
}

/// Side of the freeway where the ramp lies.
#[derive(Debug, Clone, Copy, PartialEq, Eq, Structural)]
pub enum RampSide {
    Right,
    Left,
}

/// Number of lanes on the ramp.
#[derive(Debug, Clone, Copy, PartialEq, Eq, Structural)]
pub enum RampLanes {
    OneLane,
    TwoLane,
}

/// Adjacent ramp configuration.
#[derive(Debug, Clone, Copy, PartialEq, Eq, Structural)]
pub enum AdjacentRampType {
    /// No adjacent ramp.
    NoRamp,
    OnRamp,
    OffRamp,
}

/// Terrain type for the heavy-vehicle adjustment.
#[derive(Debug, Clone, Copy, PartialEq, Eq, Structural)]
pub enum TerrainType {
    Level,
    Rolling,
    Mountainous,
}

} // verus!
