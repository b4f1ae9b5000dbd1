//! Freeway weaving segments: configuration types.
use vstd::prelude::*;

verus! {

/// Type of weaving segment.
#[derive(Debug, Clone, Copy, PartialEq, Eq, Structural)]
pub enum WeavingType {
    /// Ramps on the same side.
    OneSided,
    /// Ramps on opposite sides.
    TwoSided,
}

/// Configuration of a weaving segment.
#[derive(Debug, Clone, Copy, PartialEq, Eq, Structural)]
pub enum WeavingConfiguration {
    /// One-lane on-ramp followed by a one-lane off-ramp joined by an auxiliary lane.
    RampWeave,
    /// Three or more entry or exit legs with several lanes.
    MajorWeave,
}

/// Facility type for the weaving level-of-service criteria.
#[derive(Debug, Clone, Copy, PartialEq, Eq, Structural)]
pub enum FacilityType {
    /// Freeway weaving segment.
    Freeway,
    /// Multilane highway or collector-distributor road weaving segment.
    MultilaneOrCD,
}

/// Terrain type for the heavy-vehicle adjustment.
#[derive(Debug, Clone, Copy, PartialEq, Eq, Structural)]
pub enum TerrainType {
    Level,
    Rolling,
    Mountainous,
}

} // verus!
