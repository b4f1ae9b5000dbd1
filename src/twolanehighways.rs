//! Two-lane highway segments and facilities: the stages of the segment
//! pipeline, in exact integer arithmetic.
//!
//! Quantities are held as integers in fixed units:
//! - lengths and radii in feet;
//! - grades, superelevations and heavy-vehicle shares in hundredths of a
//!   percent (`250` is 2.5 %);
//! - peak hour factors in hundredths (`94` is 0.94);
//! - volumes and flow rates in veh/h;
//! - speeds in hundredths of a mile per hour (`5370` is 53.7 mi/h);
//! - percent followers in hundredths of a percent (`6770` is 67.7 %);
//! - follower densities in ten-thousandths of a follower per mile per lane
//!   (`20001` is 2.0001 followers/mi/ln).
use vstd::prelude::*;

pub mod alignment;
pub mod demand;
pub mod free_flow;
pub mod level_of_service;
pub mod facility;
pub mod downstream;
pub mod speed;
pub mod passing_lane;

pub use alignment::{
    NO_CUT, VerticalClassification, classify_segment, determine_horizontal_class,
    determine_vertical_alignment, identify_vertical_class,
};
pub use demand::{
    DemandFlow, demand_exceeds_capacity, determine_capacity, determine_demand_flow, flow_rate,
};
pub use free_flow::{FFS_DENOM, FreeFlowInputs, SLOPE_FLOOR, determine_free_flow_speed};
pub use level_of_service::{determine_segment_los};
pub use facility::{SegmentMeasure, determine_facility_los, facility_follower_density};
pub use downstream::{
    DownstreamCarry, FacilitySegment, adjusted_follower_density, downstream_adjustment,
    downstream_carries, effective_distance,
};
pub use speed::{
    CurveSlice, SubSegmentSpeed, follower_density, length_weighted_speed, percent_followers,
    segment_average_speed, slice_speed, tangent_speed,
};
pub use passing_lane::{
    LaneSplit, heavy_vehicle_count, midpoint_follower_density, midpoint_speeds, speed_differential,
    split_passing_lane,
};

verus! {

/// Passing type of a two-lane highway segment.
#[derive(Debug, Clone, Copy, PartialEq, Eq, Structural)]
pub enum PassingType {
    /// Passing constrained (code 0).
    Constrained,
    /// Passing zone (code 1).
    Zone,
    /// Passing lane (code 2).
    Lane,
}

/// The passing type that an input code names.
pub open spec fn passing_type_of_code(code: i32) -> Option<PassingType> {
    if code == 0 {
        Some(PassingType::Constrained)
    } else if code == 1 {
        Some(PassingType::Zone)
    } else if code == 2 {
        Some(PassingType::Lane)
    } else {
        None
    }
}

impl PassingType {
    /// Reads the passing-type code of an input record: 0, 1 or 2.
    pub fn from_code(code: i32) -> (r: Option<PassingType>)
        ensures
            r == passing_type_of_code(code),
    {
        match code {
            0 => Some(PassingType::Constrained),
            1 => Some(PassingType::Zone),
            2 => Some(PassingType::Lane),
            _ => None,
        }
    }

    /// The input code of this passing type.
    pub fn code(&self) -> (r: i32)
        ensures
            passing_type_of_code(r) == Some(*self),
    {
        match self {
            PassingType::Constrained => 0,
            PassingType::Zone => 1,
            PassingType::Lane => 2,
        }
    }
}

/// An input field of a segment.
#[derive(Debug, Clone, Copy, PartialEq, Eq, Structural)]
pub enum InputField {
    PassingType,
    OpposingVolume,
    HeavyVehiclePercent,
    PeakHourFactor,
    VerticalClass,
}

/// A measure that the pipeline derives for a segment.
#[derive(Debug, Clone, Copy, PartialEq, Eq, Structural)]
pub enum DerivedMeasure {
    FreeFlowSpeed,
    HeavyVehicleSplit,
    AverageSpeed,
    PercentFollowers,
    FollowerDensity,
}

/// Why a segment could not be analysed.
#[derive(Debug, Clone, Copy, PartialEq, Eq, Structural)]
pub enum TwoLaneError {
    /// A field that the active formula path needs is absent.
    MissingRequiredInput(InputField),
    /// The value of a field falls outside the tabulated lookup domain.
    UnsupportedCombination(InputField),
    /// The value of a field lies outside its admissible range.
    OutOfDomain(InputField),
    /// A derived measure broke an invariant of the models: a coefficient
    /// table or a model evaluation is wrong.
    InternalInconsistency(DerivedMeasure),
}

/// Scaling a bound by a count of at most `u32::MAX` items.
pub(crate) proof fn lemma_scaled_bound(i: int, k: int)
    requires
        0 <= i <= 0xffff_ffff,
        0 <= k,
    ensures
        i * k <= 0xffff_ffff * k,
{
    assert(i * k <= 0xffff_ffff * k) by (nonlinear_arith)
        requires
            0 <= i <= 0xffff_ffff,
            0 <= k,
    ;
}

} // verus!
