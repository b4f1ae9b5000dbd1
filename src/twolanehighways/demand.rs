//! Demand flow rates and capacity.
use vstd::prelude::*;

use super::{InputField, PassingType, TwoLaneError};

verus! {

/// Capacity (veh/h) of a passing-lane segment by vertical class and
/// heavy-vehicle share (hundredths of a percent).
pub open spec fn lane_capacity_of(vc: int, hv: int) -> int {
    if hv < 1000 {
        1500
    } else if hv < 1500 {
        if vc <= 3 {
            1400
        } else {
            1300
        }
    } else if hv < 2000 {
        if vc <= 4 {
            1300
        } else {
            1200
        }
    } else if hv < 2500 {
        if vc <= 3 {
            1300
        } else if vc == 4 {
            1200
        } else {
            1100
        }
    } else {
        1100
    }
}

/// Capacity (veh/h) of a segment: 1700 on constrained and zone segments; on a
/// passing lane, a step function of heavy-vehicle share and vertical class,
/// which needs the share and a class from 1 to 5.
pub open spec fn segment_capacity_of(pt: PassingType, vc: i32, phv: Option<u32>) -> Result<
    u32,
    TwoLaneError,
> {
    match pt {
        PassingType::Lane => match phv {
            None => Err(TwoLaneError::MissingRequiredInput(InputField::HeavyVehiclePercent)),
            Some(hv) => if 1 <= vc <= 5 {
                Ok(lane_capacity_of(vc as int, hv as int) as u32)
            } else {
                Err(TwoLaneError::UnsupportedCombination(InputField::VerticalClass))
            },
        },
        _ => Ok(1700u32),
    }
}

/// Capacity of a segment. A passing lane needs the heavy-vehicle share and a
/// vertical class from 1 to 5; the other passing types need neither.
pub fn determine_capacity(passing_type: PassingType, vertical_class: i32, phv: Option<u32>) -> (r:
    Result<u32, TwoLaneError>)
    ensures
        passing_type != PassingType::Lane ==> r == Ok::<u32, TwoLaneError>(1700),
        passing_type == PassingType::Lane ==> match phv {
            None => r == Err::<u32, TwoLaneError>(
                TwoLaneError::MissingRequiredInput(InputField::HeavyVehiclePercent),
            ),
            Some(hv) => if 1 <= vertical_class <= 5 {
                r == Ok::<u32, TwoLaneError>(
                    lane_capacity_of(vertical_class as int, hv as int) as u32,
                )
            } else {
                r == Err::<u32, TwoLaneError>(
                    TwoLaneError::UnsupportedCombination(InputField::VerticalClass),
                )
            },
        },
        r == segment_capacity_of(passing_type, vertical_class, phv),
{
    match passing_type {
        PassingType::Constrained => Ok(1700),
        PassingType::Zone => Ok(1700),
        PassingType::Lane => {
            let hv = match phv {
                Some(hv) => hv,
                None => {
                    return Err(TwoLaneError::MissingRequiredInput(InputField::HeavyVehiclePercent));
                },
            };
            if vertical_class < 1 || vertical_class > 5 {
                return Err(TwoLaneError::UnsupportedCombination(InputField::VerticalClass));
            }
            let vc = vertical_class;
            let c: u32 = if hv < 1000 {
                1500
            } else if hv < 1500 {
                if vc <= 3 {
                    1400
                } else {
                    1300
                }
            } else if hv < 2000 {
                if vc <= 4 {
                    1300
                } else {
                    1200
                }
            } else if hv < 2500 {
                if vc <= 3 {
                    1300
                } else if vc == 4 {
                    1200
                } else {
                    1100
                }
            } else {
                1100
            };
            Ok(c)
        },
    }
}

/// Flow rate (veh/h) of an hourly volume under a peak hour factor (hundredths),
/// `volume / phf` rounded to the nearest vehicle, halves up.
pub open spec fn flow_rate_of(volume: int, phf: int) -> int
    recommends
        phf > 0,
{
    (volume * 200 + phf) / (2 * phf)
}

/// Flow rate of an hourly volume: `volume / phf`, rounded to the nearest
/// vehicle per hour.
pub fn flow_rate(volume: u32, phf: u32) -> (r: u64)
    requires
        phf > 0,
    ensures
        r == flow_rate_of(volume as int, phf as int),
{
    (volume as u64 * 200 + phf as u64) / (2 * phf as u64)
}

/// Whether the demand flow `volume / phf` exceeds a capacity, decided exactly.
pub open spec fn exceeds_capacity(volume: int, phf: int, capacity: int) -> bool {
    volume * 100 > capacity * phf
}

/// Whether the demand flow rate `volume / phf` (phf in hundredths) is above
/// the capacity, compared without rounding.
pub fn demand_exceeds_capacity(volume: u32, phf: u32, capacity: u32) -> (r: bool)
    ensures
        r == exceeds_capacity(volume as int, phf as int, capacity as int),
{
    proof {
        let (c, p) = (capacity as int, phf as int);
        assert(c * p <= 0xffff_ffff * 0xffff_ffff) by (nonlinear_arith)
            requires
                0 <= c <= 0xffff_ffff,
                0 <= p <= 0xffff_ffff,
        ;
    }
    (volume as u64) * 100 > (capacity as u64) * (phf as u64)
}

/// Demand flow rates in the analysis and the opposing direction, and capacity.
#[derive(Debug, Clone, Copy, PartialEq, Eq, Structural)]
pub struct DemandFlow {
    /// Flow rate in the analysis direction, veh/h.
    pub flow_i: u64,
    /// Flow rate in the opposing direction, veh/h.
    pub flow_o: u64,
    /// Capacity, veh/h.
    pub capacity: u32,
}

/// Opposing flow rate (veh/h): the opposing volume's rate on a zone segment,
/// 1500 on a constrained one, none on a passing lane.
pub open spec fn opposing_flow_of(pt: PassingType, volume_op: int, phf: int) -> int {
    match pt {
        PassingType::Zone => flow_rate_of(volume_op, phf),
        PassingType::Constrained => 1500,
        PassingType::Lane => 0,
    }
}

/// Demand flow rates and capacity of a segment. The analysis-direction rate
/// is always `volume / phf`. A zone segment needs the opposing volume; a
/// passing lane needs the heavy-vehicle share and a vertical class from 1 to
/// 5. A peak hour factor of zero is refused.
pub fn determine_demand_flow(
    passing_type: PassingType,
    volume: u32,
    volume_op: Option<u32>,
    phf: u32,
    phv: Option<u32>,
    vertical_class: i32,
) -> (r: Result<DemandFlow, TwoLaneError>)
    ensures
        phf == 0 ==> r == Err::<DemandFlow, TwoLaneError>(
            TwoLaneError::OutOfDomain(InputField::PeakHourFactor),
        ),
        phf > 0 && passing_type == PassingType::Zone && volume_op is None ==> r == Err::<
            DemandFlow,
            TwoLaneError,
        >(TwoLaneError::MissingRequiredInput(InputField::OpposingVolume)),
        phf > 0 && !(passing_type == PassingType::Zone && volume_op is None) ==> match segment_capacity_of(
            passing_type,
            vertical_class,
            phv,
        ) {
            Ok(c) => r == Ok::<DemandFlow, TwoLaneError>(
                DemandFlow {
                    flow_i: flow_rate_of(volume as int, phf as int) as u64,
                    flow_o: opposing_flow_of(
                        passing_type,
                        volume_op.unwrap_or(0) as int,
                        phf as int,
                    ) as u64,
                    capacity: c,
                },
            ),
            Err(e) => r == Err::<DemandFlow, TwoLaneError>(e),
        },
{
    if phf == 0 {
        return Err(TwoLaneError::OutOfDomain(InputField::PeakHourFactor));
    }
    let flow_i = flow_rate(volume, phf);
    let flow_o: u64 = match passing_type {
        PassingType::Zone => match volume_op {
            Some(v) => flow_rate(v, phf),
            None => {
                return Err(TwoLaneError::MissingRequiredInput(InputField::OpposingVolume));
            },
        },
        PassingType::Constrained => 1500,
        PassingType::Lane => 0,
    };
    let capacity = determine_capacity(passing_type, vertical_class, phv);
    match capacity {
        Ok(c) => Ok(DemandFlow { flow_i, flow_o, capacity: c }),
        Err(e) => Err(e),
    }
}

/// Constrained and zone segments have capacity 1700 whatever the other inputs.
pub proof fn lemma_capacity_fixed_off_passing_lanes(pt: PassingType, vc: i32, phv: Option<u32>)
    requires
        pt != PassingType::Lane,
    ensures
        segment_capacity_of(pt, vc, phv) == Ok::<u32, TwoLaneError>(1700),
{
}

/// On a passing lane of a fixed vertical class, capacity never rises as the
/// heavy-vehicle share grows, and it falls from 1500 below 10 % to 1100 at
/// 25 % and above.
pub proof fn lemma_lane_capacity_non_increasing(vc: int, hv1: int, hv2: int)
    requires
        1 <= vc <= 5,
        0 <= hv1 <= hv2,
    ensures
        lane_capacity_of(vc, hv1) >= lane_capacity_of(vc, hv2),
        hv1 < 1000 && hv2 >= 2500 ==> lane_capacity_of(vc, hv1) > lane_capacity_of(vc, hv2),
        1100 <= lane_capacity_of(vc, hv2) <= 1500,
{
}

/// On a passing lane, capacity drops strictly as the heavy-vehicle share
/// crosses 10 %, for every vertical class; across 15 %, 20 % and 25 % it
/// drops strictly except where the table holds a value over two bins
/// (15 % in class 4, 20 % in classes 1 to 3, 25 % in class 5).
pub proof fn lemma_lane_capacity_steps(vc: int, below: int, above: int, cut: int)
    requires
        1 <= vc <= 5,
        cut == 1000 || cut == 1500 || cut == 2000 || cut == 2500,
        cut - 500 <= below < cut,
        cut <= above < cut + 500,
        !(cut == 1500 && vc == 4),
        !(cut == 2000 && vc <= 3),
        !(cut == 2500 && vc == 5),
    ensures
        lane_capacity_of(vc, below) > lane_capacity_of(vc, above),
{
}

} // verus!
