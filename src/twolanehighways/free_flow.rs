//! Free-flow speed, computed exactly.
use vstd::prelude::*;

use super::{DerivedMeasure, InputField, TwoLaneError};

verus! {

/// What the free-flow speed of a segment depends on.
#[derive(Debug, Clone, Copy, PartialEq, Eq, Structural)]
pub struct FreeFlowInputs {
    /// Posted speed limit, mi/h.
    pub spl: u32,
    pub vertical_class: i32,
    /// Segment length, ft.
    pub length_ft: u32,
    /// Opposing flow rate, veh/h.
    pub flow_o: u32,
    /// Lane width, hundredths of a foot.
    pub lane_width: u32,
    /// Shoulder width, hundredths of a foot.
    pub shoulder_width: u32,
    /// Access point density, hundredths of a point per mile.
    pub apd: u32,
    /// Heavy vehicles, hundredths of a percent.
    pub phv: u32,
}

/// Heavy-vehicle coefficients `a0` to `a5` of a vertical class, in units of
/// 0.00001; all zero on level terrain.
pub open spec fn ffs_coefficients(vc: int) -> Option<(int, int, int, int, int, int)> {
    if vc == 1 {
        Some((0, 0, 0, 0, 0, 0))
    } else if vc == 2 {
        Some((-45036, 814, 1543, 1358, 0, 0))
    } else if vc == 3 {
        Some((-29591, 743, 0, 1246, 0, 0))
    } else if vc == 4 {
        Some((-40902, 975, 767, -18363, 423, 0))
    } else if vc == 5 {
        Some((-38360, 1074, 1945, -69848, 1069, 12700))
    } else {
        None
    }
}

/// Denominator of the exact free-flow speed arithmetic: 0.00001 (the
/// coefficients) times 1/1000 (flow in thousands) times 1/5280 (feet to
/// miles) times 1/100 (the factor 1.14), as one integer.
pub const FFS_DENOM: i128 = 52_800_000_000_000;

/// The floor 0.0333 of the heavy-vehicle slope, over `FFS_DENOM`.
pub const SLOPE_FLOOR: i128 = 1_758_240_000_000;

/// `a0 + a1 * BFFS + a2 * L` (or with `a3..a5`), over `FFS_DENOM / 1000`,
/// where `BFFS = 1.14 * spl` and `L` is the length in miles.
pub open spec fn slope_terms(c0: int, c1: int, c2: int, spl: int, len: int) -> int {
    c0 * 528000 + c1 * 114 * spl * 5280 + c2 * len * 100
}

/// Heavy-vehicle slope `a = max(0.0333, a0 + a1*BFFS + a2*L + max(0, a3 +
/// a4*BFFS + a5*L) * vo/1000)`, over `FFS_DENOM`.
pub open spec fn heavy_vehicle_slope(
    c: (int, int, int, int, int, int),
    spl: int,
    len: int,
    vo: int,
) -> int {
    let inner = slope_terms(c.3, c.4, c.5, spl, len);
    let raw = slope_terms(c.0, c.1, c.2, spl, len) * 1000 + (if inner > 0 {
        inner
    } else {
        0
    }) * vo;
    if raw > SLOPE_FLOOR {
        raw
    } else {
        SLOPE_FLOOR as int
    }
}

/// Free-flow speed `1.14*spl - a*HV - f_LS - f_A` in hundredths of mi/h,
/// over `FFS_DENOM`, where `f_LS = 0.6*(12 - LW) + 0.7*(6 - SW)` and
/// `f_A = min(APD/4, 10)`.
pub open spec fn free_flow_speed_num(x: FreeFlowInputs, c: (int, int, int, int, int, int)) -> int {
    let a = heavy_vehicle_slope(c, x.spl as int, x.length_ft as int, x.flow_o as int);
    let f_ls = 60 * (1200 - x.lane_width) + 70 * (600 - x.shoulder_width);
    let f_a = if x.apd < 4000 {
        x.apd as int
    } else {
        4000
    };
    114 * x.spl * FFS_DENOM - a * x.phv - f_ls * (FFS_DENOM / 100) - f_a * (FFS_DENOM / 4)
}

/// Free-flow speed in hundredths of mi/h, rounded to the nearest, halves up;
/// a vertical class outside 1 to 5 is refused, and so are inputs that leave
/// no positive speed.
pub open spec fn free_flow_speed_of(x: FreeFlowInputs) -> Result<u64, TwoLaneError> {
    match ffs_coefficients(x.vertical_class as int) {
        None => Err(TwoLaneError::UnsupportedCombination(InputField::VerticalClass)),
        Some(c) => {
            let num = free_flow_speed_num(x, c);
            if num <= 0 {
                Err(TwoLaneError::InternalInconsistency(DerivedMeasure::FreeFlowSpeed))
            } else {
                Ok(((2 * num + FFS_DENOM) / (2 * FFS_DENOM)) as u64)
            }
        },
    }
}

proof fn lemma_slope_terms_bound(c0: int, c1: int, c2: int, spl: int, len: int)
    requires
        -100000 <= c0 <= 100000,
        -100000 <= c1 <= 100000,
        -100000 <= c2 <= 100000,
        0 <= spl <= 0xffff_ffff,
        0 <= len <= 0xffff_ffff,
    ensures
        -0x1_0000_0000_0000_0000_0000 <= slope_terms(c0, c1, c2, spl, len)
            <= 0x1_0000_0000_0000_0000_0000,
{
    assert(-100000 * 114 * 0xffff_ffff * 5280 <= c1 * 114 * spl * 5280 <= 100000 * 114
        * 0xffff_ffff * 5280) by (nonlinear_arith)
        requires
            -100000 <= c1 <= 100000,
            0 <= spl <= 0xffff_ffff,
    ;
    assert(-100000 * 0xffff_ffff * 100 <= c2 * len * 100 <= 100000 * 0xffff_ffff * 100) by (
    nonlinear_arith)
        requires
            -100000 <= c2 <= 100000,
            0 <= len <= 0xffff_ffff,
    ;
}

/// Free-flow speed of a segment, hundredths of mi/h, computed exactly from
/// its speed limit, vertical class, length, opposing flow, lane and shoulder
/// widths, access point density and heavy-vehicle share.
pub fn determine_free_flow_speed(x: &FreeFlowInputs) -> (r: Result<u64, TwoLaneError>)
    requires
        x.phv <= 10000,
    ensures
        r == free_flow_speed_of(*x),
{
    let (c0, c1, c2, c3, c4, c5): (i128, i128, i128, i128, i128, i128) = match x.vertical_class {
        1 => (0, 0, 0, 0, 0, 0),
        2 => (-45036, 814, 1543, 1358, 0, 0),
        3 => (-29591, 743, 0, 1246, 0, 0),
        4 => (-40902, 975, 767, -18363, 423, 0),
        5 => (-38360, 1074, 1945, -69848, 1069, 12700),
        _ => {
            return Err(TwoLaneError::UnsupportedCombination(InputField::VerticalClass));
        },
    };
    let ghost c = (c0 as int, c1 as int, c2 as int, c3 as int, c4 as int, c5 as int);
    assert(ffs_coefficients(x.vertical_class as int) == Some(c));
    let spl = x.spl as i128;
    let len = x.length_ft as i128;
    let vo = x.flow_o as i128;
    let hv = x.phv as i128;
    proof {
        lemma_slope_terms_bound(c3 as int, c4 as int, c5 as int, spl as int, len as int);
        lemma_slope_terms_bound(c0 as int, c1 as int, c2 as int, spl as int, len as int);
    }
    let inner = c3 * 528000 + c4 * 114 * spl * 5280 + c5 * len * 100;
    let base = c0 * 528000 + c1 * 114 * spl * 5280 + c2 * len * 100;
    let pos: i128 = if inner > 0 {
        inner
    } else {
        0
    };
    proof {
        assert(0 <= pos * vo <= 0x1_0000_0000_0000_0000_0000 * 0xffff_ffff) by (nonlinear_arith)
            requires
                0 <= pos <= 0x1_0000_0000_0000_0000_0000,
                0 <= vo <= 0xffff_ffff,
        ;
    }
    let raw = base * 1000 + pos * vo;
    let a = if raw > SLOPE_FLOOR {
        raw
    } else {
        SLOPE_FLOOR
    };
    proof {
        assert(0 <= a * hv <= 0x2_0000_0000_0000_0000_0000 * 0xffff_ffff * 10000) by (
        nonlinear_arith)
            requires
                0 <= a <= 0x2_0000_0000_0000_0000_0000 * 0xffff_ffff,
                0 <= hv <= 10000,
        ;
    }
    let f_ls = 60 * (1200 - x.lane_width as i128) + 70 * (600 - x.shoulder_width as i128);
    let f_a: i128 = if x.apd < 4000 {
        x.apd as i128
    } else {
        4000
    };
    let num = 114 * spl * FFS_DENOM - a * hv - f_ls * (FFS_DENOM / 100) - f_a * (FFS_DENOM / 4);
    assert(num == free_flow_speed_num(*x, c));
    if num <= 0 {
        return Err(TwoLaneError::InternalInconsistency(DerivedMeasure::FreeFlowSpeed));
    }
    Ok(((2 * num + FFS_DENOM) / (2 * FFS_DENOM)) as u64)
}

} // verus!
