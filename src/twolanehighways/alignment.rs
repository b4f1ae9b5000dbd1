//! Vertical and horizontal alignment classes and admissible segment lengths.
use vstd::prelude::*;

use super::{InputField, PassingType, TwoLaneError};

verus! {

// ---------------------------------------------------------------------------
// Vertical alignment classification
// ---------------------------------------------------------------------------

/// Class 1 to 5 of a grade against four cut points: the first cut that the
/// grade does not exceed gives the class; above all of them the class is 5.
pub open spec fn class_by_cuts(g: int, c1: int, c2: int, c3: int, c4: int) -> int {
    if g <= c1 {
        1
    } else if g <= c2 {
        2
    } else if g <= c3 {
        3
    } else if g <= c4 {
        4
    } else {
        5
    }
}

/// No grade exceeds this cut: a row whose last classes never occur uses it.
pub const NO_CUT: i64 = 0x7fff_ffff_ffff;

/// Vertical class of an upgrade (`g` >= 0, hundredths of a percent) by length
/// (ft). The table has no rows of their own for 0.5 to 0.6 mi and 0.7 to 0.8
/// mi; such lengths take the row of lengths over 1.1 mi.
pub open spec fn upgrade_class(g: int, len: int) -> int {
    if len <= 528 {
        class_by_cuts(g, 700, NO_CUT as int, NO_CUT as int, NO_CUT as int)
    } else if len <= 1056 {
        class_by_cuts(g, 400, 700, NO_CUT as int, NO_CUT as int)
    } else if len <= 1584 {
        class_by_cuts(g, 300, 500, 700, 900)
    } else if len <= 2112 {
        class_by_cuts(g, 200, 400, 600, 700)
    } else if len <= 2640 {
        class_by_cuts(g, 200, 400, 500, 600)
    } else if 3168 < len && len <= 3696 {
        class_by_cuts(g, 200, 300, 400, 600)
    } else if 4224 < len && len <= 5808 {
        class_by_cuts(g, 200, 300, 400, 500)
    } else {
        class_by_cuts(g, 200, 300, 300, 500)
    }
}

/// Vertical class of a downgrade of steepness `g` (hundredths of a percent) by length (ft).
pub open spec fn downgrade_class(g: int, len: int) -> int {
    if len <= 528 {
        class_by_cuts(g, 800, NO_CUT as int, NO_CUT as int, NO_CUT as int)
    } else if len <= 1056 {
        class_by_cuts(g, 500, 800, NO_CUT as int, NO_CUT as int)
    } else if len <= 1584 {
        class_by_cuts(g, 400, 600, 800, 900)
    } else if len <= 2112 {
        class_by_cuts(g, 200, 500, 600, 800)
    } else if len <= 2640 {
        class_by_cuts(g, 300, 400, 600, 700)
    } else if len <= 3696 {
        class_by_cuts(g, 300, 400, 500, 600)
    } else if len <= 4224 {
        class_by_cuts(g, 300, 300, 400, 600)
    } else if len <= 4752 {
        class_by_cuts(g, 300, 300, 400, 500)
    } else if len <= 5808 {
        class_by_cuts(g, 200, 300, 400, 500)
    } else {
        class_by_cuts(g, 200, 300, 300, 500)
    }
}

/// Vertical alignment class of a segment by grade (hundredths of a percent,
/// negative downhill) and length (ft).
pub open spec fn vertical_class_of(grade: int, len: int) -> int {
    if grade >= 0 {
        upgrade_class(grade, len)
    } else {
        downgrade_class(-grade, len)
    }
}

fn classify_by_cuts(g: i64, c1: i64, c2: i64, c3: i64, c4: i64) -> (r: i32)
    ensures
        r == class_by_cuts(g as int, c1 as int, c2 as int, c3 as int, c4 as int),
{
    if g <= c1 {
        1
    } else if g <= c2 {
        2
    } else if g <= c3 {
        3
    } else if g <= c4 {
        4
    } else {
        5
    }
}

/// Vertical alignment class, 1 to 5, of a segment from its grade (hundredths
/// of a percent, negative downhill) and its length (ft). Upgrades and
/// downgrades have separate thresholds; grades beyond the last bin take the
/// steepest class of their length bin.
pub fn determine_vertical_alignment(grade: i32, length_ft: u32) -> (r: i32)
    ensures
        r == vertical_class_of(grade as int, length_ft as int),
        1 <= r <= 5,
{
    let len = length_ft;
    if grade >= 0 {
        let g = grade as i64;
        if len <= 528 {
            classify_by_cuts(g, 700, NO_CUT, NO_CUT, NO_CUT)
        } else if len <= 1056 {
            classify_by_cuts(g, 400, 700, NO_CUT, NO_CUT)
        } else if len <= 1584 {
            classify_by_cuts(g, 300, 500, 700, 900)
        } else if len <= 2112 {
            classify_by_cuts(g, 200, 400, 600, 700)
        } else if len <= 2640 {
            classify_by_cuts(g, 200, 400, 500, 600)
        } else if 3168 < len && len <= 3696 {
            classify_by_cuts(g, 200, 300, 400, 600)
        } else if 4224 < len && len <= 5808 {
            classify_by_cuts(g, 200, 300, 400, 500)
        } else {
            classify_by_cuts(g, 200, 300, 300, 500)
        }
    } else {
        let g = -(grade as i64);
        if len <= 528 {
            classify_by_cuts(g, 800, NO_CUT, NO_CUT, NO_CUT)
        } else if len <= 1056 {
            classify_by_cuts(g, 500, 800, NO_CUT, NO_CUT)
        } else if len <= 1584 {
            classify_by_cuts(g, 400, 600, 800, 900)
        } else if len <= 2112 {
            classify_by_cuts(g, 200, 500, 600, 800)
        } else if len <= 2640 {
            classify_by_cuts(g, 300, 400, 600, 700)
        } else if len <= 3696 {
            classify_by_cuts(g, 300, 400, 500, 600)
        } else if len <= 4224 {
            classify_by_cuts(g, 300, 300, 400, 600)
        } else if len <= 4752 {
            classify_by_cuts(g, 300, 300, 400, 500)
        } else if len <= 5808 {
            classify_by_cuts(g, 200, 300, 400, 500)
        } else {
            classify_by_cuts(g, 200, 300, 300, 500)
        }
    }
}

// ---------------------------------------------------------------------------
// Admissible segment lengths
// ---------------------------------------------------------------------------

/// Admissible segment length range (ft) of the speed and follower models,
/// by vertical class and passing type; none for a class outside 1 to 5.
pub open spec fn length_range_of(vc: int, pt: PassingType) -> Option<(u32, u32)> {
    if vc == 1 || vc == 2 {
        match pt {
            PassingType::Constrained => Some((1320u32, 15840u32)),
            PassingType::Zone => Some((1320u32, 10560u32)),
            PassingType::Lane => Some((2640u32, 15840u32)),
        }
    } else if vc == 3 {
        match pt {
            PassingType::Constrained => Some((1320u32, 5808u32)),
            PassingType::Zone => Some((1320u32, 5808u32)),
            PassingType::Lane => Some((2640u32, 5808u32)),
        }
    } else if vc == 4 || vc == 5 {
        match pt {
            PassingType::Constrained => Some((2640u32, 15840u32)),
            PassingType::Zone => Some((2640u32, 10560u32)),
            PassingType::Lane => Some((2640u32, 15840u32)),
        }
    } else {
        None
    }
}

/// Admissible length range `(min, max)` in feet for a vertical class and a
/// passing type.
pub fn identify_vertical_class(vertical_class: i32, passing_type: PassingType) -> (r: Result<
    (u32, u32),
    TwoLaneError,
>)
    ensures
        match length_range_of(vertical_class as int, passing_type) {
            Some(range) => r == Ok::<(u32, u32), TwoLaneError>(range),
            None => r == Err::<(u32, u32), TwoLaneError>(
                TwoLaneError::UnsupportedCombination(InputField::VerticalClass),
            ),
        },
{
    let vc = vertical_class;
    if vc == 1 || vc == 2 {
        match passing_type {
            PassingType::Constrained => Ok((1320, 15840)),
            PassingType::Zone => Ok((1320, 10560)),
            PassingType::Lane => Ok((2640, 15840)),
        }
    } else if vc == 3 {
        match passing_type {
            PassingType::Constrained => Ok((1320, 5808)),
            PassingType::Zone => Ok((1320, 5808)),
            PassingType::Lane => Ok((2640, 5808)),
        }
    } else if vc == 4 || vc == 5 {
        match passing_type {
            PassingType::Constrained => Ok((2640, 15840)),
            PassingType::Zone => Ok((2640, 10560)),
            PassingType::Lane => Ok((2640, 15840)),
        }
    } else {
        Err(TwoLaneError::UnsupportedCombination(InputField::VerticalClass))
    }
}

/// A segment's vertical class together with the admissible length range of
/// that class.
#[derive(Debug, Clone, Copy, PartialEq, Eq, Structural)]
pub struct VerticalClassification {
    pub vertical_class: i32,
    pub min_length_ft: u32,
    pub max_length_ft: u32,
    /// Whether the segment's own length lies in the range.
    pub length_in_range: bool,
}

/// Classifies a segment by grade and length, then looks up the admissible
/// length range of the class found. The range always belongs to the class
/// that is returned, so a class assigned earlier never leaves a stale range.
pub fn classify_segment(grade: i32, length_ft: u32, passing_type: PassingType) -> (r:
    VerticalClassification)
    ensures
        r.vertical_class == vertical_class_of(grade as int, length_ft as int),
        length_range_of(r.vertical_class as int, passing_type) == Some(
            (r.min_length_ft, r.max_length_ft),
        ),
        r.length_in_range == (r.min_length_ft <= length_ft && length_ft <= r.max_length_ft),
{
    let vc = determine_vertical_alignment(grade, length_ft);
    let range = identify_vertical_class(vc, passing_type);
    match range {
        Ok((lo, hi)) => VerticalClassification {
            vertical_class: vc,
            min_length_ft: lo,
            max_length_ft: hi,
            length_in_range: lo <= length_ft && length_ft <= hi,
        },
        Err(_) => {
            // a class from the table is always in 1..=5
            proof {
                assert(false);
            }
            VerticalClassification {
                vertical_class: vc,
                min_length_ft: 0,
                max_length_ft: 0,
                length_in_range: false,
            }
        },
    }
}

// ---------------------------------------------------------------------------
// Horizontal alignment classification
// ---------------------------------------------------------------------------

/// Horizontal class, 0 to 5, of a curve by design radius (ft, 0 for a
/// tangent) and superelevation (hundredths of a percent); near a threshold
/// the superelevation decides between two adjacent classes.
pub open spec fn horizontal_class_of(rad: int, se: int) -> int {
    if rad == 0 {
        0
    } else if rad < 300 {
        5
    } else if rad < 450 {
        4
    } else if rad < 600 {
        if se < 100 { 4 } else { 3 }
    } else if rad < 750 {
        if se < 600 { 3 } else { 2 }
    } else if rad < 900 {
        2
    } else if rad < 1050 {
        if se < 800 { 2 } else { 1 }
    } else if rad < 1200 {
        if se < 400 { 2 } else { 1 }
    } else if rad < 1350 {
        if se < 200 { 2 } else { 1 }
    } else if rad < 1500 {
        1
    } else if rad < 1750 {
        if se < 800 { 1 } else { 0 }
    } else if rad < 1800 {
        if se < 600 { 1 } else { 0 }
    } else if rad < 1950 {
        if se < 500 { 1 } else { 0 }
    } else if rad < 2100 {
        if se < 400 { 1 } else { 0 }
    } else if rad < 2250 {
        if se < 300 { 1 } else { 0 }
    } else if rad < 2400 {
        if se < 200 { 1 } else { 0 }
    } else if rad < 2550 {
        if se < 100 { 1 } else { 0 }
    } else {
        0
    }
}

/// Horizontal class of a curve sub-segment from its design radius (ft, 0 for a
/// tangent) and superelevation (hundredths of a percent).
pub fn determine_horizontal_class(design_rad: u32, sup_ele: i32) -> (r: i32)
    ensures
        r == horizontal_class_of(design_rad as int, sup_ele as int),
        0 <= r <= 5,
{
    let rad = design_rad;
    let se = sup_ele;
    if rad == 0 {
        0
    } else if rad < 300 {
        5
    } else if rad < 450 {
        4
    } else if rad < 600 {
        if se < 100 { 4 } else { 3 }
    } else if rad < 750 {
        if se < 600 { 3 } else { 2 }
    } else if rad < 900 {
        2
    } else if rad < 1050 {
        if se < 800 { 2 } else { 1 }
    } else if rad < 1200 {
        if se < 400 { 2 } else { 1 }
    } else if rad < 1350 {
        if se < 200 { 2 } else { 1 }
    } else if rad < 1500 {
        1
    } else if rad < 1750 {
        if se < 800 { 1 } else { 0 }
    } else if rad < 1800 {
        if se < 600 { 1 } else { 0 }
    } else if rad < 1950 {
        if se < 500 { 1 } else { 0 }
    } else if rad < 2100 {
        if se < 400 { 1 } else { 0 }
    } else if rad < 2250 {
        if se < 300 { 1 } else { 0 }
    } else if rad < 2400 {
        if se < 200 { 1 } else { 0 }
    } else if rad < 2550 {
        if se < 100 { 1 } else { 0 }
    } else {
        0
    }
}

} // verus!
