//! Level of service of a segment from its follower density.
use vstd::prelude::*;

use crate::common::LevelOfService;

verus! {

/// Follower-density cut points (ten-thousandths of a follower/mi/ln) between
/// LOS A|B, B|C, C|D and D|E, by posted speed limit (mi/h).
pub open spec fn los_cuts(spl: int) -> (int, int, int, int) {
    if spl >= 50 {
        (20000, 40000, 80000, 120000)
    } else {
        (25000, 50000, 100000, 150000)
    }
}

/// Level of service of a follower density under the table of a speed limit.
/// A density on a cut point belongs to the better level.
pub open spec fn los_of_follower_density(fd: int, spl: int) -> LevelOfService {
    let (a, b, c, d) = los_cuts(spl);
    if fd <= a {
        LevelOfService::A
    } else if fd <= b {
        LevelOfService::B
    } else if fd <= c {
        LevelOfService::C
    } else if fd <= d {
        LevelOfService::D
    } else {
        LevelOfService::E
    }
}

/// Level of service of a segment: F when demand exceeds capacity, else by
/// follower density.
pub open spec fn segment_los_of(fd: int, spl: int, over_capacity: bool) -> LevelOfService {
    if over_capacity {
        LevelOfService::F
    } else {
        los_of_follower_density(fd, spl)
    }
}

/// Level of service of a segment from its follower density (ten-thousandths
/// of a follower/mi/ln; the midpoint density on a passing lane), the posted
/// speed limit (mi/h), and whether demand exceeds capacity.
pub fn determine_segment_los(follower_density: u64, spl: u32, over_capacity: bool) -> (r:
    LevelOfService)
    ensures
        r == segment_los_of(follower_density as int, spl as int, over_capacity),
        over_capacity ==> r == LevelOfService::F,
        !over_capacity ==> r != LevelOfService::F,
{
    if over_capacity {
        return LevelOfService::F;
    }
    let (a, b, c, d): (u64, u64, u64, u64) = if spl >= 50 {
        (20000, 40000, 80000, 120000)
    } else {
        (25000, 50000, 100000, 150000)
    };
    let fd = follower_density;
    if fd <= a {
        LevelOfService::A
    } else if fd <= b {
        LevelOfService::B
    } else if fd <= c {
        LevelOfService::C
    } else if fd <= d {
        LevelOfService::D
    } else {
        LevelOfService::E
    }
}

/// Each cut point of either table belongs to the better level, and one
/// ten-thousandth above it to the next.
pub proof fn lemma_los_cut_points(spl: int)
    ensures
        ({
            let (a, b, c, d) = los_cuts(spl);
            &&& los_of_follower_density(a, spl) == LevelOfService::A
            &&& los_of_follower_density(a + 1, spl) == LevelOfService::B
            &&& los_of_follower_density(b, spl) == LevelOfService::B
            &&& los_of_follower_density(b + 1, spl) == LevelOfService::C
            &&& los_of_follower_density(c, spl) == LevelOfService::C
            &&& los_of_follower_density(c + 1, spl) == LevelOfService::D
            &&& los_of_follower_density(d, spl) == LevelOfService::D
            &&& los_of_follower_density(d + 1, spl) == LevelOfService::E
        }),
{
}

/// A segment whose demand exceeds its capacity is at level F, whatever its
/// follower density.
pub proof fn lemma_over_capacity_forces_f(fd: int, spl: int)
    ensures
        segment_los_of(fd, spl, true) == LevelOfService::F,
{
}

} // verus!
