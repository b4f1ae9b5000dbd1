//! Length-weighted follower density and level of service of a facility.
use vstd::prelude::*;

use super::level_of_service::los_cuts;
use super::lemma_scaled_bound;
use crate::common::LevelOfService;

verus! {

/// Length (ft) and follower density (ten-thousandths of a follower/mi/ln) of
/// an analysed segment; on a passing lane the density is the midpoint one.
#[derive(Debug, Clone, Copy, PartialEq, Eq, Structural)]
pub struct SegmentMeasure {
    pub length_ft: u32,
    pub follower_density: u64,
}

/// Sum of follower density times length over the segments.
pub open spec fn weighted_density_sum(s: Seq<SegmentMeasure>) -> int
    decreases s.len(),
{
    if s.len() == 0 {
        0
    } else {
        weighted_density_sum(s.drop_last()) + s.last().follower_density as int
            * s.last().length_ft as int
    }
}

/// Sum of the segments' lengths.
pub open spec fn total_length(s: Seq<SegmentMeasure>) -> int
    decreases s.len(),
{
    if s.len() == 0 {
        0
    } else {
        total_length(s.drop_last()) + s.last().length_ft as int
    }
}

/// Level of service of a facility whose length-weighted density sum is `ws`
/// over a total length `total` > 0: the segment table applied to `ws / total`,
/// compared exactly. Capacity plays no part at facility level.
pub open spec fn facility_los_of(ws: int, total: int, spl: int) -> LevelOfService {
    let (a, b, c, d) = los_cuts(spl);
    if ws <= a * total {
        LevelOfService::A
    } else if ws <= b * total {
        LevelOfService::B
    } else if ws <= c * total {
        LevelOfService::C
    } else if ws <= d * total {
        LevelOfService::D
    } else {
        LevelOfService::E
    }
}

/// Largest product of a density and a length.
const MAX_WEIGHTED: u128 = 0xffff_fffe_ffff_ffff_0000_0001;

proof fn lemma_product_bound(fd: int, len: int)
    requires
        0 <= fd <= 0xffff_ffff_ffff_ffff,
        0 <= len <= 0xffff_ffff,
    ensures
        0 <= fd * len <= MAX_WEIGHTED,
{
    assert(0 <= fd * len <= 0xffff_ffff_ffff_ffff * 0xffff_ffff) by (nonlinear_arith)
        requires
            0 <= fd <= 0xffff_ffff_ffff_ffff,
            0 <= len <= 0xffff_ffff,
    ;
}

/// Length-weighted sums of density and of length over the segments.
fn facility_sums(segments: &Vec<SegmentMeasure>) -> (r: (u128, u64))
    requires
        segments.len() <= 0xffff_ffff,
    ensures
        r.0 == weighted_density_sum(segments@),
        r.1 == total_length(segments@),
        r.1 <= segments.len() * 0xffff_ffff,
{
    let mut ws: u128 = 0;
    let mut total: u64 = 0;
    let mut i: usize = 0;
    while i < segments.len()
        invariant
            i <= segments.len() <= 0xffff_ffff,
            ws == weighted_density_sum(segments@.take(i as int)),
            total == total_length(segments@.take(i as int)),
            ws <= i * MAX_WEIGHTED,
            total <= i * 0xffff_ffff,
        decreases segments.len() - i,
    {
        let m = segments[i];
        proof {
            lemma_product_bound(m.follower_density as int, m.length_ft as int);
            lemma_scaled_bound(i as int + 1, MAX_WEIGHTED as int);
            assert(segments@.take(i as int + 1).drop_last() =~= segments@.take(i as int));
        }
        ws = ws + (m.follower_density as u128) * (m.length_ft as u128);
        total = total + m.length_ft as u64;
        i = i + 1;
    }
    proof {
        assert(segments@.take(i as int) =~= segments@);
    }
    (ws, total)
}

/// Length-weighted average follower density of a facility,
/// `sum(fd * length) / sum(length)` rounded down; none for a facility of
/// length zero.
pub fn facility_follower_density(segments: &Vec<SegmentMeasure>) -> (r: Option<u64>)
    requires
        segments.len() <= 0xffff_ffff,
    ensures
        total_length(segments@) == 0 <==> r is None,
        r matches Some(fd) ==> fd == weighted_density_sum(segments@) / total_length(segments@),
{
    let (ws, total) = facility_sums(segments);
    if total == 0 {
        return None;
    }
    proof {
        let (w, t) = (ws as int, total as int);
        lemma_weighted_average_bound(segments@);
        vstd::arithmetic::div_mod::lemma_div_is_ordered(w, t * 0xffff_ffff_ffff_ffff, t);
        vstd::arithmetic::div_mod::lemma_div_multiples_vanish(0xffff_ffff_ffff_ffff, t);
    }
    Some((ws / total as u128) as u64)
}

proof fn lemma_weighted_average_bound(s: Seq<SegmentMeasure>)
    ensures
        0 <= weighted_density_sum(s) <= 0xffff_ffff_ffff_ffff * total_length(s),
        0 <= total_length(s),
    decreases s.len(),
{
    if s.len() > 0 {
        lemma_weighted_average_bound(s.drop_last());
        let (fd, len) = (s.last().follower_density as int, s.last().length_ft as int);
        assert(0 <= fd * len <= 0xffff_ffff_ffff_ffff * len) by (nonlinear_arith)
            requires
                0 <= fd <= 0xffff_ffff_ffff_ffff,
                0 <= len,
        ;
    }
}

/// Level of service of a facility: the segment table applied to the
/// length-weighted average follower density, compared exactly; none for a
/// facility of length zero.
pub fn determine_facility_los(segments: &Vec<SegmentMeasure>, spl: u32) -> (r: Option<
    LevelOfService,
>)
    requires
        segments.len() <= 0xffff_ffff,
    ensures
        total_length(segments@) == 0 <==> r is None,
        r matches Some(los) ==> los == facility_los_of(
            weighted_density_sum(segments@),
            total_length(segments@),
            spl as int,
        ),
{
    let (ws, total) = facility_sums(segments);
    if total == 0 {
        return None;
    }
    let (a, b, c, d): (u128, u128, u128, u128) = if spl >= 50 {
        (20000, 40000, 80000, 120000)
    } else {
        (25000, 50000, 100000, 150000)
    };
    let t = total as u128;
    let los = if ws <= a * t {
        LevelOfService::A
    } else if ws <= b * t {
        LevelOfService::B
    } else if ws <= c * t {
        LevelOfService::C
    } else if ws <= d * t {
        LevelOfService::D
    } else {
        LevelOfService::E
    };
    Some(los)
}

} // verus!
