//! Average speed, percent followers and follower density of a segment.
use vstd::prelude::*;

use super::lemma_scaled_bound;
use super::{DerivedMeasure, TwoLaneError};

verus! {

/// Tangent-model average speed: free-flow speed while the flow is at most
/// 100 veh/h, else free-flow speed less the flow penalty `m * (v/1000 - 0.1)^p`,
/// never below zero.
pub open spec fn tangent_speed_of(ffs: int, flow: int, penalty: int) -> int {
    if flow <= 100 {
        ffs
    } else if penalty >= ffs {
        0
    } else {
        ffs - penalty
    }
}

/// Average speed (hundredths of mi/h) of the tangent model from the
/// free-flow speed, the flow rate (veh/h) and the flow penalty that the
/// speed model gives for that flow (hundredths of mi/h).
pub fn tangent_speed(ffs: u32, flow: u64, penalty: u32) -> (r: u32)
    ensures
        r == tangent_speed_of(ffs as int, flow as int, penalty as int),
        r <= ffs,
        flow <= 100 ==> r == ffs,
{
    if flow <= 100 {
        ffs
    } else if penalty >= ffs {
        0
    } else {
        ffs - penalty
    }
}

/// Length (ft) and average speed (hundredths of mi/h) of a stretch of road:
/// a sub-segment of a segment, or a segment of a facility.
#[derive(Debug, Clone, Copy, PartialEq, Eq, Structural)]
pub struct SubSegmentSpeed {
    pub length_ft: u32,
    pub speed: u32,
}

/// Sum of speed times length over the sub-segments.
pub open spec fn weighted_speed_sum(s: Seq<SubSegmentSpeed>) -> int
    decreases s.len(),
{
    if s.len() == 0 {
        0
    } else {
        weighted_speed_sum(s.drop_last()) + s.last().speed as int * s.last().length_ft as int
    }
}

/// Sum of the sub-segments' lengths.
pub open spec fn sub_length_sum(s: Seq<SubSegmentSpeed>) -> int
    decreases s.len(),
{
    if s.len() == 0 {
        0
    } else {
        sub_length_sum(s.drop_last()) + s.last().length_ft as int
    }
}

proof fn lemma_weighted_speed_bound(s: Seq<SubSegmentSpeed>, bound: int)
    requires
        forall|k: int| 0 <= k < s.len() ==> s[k].speed <= bound,
        0 <= bound,
    ensures
        0 <= weighted_speed_sum(s) <= bound * sub_length_sum(s),
        0 <= sub_length_sum(s),
    decreases s.len(),
{
    if s.len() > 0 {
        let t = s.drop_last();
        assert forall|k: int| 0 <= k < t.len() implies t[k].speed <= bound by {
            assert(t[k] == s[k]);
        }
        lemma_weighted_speed_bound(t, bound);
        let (sp, len) = (s.last().speed as int, s.last().length_ft as int);
        assert(0 <= sp * len <= bound * len) by (nonlinear_arith)
            requires
                0 <= sp <= bound,
                0 <= len,
        ;
        let (total, rest) = (sub_length_sum(s), sub_length_sum(t));
        assert(bound * total == bound * rest + bound * len) by (nonlinear_arith)
            requires
                total == rest + len,
        ;
    }
}

/// Length-weighted average speed of a segment's sub-segments (hundredths of
/// mi/h, rounded down); none when their lengths sum to zero. It never
/// exceeds the fastest sub-segment.
pub fn length_weighted_speed(subsegments: &Vec<SubSegmentSpeed>) -> (r: Option<u32>)
    requires
        subsegments.len() <= 0xffff_ffff,
    ensures
        sub_length_sum(subsegments@) == 0 <==> r is None,
        r matches Some(v) ==> v == weighted_speed_sum(subsegments@) / sub_length_sum(
            subsegments@,
        ),
        forall|bound: u32|
            #![trigger speeds_at_most(subsegments@, bound)]
            speeds_at_most(subsegments@, bound) ==> (r matches Some(v) ==> v <= bound),
{
    let mut ws: u128 = 0;
    let mut total: u64 = 0;
    let mut i: usize = 0;
    while i < subsegments.len()
        invariant
            i <= subsegments.len() <= 0xffff_ffff,
            ws == weighted_speed_sum(subsegments@.take(i as int)),
            total == sub_length_sum(subsegments@.take(i as int)),
            ws <= i * MAX_SPEED_WEIGHT,
            total <= i * 0xffff_ffff,
        decreases subsegments.len() - i,
    {
        let m = subsegments[i];
        proof {
            assert(m.speed as int * m.length_ft as int <= MAX_SPEED_WEIGHT) by (nonlinear_arith)
                requires
                    m.speed <= 0xffff_ffff,
                    m.length_ft <= 0xffff_ffff,
            ;
            lemma_scaled_bound(i as int + 1, MAX_SPEED_WEIGHT as int);
            assert(subsegments@.take(i as int + 1).drop_last() =~= subsegments@.take(i as int));
        }
        ws = ws + (m.speed as u128) * (m.length_ft as u128);
        total = total + m.length_ft as u64;
        i = i + 1;
    }
    proof {
        assert(subsegments@.take(i as int) =~= subsegments@);
    }
    if total == 0 {
        return None;
    }
    let avg = ws / total as u128;
    proof {
        let (w, t) = (ws as int, total as int);
        lemma_weighted_speed_bound(subsegments@, 0xffff_ffff);
        vstd::arithmetic::div_mod::lemma_div_is_ordered(w, t * 0xffff_ffff, t);
        vstd::arithmetic::div_mod::lemma_div_multiples_vanish(0xffff_ffff, t);
        assert forall|bound: u32|
            #![trigger speeds_at_most(subsegments@, bound)]
            speeds_at_most(subsegments@, bound) implies avg <= bound by {
            lemma_weighted_speed_bound(subsegments@, bound as int);
            vstd::arithmetic::div_mod::lemma_div_is_ordered(w, t * bound, t);
            vstd::arithmetic::div_mod::lemma_div_multiples_vanish(bound as int, t);
        }
    }
    Some(avg as u32)
}

/// A segment's average speed never exceeds its free-flow speed: when every
/// sub-segment runs at most at the tangent-model speed, so does their
/// length-weighted average, and the tangent speed is at most the free-flow
/// speed.
pub proof fn lemma_average_speed_within_free_flow(
    ffs: u32,
    flow: u64,
    penalty: u32,
    subs: Seq<SubSegmentSpeed>,
)
    requires
        forall|k: int|
            0 <= k < subs.len() ==> subs[k].speed <= tangent_speed_of(
                ffs as int,
                flow as int,
                penalty as int,
            ),
        sub_length_sum(subs) > 0,
    ensures
        weighted_speed_sum(subs) / sub_length_sum(subs) <= ffs,
{
    let (w, t) = (weighted_speed_sum(subs), sub_length_sum(subs));
    assert forall|k: int| 0 <= k < subs.len() implies subs[k].speed <= ffs by {}
    lemma_weighted_speed_bound(subs, ffs as int);
    vstd::arithmetic::div_mod::lemma_div_is_ordered(w, ffs * t, t);
    vstd::arithmetic::div_mod::lemma_div_multiples_vanish(ffs as int, t);
}

/// Whether no sub-segment is faster than `bound`.
pub open spec fn speeds_at_most(s: Seq<SubSegmentSpeed>, bound: u32) -> bool {
    forall|k: int| 0 <= k < s.len() ==> s[k].speed <= bound
}

/// Largest product of a speed and a length.
const MAX_SPEED_WEIGHT: u128 = 0xffff_fffe_0000_0001;

/// A curve or tangent slice of a segment: its length (ft), horizontal class
/// (0 for a tangent) and, for a curve, the speed bound (hundredths of mi/h)
/// that the curve model gives.
#[derive(Debug, Clone, Copy, PartialEq, Eq, Structural)]
pub struct CurveSlice {
    pub length_ft: u32,
    pub hor_class: i32,
    pub curve_bound: u32,
}

/// Speed on a slice: the tangent speed on a tangent, else the tangent speed
/// capped by the curve's bound.
pub open spec fn slice_speed_of(tangent: u32, c: CurveSlice) -> u32 {
    if c.hor_class == 0 || tangent <= c.curve_bound {
        tangent
    } else {
        c.curve_bound
    }
}

/// Speed on a slice of a segment whose tangent-model speed is `tangent`.
pub fn slice_speed(tangent: u32, slice: &CurveSlice) -> (r: u32)
    ensures
        r == slice_speed_of(tangent, *slice),
        r <= tangent,
{
    if slice.hor_class == 0 || tangent <= slice.curve_bound {
        tangent
    } else {
        slice.curve_bound
    }
}

/// The slices with their speeds.
pub open spec fn slice_speeds(tangent: u32, s: Seq<CurveSlice>) -> Seq<SubSegmentSpeed> {
    s.map_values(|c: CurveSlice| SubSegmentSpeed { length_ft: c.length_ft, speed: slice_speed_of(tangent, c) })
}

/// Highest horizontal class among the slices, 0 for none.
pub open spec fn max_hor_class(s: Seq<CurveSlice>) -> int
    decreases s.len(),
{
    if s.len() == 0 {
        0
    } else {
        let rest = max_hor_class(s.drop_last());
        if s.last().hor_class > rest {
            s.last().hor_class as int
        } else {
            rest
        }
    }
}

/// Average speed of a segment (hundredths of mi/h) from its tangent-model
/// speed and its slices, with the highest horizontal class met: the
/// length-weighted average of the slice speeds (rounded down), or the tangent
/// speed with class 0 when the slices have no length.
pub fn segment_average_speed(tangent: u32, slices: &Vec<CurveSlice>) -> (r: (u32, i32))
    requires
        slices.len() <= 0xffff_ffff,
    ensures
        sub_length_sum(slice_speeds(tangent, slices@)) == 0 ==> r == (tangent, 0i32),
        sub_length_sum(slice_speeds(tangent, slices@)) > 0 ==> r.0 == weighted_speed_sum(
            slice_speeds(tangent, slices@),
        ) / sub_length_sum(slice_speeds(tangent, slices@)) && r.1 == max_hor_class(slices@),
        r.0 <= tangent,
{
    let mut speeds: Vec<SubSegmentSpeed> = Vec::new();
    let mut top: i32 = 0;
    let mut i: usize = 0;
    while i < slices.len()
        invariant
            i <= slices.len() <= 0xffff_ffff,
            speeds@ == slice_speeds(tangent, slices@.take(i as int)),
            top == max_hor_class(slices@.take(i as int)),
        decreases slices.len() - i,
    {
        let c = slices[i];
        let speed = slice_speed(tangent, &c);
        speeds.push(SubSegmentSpeed { length_ft: c.length_ft, speed });
        proof {
            assert(slices@.take(i as int + 1).drop_last() =~= slices@.take(i as int));
            assert(speeds@ =~= slice_speeds(tangent, slices@.take(i as int + 1)));
        }
        if c.hor_class > top {
            top = c.hor_class;
        }
        i = i + 1;
    }
    proof {
        assert(slices@.take(i as int) =~= slices@);
        assert(speeds_at_most(speeds@, tangent));
    }
    match length_weighted_speed(&speeds) {
        Some(v) => (v, top),
        None => (tangent, 0),
    }
}

proof fn lemma_uniform_speed_sum(s: Seq<SubSegmentSpeed>, v: int)
    requires
        forall|k: int| 0 <= k < s.len() ==> s[k].speed == v,
    ensures
        weighted_speed_sum(s) == v * sub_length_sum(s),
    decreases s.len(),
{
    if s.len() > 0 {
        let t = s.drop_last();
        assert forall|k: int| 0 <= k < t.len() implies t[k].speed == v by {
            assert(t[k] == s[k]);
        }
        lemma_uniform_speed_sum(t, v);
        let (len, rest) = (s.last().length_ft as int, sub_length_sum(t));
        assert(v * (rest + len) == v * rest + v * len) by (nonlinear_arith);
    }
}

/// At a flow of at most 100 veh/h a segment runs at its free-flow speed,
/// provided no curve bound lies below that speed (a tight curve slows even
/// light traffic).
pub proof fn lemma_low_flow_runs_at_free_flow_speed(
    ffs: u32,
    flow: u64,
    penalty: u32,
    slices: Seq<CurveSlice>,
)
    requires
        flow <= 100,
        forall|k: int|
            0 <= k < slices.len() ==> slices[k].hor_class == 0 || slices[k].curve_bound >= ffs,
        sub_length_sum(slice_speeds(tangent_speed_of(ffs as int, flow as int, penalty as int) as u32, slices)) > 0,
    ensures
        ({
            let speeds = slice_speeds(tangent_speed_of(ffs as int, flow as int, penalty as int) as u32, slices);
            weighted_speed_sum(speeds) / sub_length_sum(speeds) == ffs
        }),
{
    let tangent = tangent_speed_of(ffs as int, flow as int, penalty as int) as u32;
    let speeds = slice_speeds(tangent, slices);
    assert(tangent == ffs);
    assert forall|k: int| 0 <= k < speeds.len() implies speeds[k].speed == ffs by {}
    lemma_uniform_speed_sum(speeds, ffs as int);
    vstd::arithmetic::div_mod::lemma_div_multiples_vanish(ffs as int, sub_length_sum(speeds));
}

/// Percent followers (hundredths of a percent) from the share of vehicles
/// that do not follow, `exp(m * (v/1000)^p)`, in ten-thousandths: `10000`
/// less that share. A share above one means the model broke.
pub fn percent_followers(non_follower_share: u64) -> (r: Result<u32, TwoLaneError>)
    ensures
        non_follower_share <= 10000 ==> r == Ok::<u32, TwoLaneError>(
            (10000 - non_follower_share) as u32,
        ),
        non_follower_share > 10000 ==> r == Err::<u32, TwoLaneError>(
            TwoLaneError::InternalInconsistency(DerivedMeasure::PercentFollowers),
        ),
        r matches Ok(pf) ==> pf <= 10000,
{
    if non_follower_share > 10000 {
        Err(TwoLaneError::InternalInconsistency(DerivedMeasure::PercentFollowers))
    } else {
        Ok((10000 - non_follower_share) as u32)
    }
}

/// Follower density `PF * flow / (100 * speed)` in ten-thousandths of a
/// follower/mi/ln, from PF in hundredths of a percent and speed in hundredths
/// of mi/h, rounded up so that a density above a cut point stays above it.
pub open spec fn follower_density_of(pf: int, flow: int, speed: int) -> int
    recommends
        speed > 0,
{
    (pf * flow * 100 + speed - 1) / speed
}

/// Follower density of a constrained or zone segment (or the endpoint
/// density of a passing lane). A speed of zero is refused.
pub fn follower_density(pf: u32, flow: u64, speed: u32) -> (r: Result<u64, TwoLaneError>)
    requires
        pf <= 10000,
        flow <= 0xffff_ffff,
    ensures
        speed == 0 ==> r == Err::<u64, TwoLaneError>(
            TwoLaneError::InternalInconsistency(DerivedMeasure::AverageSpeed),
        ),
        speed > 0 ==> r == Ok::<u64, TwoLaneError>(
            follower_density_of(pf as int, flow as int, speed as int) as u64,
        ),
        speed > 0 ==> follower_density_of(pf as int, flow as int, speed as int) <= u64::MAX,
{
    if speed == 0 {
        return Err(TwoLaneError::InternalInconsistency(DerivedMeasure::AverageSpeed));
    }
    proof {
        let (p, f, s) = (pf as int, flow as int, speed as int);
        assert(0 <= p * f * 100 <= 10000 * 0xffff_ffff * 100) by (nonlinear_arith)
            requires
                0 <= p <= 10000,
                0 <= f <= 0xffff_ffff,
        ;
        assert((p * f * 100 + s - 1) / s <= p * f * 100 + s - 1) by (nonlinear_arith)
            requires
                s >= 1,
                p * f * 100 >= 0,
        ;
    }
    let num = (pf as u128) * (flow as u128) * 100 + speed as u128 - 1;
    let fd = num / speed as u128;
    proof {
        let (p, f, s) = (pf as int, flow as int, speed as int);
        assert(fd as int <= p * f * 100 + s - 1 - 0) by {
            vstd::arithmetic::div_mod::lemma_div_is_ordered_by_denominator(num as int, 1, s);
        }
        assert(fd <= u64::MAX) by (nonlinear_arith)
            requires
                fd as int <= p * f * 100 + s - 1,
                0 <= p <= 10000,
                0 <= f <= 0xffff_ffff,
                1 <= s <= 0xffff_ffff,
        ;
    }
    Ok(fd as u64)
}

} // verus!
