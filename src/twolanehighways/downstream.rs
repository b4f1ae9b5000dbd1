//! How far downstream a passing lane's benefit reaches.
use vstd::prelude::*;

use super::lemma_scaled_bound;
use super::speed::{follower_density, follower_density_of};
use super::{PassingType, TwoLaneError};

verus! {

/// Effective distance (ft) over which a passing lane's benefit persists, from
/// its two bounds: `min(l_de1, max(0.1 mi, l_de2))`.
pub open spec fn effective_distance_of(l_de1: int, l_de2: int) -> int {
    let lower = if l_de2 > 528 { l_de2 } else { 528 };
    if l_de1 < lower {
        l_de1
    } else {
        lower
    }
}

/// Effective distance (ft) of a passing lane from its two bounds (ft).
pub fn effective_distance(l_de1: u64, l_de2: u64) -> (r: u64)
    ensures
        r == effective_distance_of(l_de1 as int, l_de2 as int),
{
    let lower = if l_de2 > 528 { l_de2 } else { 528 };
    if l_de1 < lower {
        l_de1
    } else {
        lower
    }
}

/// A segment of a facility as the downstream traversal reads it. On a passing
/// lane, `effective_distance_ft` is how far downstream of its start the
/// lane's benefit persists; on other segments it is not read.
#[derive(Debug, Clone, Copy, PartialEq, Eq, Structural)]
pub struct FacilitySegment {
    pub passing_type: PassingType,
    pub length_ft: u32,
    pub effective_distance_ft: u64,
}

/// What the nearest upstream passing lane hands to a segment: the distance
/// (ft) from the start of that lane to the start of the segment, and the
/// lane's effective distance (ft).
#[derive(Debug, Clone, Copy, PartialEq, Eq, Structural)]
pub struct DownstreamCarry {
    pub distance_ft: u64,
    pub effective_distance_ft: u64,
}

/// The carry that segment `i` receives, folded from upstream: none before the
/// first passing lane; reset by each passing lane; otherwise the previous
/// carry with the previous segment's length added.
pub open spec fn carry_at(s: Seq<FacilitySegment>, i: int) -> Option<DownstreamCarry>
    decreases i,
{
    if i <= 0 {
        None
    } else {
        let prev = s[i - 1];
        if prev.passing_type == PassingType::Lane {
            Some(
                DownstreamCarry {
                    distance_ft: prev.length_ft as u64,
                    effective_distance_ft: prev.effective_distance_ft,
                },
            )
        } else {
            match carry_at(s, i - 1) {
                None => None,
                Some(c) => Some(
                    DownstreamCarry {
                        distance_ft: (c.distance_ft + prev.length_ft) as u64,
                        effective_distance_ft: c.effective_distance_ft,
                    },
                ),
            }
        }
    }
}

proof fn lemma_carry_distance_bound(s: Seq<FacilitySegment>, i: int)
    requires
        0 <= i <= s.len(),
        i <= 0xffff_ffff,
    ensures
        carry_at(s, i) matches Some(c) ==> c.distance_ft <= i * 0xffff_ffff,
        carry_at(s, i) matches Some(c) ==> c.distance_ft as int == carry_distance(s, i),
    decreases i,
{
    if i > 0 {
        lemma_carry_distance_bound(s, i - 1);
    }
}

/// Distance from the start of the nearest upstream passing lane to the start
/// of segment `i`, in unbounded integers.
pub open spec fn carry_distance(s: Seq<FacilitySegment>, i: int) -> int
    decreases i,
{
    if i <= 0 {
        0
    } else if s[i - 1].passing_type == PassingType::Lane {
        s[i - 1].length_ft as int
    } else {
        carry_distance(s, i - 1) + s[i - 1].length_ft as int
    }
}

/// Visits the segments from upstream to downstream and returns, for each, the
/// carry from the nearest upstream passing lane.
pub fn downstream_carries(segments: &Vec<FacilitySegment>) -> (r: Vec<Option<DownstreamCarry>>)
    requires
        segments.len() < 0xffff_ffff,
    ensures
        r.len() == segments.len(),
        forall|i: int| 0 <= i < r.len() ==> r[i] == carry_at(segments@, i),
{
    let mut out: Vec<Option<DownstreamCarry>> = Vec::new();
    let mut carry: Option<DownstreamCarry> = None;
    let mut i: usize = 0;
    while i < segments.len()
        invariant
            i <= segments.len() < 0xffff_ffff,
            out.len() == i,
            carry == carry_at(segments@, i as int),
            forall|j: int| 0 <= j < i ==> out[j] == carry_at(segments@, j),
        decreases segments.len() - i,
    {
        out.push(carry);
        let seg = segments[i];
        proof {
            lemma_carry_distance_bound(segments@, i as int);
            lemma_scaled_bound(i as int, 0xffff_ffff);
        }
        carry = if seg.passing_type == PassingType::Lane {
            Some(
                DownstreamCarry {
                    distance_ft: seg.length_ft as u64,
                    effective_distance_ft: seg.effective_distance_ft,
                },
            )
        } else {
            match carry {
                None => None,
                Some(c) => Some(
                    DownstreamCarry {
                        distance_ft: c.distance_ft + seg.length_ft as u64,
                        effective_distance_ft: c.effective_distance_ft,
                    },
                ),
            }
        };
        i = i + 1;
    }
    out
}

/// Whether a carried passing-lane benefit still applies: the distance has
/// not yet reached the effective distance.
pub open spec fn benefit_applies(carry: Option<DownstreamCarry>) -> bool {
    match carry {
        Some(c) => c.distance_ft < c.effective_distance_ft,
        None => false,
    }
}

/// The improvement (of percent followers or of speed, in the caller's fixed
/// unit) that a segment receives from upstream: the computed improvement
/// while the benefit applies, zero once the distance reaches the effective
/// distance or when no passing lane lies upstream.
pub fn downstream_adjustment(carry: Option<DownstreamCarry>, improvement: u64) -> (r: u64)
    ensures
        r == if benefit_applies(carry) {
            improvement
        } else {
            0
        },
        carry matches Some(c) && c.distance_ft >= c.effective_distance_ft ==> r == 0,
{
    match carry {
        Some(c) => if c.distance_ft < c.effective_distance_ft {
            improvement
        } else {
            0
        },
        None => 0,
    }
}

/// Once a passing lane's benefit is exhausted at some segment, it stays
/// exhausted at every later segment up to the next passing lane.
pub proof fn lemma_benefit_stays_exhausted(s: Seq<FacilitySegment>, i: int, j: int)
    requires
        0 <= i <= j <= s.len(),
        j < 0xffff_ffff,
        forall|k: int| i <= k < j ==> s[k].passing_type != PassingType::Lane,
        carry_at(s, i) is Some,
        !benefit_applies(carry_at(s, i)),
    ensures
        carry_at(s, j) is Some,
        !benefit_applies(carry_at(s, j)),
        carry_at(s, j).unwrap().effective_distance_ft == carry_at(s, i).unwrap().effective_distance_ft,
        carry_at(s, j).unwrap().distance_ft >= carry_at(s, i).unwrap().distance_ft,
    decreases j - i,
{
    if j > i {
        lemma_benefit_stays_exhausted(s, i, j - 1);
        lemma_carry_distance_bound(s, j);
        lemma_carry_distance_bound(s, j - 1);
    }
}

/// Percent followers (hundredths of a percent) after the upstream
/// improvement, which never takes it below zero.
pub open spec fn discounted_pf(pf: int, improvement: int) -> int {
    if improvement >= pf {
        0
    } else {
        pf - improvement
    }
}

/// Follower density of a segment downstream of a passing lane: percent
/// followers lowered and speed raised by the improvements that the lane
/// hands on (hundredths of a percent, hundredths of mi/h), each applied only
/// while the benefit lasts. A speed of zero is refused.
pub fn adjusted_follower_density(
    pf: u32,
    flow: u64,
    speed: u32,
    carry: Option<DownstreamCarry>,
    pf_improve: u32,
    speed_improve: u32,
) -> (r: Result<u64, TwoLaneError>)
    requires
        pf <= 10000,
        flow <= 0xffff_ffff,
        speed as int + speed_improve as int <= 0xffff_ffff,
    ensures
        ({
            let (dp, ds) = if benefit_applies(carry) {
                (pf_improve as int, speed_improve as int)
            } else {
                (0int, 0int)
            };
            &&& speed == 0 && ds == 0 ==> r is Err
            &&& speed + ds > 0 ==> r == Ok::<u64, TwoLaneError>(
                follower_density_of(discounted_pf(pf as int, dp), flow as int, speed + ds) as u64,
            )
        }),
        !benefit_applies(carry) && speed > 0 ==> r == Ok::<u64, TwoLaneError>(
            follower_density_of(pf as int, flow as int, speed as int) as u64,
        ),
{
    let dp = downstream_adjustment(carry, pf_improve as u64);
    let ds = downstream_adjustment(carry, speed_improve as u64);
    let pf_adj: u32 = if dp >= pf as u64 {
        0
    } else {
        pf - dp as u32
    };
    follower_density(pf_adj, flow, (speed as u64 + ds) as u32)
}

/// The downstream adjustment never raises a segment's follower density.
pub proof fn lemma_adjustment_never_raises_density(
    pf: int,
    flow: int,
    speed: int,
    pf_improve: int,
    speed_improve: int,
)
    requires
        0 <= pf,
        0 <= flow,
        0 < speed,
        0 <= pf_improve,
        0 <= speed_improve,
    ensures
        follower_density_of(discounted_pf(pf, pf_improve), flow, speed + speed_improve)
            <= follower_density_of(pf, flow, speed),
{
    let p2 = discounted_pf(pf, pf_improve);
    let s2 = speed + speed_improve;
    let n1 = pf * flow * 100;
    let n2 = p2 * flow * 100;
    assert(0 <= n2 <= n1) by (nonlinear_arith)
        requires
            0 <= p2 <= pf,
            0 <= flow,
            n1 == pf * flow * 100,
            n2 == p2 * flow * 100,
    ;
    // ceil(n2 / s2) <= ceil(n2 / speed) <= ceil(n1 / speed)
    vstd::arithmetic::div_mod::lemma_div_is_ordered(n2 + speed - 1, n1 + speed - 1, speed);
    lemma_ceil_div_antitone(n2, speed, s2);
}

/// `ceil(n / d)` does not grow with `d`.
proof fn lemma_ceil_div_antitone(n: int, d1: int, d2: int)
    requires
        0 <= n,
        0 < d1 <= d2,
    ensures
        (n + d2 - 1) / d2 <= (n + d1 - 1) / d1,
{
    let q = (n + d1 - 1) / d1;
    vstd::arithmetic::div_mod::lemma_fundamental_div_mod(n + d1 - 1, d1);
    // n <= q * d1 <= q * d2, so n + d2 - 1 < (q + 1) * d2
    assert(n <= q * d1) by {
        vstd::arithmetic::div_mod::lemma_mod_bound(n + d1 - 1, d1);
    }
    assert(q >= 0) by {
        vstd::arithmetic::div_mod::lemma_div_pos_is_pos(n + d1 - 1, d1);
    }
    assert(q * d1 <= q * d2) by (nonlinear_arith)
        requires
            q >= 0,
            d1 <= d2,
    ;
    assert(n + d2 - 1 < (q + 1) * d2) by (nonlinear_arith)
        requires
            n <= q * d2,
            d2 > 0,
    ;
    vstd::arithmetic::div_mod::lemma_div_is_ordered(n + d2 - 1, (q + 1) * d2 - 1, d2);
    assert((q + 1) * d2 - 1 == q * d2 + (d2 - 1)) by (nonlinear_arith);
    vstd::arithmetic::div_mod::lemma_fundamental_div_mod_converse((q + 1) * d2 - 1, d2, q, d2 - 1);
}

} // verus!
