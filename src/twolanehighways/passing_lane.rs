//! The faster and slower lanes of a passing lane.
use vstd::prelude::*;

use super::{DerivedMeasure, TwoLaneError};

verus! {

/// Number of heavy vehicles in a flow (veh/h) with a heavy-vehicle share in
/// hundredths of a percent, rounded to the nearest, halves up.
pub open spec fn heavy_vehicle_count_of(flow: int, hv: int) -> int {
    (flow * hv * 2 + 10000) / 20000
}

/// Number of heavy vehicles in a flow.
pub fn heavy_vehicle_count(flow: u64, hv: u32) -> (r: u64)
    requires
        flow <= 0xffff_ffff,
        hv <= 10000,
    ensures
        r == heavy_vehicle_count_of(flow as int, hv as int),
        r <= flow,
{
    proof {
        assert(0 <= flow * hv <= 0xffff_ffff * 10000) by (nonlinear_arith)
            requires
                flow <= 0xffff_ffff,
                hv <= 10000,
        ;
        assert((flow * hv * 2 + 10000) / 20000 <= flow) by (nonlinear_arith)
            requires
                hv <= 10000,
                flow >= 0,
        ;
    }
    ((flow as u128 * hv as u128 * 2 + 10000) / 20000) as u64
}

/// The two lanes of a passing lane: flows (veh/h) and heavy-vehicle shares
/// (hundredths of a percent) of the faster and the slower lane.
#[derive(Debug, Clone, Copy, PartialEq, Eq, Structural)]
pub struct LaneSplit {
    pub flow_fl: u64,
    pub flow_sl: u64,
    pub hv_fl: u32,
    pub hv_sl: u32,
}

/// `ceil(a / d)` for `a >= 0`, `d > 0`.
pub open spec fn ceil_div(a: int, d: int) -> int {
    (a + d - 1) / d
}

/// The split of a passing lane's flow. The faster lane carries the share
/// `share_fl` (hundredths of a thousandth, 100000 for all) of the flow, and
/// heavy vehicles at the segment's share times the multiplier (hundredths);
/// the slower lane carries the rest of the flow, each lane rounded up, and
/// the heavy vehicles that the faster lane leaves (rounded up), as a share
/// of its flow. Fails when the faster lane would take more heavy vehicles
/// than there are.
pub open spec fn lane_split_of(flow: int, hv: int, share_fl: int, multiplier: int) -> Result<
    LaneSplit,
    TwoLaneError,
> {
    let flow_fl = ceil_div(flow * share_fl, 100000);
    let flow_sl = ceil_div(flow * (100000 - share_fl), 100000);
    let hv_fl = (hv * multiplier + 50) / 100;
    let nhv = heavy_vehicle_count_of(flow, hv);
    // heavy vehicles left to the slower lane, times 10000
    let left = nhv * 10000 - flow_fl * hv_fl;
    if left < 0 || hv_fl > 10000 {
        Err(TwoLaneError::InternalInconsistency(DerivedMeasure::HeavyVehicleSplit))
    } else {
        let nhv_sl = ceil_div(left, 10000);
        let hv_sl = if flow_sl == 0 {
            0
        } else {
            (nhv_sl * 20000 + flow_sl) / (2 * flow_sl)
        };
        if hv_sl > 10000 {
            Err(TwoLaneError::InternalInconsistency(DerivedMeasure::HeavyVehicleSplit))
        } else {
            Ok(
                LaneSplit {
                    flow_fl: flow_fl as u64,
                    flow_sl: flow_sl as u64,
                    hv_fl: hv_fl as u32,
                    hv_sl: hv_sl as u32,
                },
            )
        }
    }
}

/// Splits a passing lane's flow (veh/h) and heavy-vehicle share (hundredths
/// of a percent) between its faster and slower lanes, given the faster
/// lane's share of the flow (hundredths of a thousandth) and the faster
/// lane's heavy-vehicle multiplier (hundredths).
pub fn split_passing_lane(flow: u64, hv: u32, share_fl: u32, multiplier: u32) -> (r: Result<
    LaneSplit,
    TwoLaneError,
>)
    requires
        flow <= 0xffff_ffff,
        hv <= 10000,
        share_fl <= 100000,
        multiplier <= 0xffff,
    ensures
        r == lane_split_of(flow as int, hv as int, share_fl as int, multiplier as int),
        r matches Ok(sp) ==> flow <= sp.flow_fl + sp.flow_sl <= flow + 1,
{
    let f = flow as u128;
    let ghost (fi, hvi, si, mi) = (flow as int, hv as int, share_fl as int, multiplier as int);
    proof {
        assert(0 <= fi * si <= 0xffff_ffff * 100000) by (nonlinear_arith)
            requires
                0 <= fi <= 0xffff_ffff,
                0 <= si <= 100000,
        ;
        assert(0 <= fi * (100000 - si) <= 0xffff_ffff * 100000) by (nonlinear_arith)
            requires
                0 <= fi <= 0xffff_ffff,
                0 <= si <= 100000,
        ;
        assert(0 <= hvi * mi <= 10000 * 0xffff) by (nonlinear_arith)
            requires
                0 <= hvi <= 10000,
                0 <= mi <= 0xffff,
        ;
        lemma_ceil_split(fi, si);
    }
    let flow_fl = (f * share_fl as u128 + 99999) / 100000;
    let flow_sl = (f * (100000 - share_fl as u128) + 99999) / 100000;
    let hv_fl = (hv as u128 * multiplier as u128 + 50) / 100;
    let nhv = heavy_vehicle_count(flow, hv) as u128;
    proof {
        assert(flow_fl <= fi + 1);
        assert(0 <= flow_fl * hv_fl <= (0xffff_ffff + 1) * (10000 * 0xffff + 50)) by (nonlinear_arith)
            requires
                0 <= flow_fl <= 0xffff_ffff + 1,
                0 <= hv_fl <= 10000 * 0xffff + 50,
        ;
    }
    if nhv * 10000 < flow_fl * hv_fl || hv_fl > 10000 {
        return Err(TwoLaneError::InternalInconsistency(DerivedMeasure::HeavyVehicleSplit));
    }
    let left = nhv * 10000 - flow_fl * hv_fl;
    let nhv_sl = (left + 9999) / 10000;
    let hv_sl: u128 = if flow_sl == 0 {
        0
    } else {
        proof {
            assert(nhv_sl <= nhv + 1);
            assert(0 <= nhv_sl * 20000 <= (0xffff_ffff + 1) * 20000) by (nonlinear_arith)
                requires
                    0 <= nhv_sl <= 0xffff_ffff + 1,
            ;
        }
        (nhv_sl * 20000 + flow_sl) / (2 * flow_sl)
    };
    if hv_sl > 10000 {
        return Err(TwoLaneError::InternalInconsistency(DerivedMeasure::HeavyVehicleSplit));
    }
    Ok(
        LaneSplit {
            flow_fl: flow_fl as u64,
            flow_sl: flow_sl as u64,
            hv_fl: hv_fl as u32,
            hv_sl: hv_sl as u32,
        },
    )
}

/// Rounding each lane's part of a flow up gives the flow or one vehicle more.
proof fn lemma_ceil_split(flow: int, share: int)
    requires
        0 <= flow,
        0 <= share <= 100000,
    ensures
        flow <= ceil_div(flow * share, 100000) + ceil_div(flow * (100000 - share), 100000)
            <= flow + 1,
        ceil_div(flow * share, 100000) <= flow,
{
    let a = flow * share;
    let b = flow * (100000 - share);
    assert(a + b == flow * 100000) by (nonlinear_arith)
        requires
            a == flow * share,
            b == flow * (100000 - share),
    ;
    assert(0 <= a <= flow * 100000) by (nonlinear_arith)
        requires
            a == flow * share,
            0 <= flow,
            0 <= share <= 100000,
    ;
    let qa = a / 100000;
    let ra = a % 100000;
    let qb = b / 100000;
    let rb = b % 100000;
    assert(a == 100000 * qa + ra && 0 <= ra < 100000);
    assert(b == 100000 * qb + rb && 0 <= rb < 100000);
    assert(qa + qb <= flow && flow <= qa + qb + 1) by (nonlinear_arith)
        requires
            a == 100000 * qa + ra,
            b == 100000 * qb + rb,
            0 <= ra < 100000,
            0 <= rb < 100000,
            a + b == flow * 100000,
    ;
    assert(ceil_div(a, 100000) == qa + (if ra > 0 { 1int } else { 0 })) by {
        vstd::arithmetic::div_mod::lemma_fundamental_div_mod_converse(
            a + 99999,
            100000,
            qa + (if ra > 0 { 1int } else { 0 }),
            if ra > 0 { ra - 1 } else { 99999 },
        );
    }
    assert(ceil_div(b, 100000) == qb + (if rb > 0 { 1int } else { 0 })) by {
        vstd::arithmetic::div_mod::lemma_fundamental_div_mod_converse(
            b + 99999,
            100000,
            qb + (if rb > 0 { 1int } else { 0 }),
            if rb > 0 { rb - 1 } else { 99999 },
        );
    }
    assert(ra > 0 && rb > 0 ==> flow == qa + qb + 1) by (nonlinear_arith)
        requires
            a == 100000 * qa + ra,
            b == 100000 * qb + rb,
            0 <= ra < 100000,
            0 <= rb < 100000,
            a + b == flow * 100000,
    ;
    assert(ra == 0 ==> rb == 0) by (nonlinear_arith)
        requires
            a == 100000 * qa + ra,
            b == 100000 * qb + rb,
            0 <= ra < 100000,
            0 <= rb < 100000,
            a + b == flow * 100000,
    ;
    assert(qa * 100000 <= a);
    assert(qa <= flow) by (nonlinear_arith)
        requires
            qa * 100000 <= a,
            a <= flow * 100000,
    ;
    if ra > 0 {
        assert(qa < flow) by (nonlinear_arith)
            requires
                a == 100000 * qa + ra,
                0 < ra,
                a <= flow * 100000,
        ;
    }
}

/// Speed differential between the lanes of a passing lane,
/// `2.750 + 0.00056 * flow + 3.8521 * HV / 100`, in hundredths of mi/h,
/// rounded to the nearest.
pub open spec fn speed_differential_of(flow: int, hv: int) -> int {
    (275_000_000 + 56_000 * flow + 38_521 * hv + 500_000) / 1_000_000
}

/// Speed differential of a passing lane from its flow (veh/h) and
/// heavy-vehicle share (hundredths of a percent).
pub fn speed_differential(flow: u64, hv: u32) -> (r: u64)
    requires
        flow <= 0xffff_ffff,
    ensures
        r == speed_differential_of(flow as int, hv as int),
{
    (275_000_000 + 56_000 * flow + 38_521 * hv as u64 + 500_000) / 1_000_000
}

/// Midpoint speeds (hundredths of mi/h) of the faster and the slower lane:
/// each lane's speed moved by half the speed differential, up for the faster
/// lane and down for the slower, rounded half up. A slower lane that the
/// differential would bring to a stop is refused.
pub fn midpoint_speeds(speed_fl: u32, speed_sl: u32, differential: u64) -> (r: Result<
    (u64, u64),
    TwoLaneError,
>)
    requires
        differential <= 0xffff_ffff,
    ensures
        2 * speed_sl <= differential ==> r == Err::<(u64, u64), TwoLaneError>(
            TwoLaneError::InternalInconsistency(DerivedMeasure::AverageSpeed),
        ),
        2 * speed_sl > differential ==> r == Ok::<(u64, u64), TwoLaneError>(
            (
                ((2 * speed_fl + differential + 1) / 2) as u64,
                ((2 * speed_sl - differential + 1) / 2) as u64,
            ),
        ),
{
    let fl = speed_fl as u64;
    let sl = speed_sl as u64;
    if 2 * sl <= differential {
        return Err(TwoLaneError::InternalInconsistency(DerivedMeasure::AverageSpeed));
    }
    Ok(((2 * fl + differential + 1) / 2, (2 * sl - differential + 1) / 2))
}

/// Midpoint follower density of a passing lane,
/// `(PF_fl * v_fl / S_fl + PF_sl * v_sl / S_sl) / 200`, in ten-thousandths of
/// a follower/mi/ln, from each lane's PF (hundredths of a percent), flow
/// (veh/h) and midpoint speed (hundredths of mi/h), rounded up.
pub open spec fn midpoint_density_of(pf_a: int, v_a: int, s_a: int, pf_b: int, v_b: int, s_b: int) -> int
    recommends
        s_a > 0 && s_b > 0,
{
    (50 * (pf_a * v_a * s_b + pf_b * v_b * s_a) + s_a * s_b - 1) / (s_a * s_b)
}

/// Midpoint follower density of a passing-lane segment from its faster-lane
/// and slower-lane measures; a midpoint speed of zero is refused. This
/// density, not the endpoint one, decides the segment's level of service.
pub fn midpoint_follower_density(
    pf_fl: u32,
    flow_fl: u64,
    speed_fl: u32,
    pf_sl: u32,
    flow_sl: u64,
    speed_sl: u32,
) -> (r: Result<u64, TwoLaneError>)
    requires
        pf_fl <= 10000,
        pf_sl <= 10000,
        flow_fl <= 0xffff_ffff,
        flow_sl <= 0xffff_ffff,
    ensures
        (speed_fl == 0 || speed_sl == 0) ==> r == Err::<u64, TwoLaneError>(
            TwoLaneError::InternalInconsistency(DerivedMeasure::AverageSpeed),
        ),
        (speed_fl > 0 && speed_sl > 0) ==> r == Ok::<u64, TwoLaneError>(
            midpoint_density_of(
                pf_fl as int,
                flow_fl as int,
                speed_fl as int,
                pf_sl as int,
                flow_sl as int,
                speed_sl as int,
            ) as u64,
        ),
{
    if speed_fl == 0 || speed_sl == 0 {
        return Err(TwoLaneError::InternalInconsistency(DerivedMeasure::AverageSpeed));
    }
    let ghost (pf_a, v_a, s_a, pf_b, v_b, s_b) = (
        pf_fl as int,
        flow_fl as int,
        speed_fl as int,
        pf_sl as int,
        flow_sl as int,
        speed_sl as int,
    );
    proof {
        assert(0 <= pf_a * v_a <= 10000 * 0xffff_ffff) by (nonlinear_arith)
            requires
                0 <= pf_a <= 10000,
                0 <= v_a <= 0xffff_ffff,
        ;
        assert(0 <= pf_b * v_b <= 10000 * 0xffff_ffff) by (nonlinear_arith)
            requires
                0 <= pf_b <= 10000,
                0 <= v_b <= 0xffff_ffff,
        ;
        assert(0 <= pf_a * v_a * s_b <= 10000 * 0xffff_ffff * 0xffff_ffff) by (nonlinear_arith)
            requires
                0 <= pf_a <= 10000,
                0 <= v_a <= 0xffff_ffff,
                0 <= s_b <= 0xffff_ffff,
        ;
        assert(0 <= pf_b * v_b * s_a <= 10000 * 0xffff_ffff * 0xffff_ffff) by (nonlinear_arith)
            requires
                0 <= pf_b <= 10000,
                0 <= v_b <= 0xffff_ffff,
                0 <= s_a <= 0xffff_ffff,
        ;
        assert(1 <= s_a * s_b <= 0xffff_ffff * 0xffff_ffff) by (nonlinear_arith)
            requires
                1 <= s_a <= 0xffff_ffff,
                1 <= s_b <= 0xffff_ffff,
        ;
    }
    let a = (pf_fl as u128) * (flow_fl as u128) * (speed_sl as u128);
    let b = (pf_sl as u128) * (flow_sl as u128) * (speed_fl as u128);
    let d = (speed_fl as u128) * (speed_sl as u128);
    let num = 50 * (a + b) + d - 1;
    let fd = num / d;
    proof {
        let k = 50 * (pf_a * v_a + pf_b * v_b) + 1;
        assert(num <= k * d) by (nonlinear_arith)
            requires
                num == 50 * (pf_a * v_a * s_b + pf_b * v_b * s_a) + s_a * s_b - 1,
                d == s_a * s_b,
                k == 50 * (pf_a * v_a + pf_b * v_b) + 1,
                1 <= s_a,
                1 <= s_b,
                0 <= pf_a,
                0 <= v_a,
                0 <= pf_b,
                0 <= v_b,
        ;
        vstd::arithmetic::div_mod::lemma_div_is_ordered(num as int, k * d, d as int);
        vstd::arithmetic::div_mod::lemma_div_multiples_vanish(k, d as int);
        assert(k <= 50 * (10000 * 0xffff_ffff + 10000 * 0xffff_ffff) + 1) by (nonlinear_arith)
            requires
                k == 50 * (pf_a * v_a + pf_b * v_b) + 1,
                0 <= pf_a <= 10000,
                0 <= v_a <= 0xffff_ffff,
                0 <= pf_b <= 10000,
                0 <= v_b <= 0xffff_ffff,
        ;
    }
    Ok(fd as u64)
}

} // verus!
