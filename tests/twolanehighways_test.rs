use transportations_library::common::LevelOfService;
use transportations_library::twolanehighways::{
    classify_segment, demand_exceeds_capacity, determine_capacity, determine_demand_flow,
    determine_facility_los, determine_horizontal_class, determine_segment_los,
    determine_vertical_alignment, downstream_adjustment, downstream_carries, effective_distance,
    facility_follower_density, flow_rate, identify_vertical_class, DownstreamCarry,
    FacilitySegment, InputField, PassingType, SegmentMeasure, TwoLaneError,
    segment_average_speed, CurveSlice, heavy_vehicle_count, split_passing_lane, speed_differential,
    midpoint_speeds, LaneSplit, adjusted_follower_density, determine_free_flow_speed, FreeFlowInputs, follower_density, length_weighted_speed, midpoint_follower_density,
    percent_followers, tangent_speed, DerivedMeasure, SubSegmentSpeed,
};

// The sample segment: passing constrained, 0.75 mi (3960 ft), level, 752 veh/h
// at a peak hour factor of 0.94, 5 % heavy vehicles, 50 mi/h speed limit.

#[test]
pub fn identity_vertical_class_test() {
    let (min, max) = identify_vertical_class(1, PassingType::Constrained).unwrap();
    assert_eq!((min, max), (1320, 15840));
}

#[test]
pub fn determine_demand_flow_test() {
    let d = determine_demand_flow(PassingType::Constrained, 752, None, 94, Some(500), 1).unwrap();
    assert_eq!((d.flow_i, d.flow_o, d.capacity), (800, 1500, 1700));
}

#[test]
pub fn determine_vertical_alignment_test() {
    assert_eq!(determine_vertical_alignment(0, 3960), 1);
}

#[test]
pub fn determine_segment_los_test() {
    // follower density 10.1 followers/mi/ln
    let over = demand_exceeds_capacity(752, 94, 1700);
    let los = determine_segment_los(101000, 50, over);
    assert_eq!(los.to_char(), 'D');
}

#[test]
fn sample_segment_end_to_end_discrete_stages() {
    let pt = PassingType::from_code(0).unwrap();
    assert_eq!(pt, PassingType::Constrained);
    let class = classify_segment(0, 3960, pt);
    assert_eq!(class.vertical_class, 1);
    assert_eq!((class.min_length_ft, class.max_length_ft), (1320, 15840));
    assert!(class.length_in_range);
    let d = determine_demand_flow(pt, 752, None, 94, Some(500), class.vertical_class).unwrap();
    assert_eq!(d.flow_i, 800);
    assert_eq!(d.capacity, 1700);
    assert!(!demand_exceeds_capacity(752, 94, d.capacity));
    assert_eq!(determine_segment_los(101000, 50, false), LevelOfService::D);
}

#[test]
fn los_cut_points_high_speed_table() {
    assert_eq!(determine_segment_los(20000, 50, false), LevelOfService::A);
    assert_eq!(determine_segment_los(20001, 50, false), LevelOfService::B);
    assert_eq!(determine_segment_los(40000, 55, false), LevelOfService::B);
    assert_eq!(determine_segment_los(40001, 55, false), LevelOfService::C);
    assert_eq!(determine_segment_los(80000, 60, false), LevelOfService::C);
    assert_eq!(determine_segment_los(80001, 60, false), LevelOfService::D);
    assert_eq!(determine_segment_los(120000, 65, false), LevelOfService::D);
    assert_eq!(determine_segment_los(120001, 65, false), LevelOfService::E);
    assert_eq!(determine_segment_los(450000, 65, false), LevelOfService::E);
}

#[test]
fn los_cut_points_low_speed_table() {
    assert_eq!(determine_segment_los(25000, 45, false), LevelOfService::A);
    assert_eq!(determine_segment_los(25001, 45, false), LevelOfService::B);
    assert_eq!(determine_segment_los(50000, 45, false), LevelOfService::B);
    assert_eq!(determine_segment_los(50001, 45, false), LevelOfService::C);
    assert_eq!(determine_segment_los(100000, 40, false), LevelOfService::C);
    assert_eq!(determine_segment_los(100001, 40, false), LevelOfService::D);
    assert_eq!(determine_segment_los(150000, 40, false), LevelOfService::D);
    assert_eq!(determine_segment_los(150001, 40, false), LevelOfService::E);
    // 2.2 followers/mi/ln is A below 50 mi/h and B at 50 mi/h
    assert_eq!(determine_segment_los(22000, 49, false), LevelOfService::A);
    assert_eq!(determine_segment_los(22000, 50, false), LevelOfService::B);
}

#[test]
fn over_capacity_forces_f() {
    assert_eq!(determine_segment_los(0, 60, true), LevelOfService::F);
    assert_eq!(determine_segment_los(20000, 45, true), LevelOfService::F);
    assert!(!demand_exceeds_capacity(1700, 100, 1700));
    assert!(demand_exceeds_capacity(1701, 100, 1700));
    // 1600 / 0.94 = 1702 veh/h
    assert!(demand_exceeds_capacity(1600, 94, 1700));
}

#[test]
fn capacity_of_constrained_and_zone_segments() {
    assert_eq!(determine_capacity(PassingType::Constrained, 1, Some(0)), Ok(1700));
    assert_eq!(determine_capacity(PassingType::Zone, 5, Some(3000)), Ok(1700));
    assert_eq!(determine_capacity(PassingType::Zone, 9, None), Ok(1700));
}

#[test]
fn capacity_of_passing_lanes() {
    let cap = |vc: i32, hv: u32| determine_capacity(PassingType::Lane, vc, Some(hv)).unwrap();
    assert_eq!(cap(1, 0), 1500);
    assert_eq!(cap(1, 499), 1500);
    assert_eq!(cap(1, 500), 1500);
    assert_eq!(cap(1, 1000), 1400);
    assert_eq!(cap(1, 1500), 1300);
    assert_eq!(cap(1, 2000), 1300);
    assert_eq!(cap(1, 2500), 1100);
    assert_eq!(cap(4, 1000), 1300);
    assert_eq!(cap(4, 1500), 1300);
    assert_eq!(cap(4, 2000), 1200);
    assert_eq!(cap(5, 1500), 1200);
    assert_eq!(cap(5, 2000), 1100);
    assert_eq!(cap(5, 9000), 1100);
    assert_eq!(
        determine_capacity(PassingType::Lane, 2, None),
        Err(TwoLaneError::MissingRequiredInput(InputField::HeavyVehiclePercent))
    );
    assert_eq!(
        determine_capacity(PassingType::Lane, 0, Some(500)),
        Err(TwoLaneError::UnsupportedCombination(InputField::VerticalClass))
    );
}

#[test]
fn demand_flow_errors_and_opposing_flows() {
    assert_eq!(
        determine_demand_flow(PassingType::Zone, 500, None, 94, Some(500), 1),
        Err(TwoLaneError::MissingRequiredInput(InputField::OpposingVolume))
    );
    assert_eq!(
        determine_demand_flow(PassingType::Constrained, 500, None, 0, Some(500), 1),
        Err(TwoLaneError::OutOfDomain(InputField::PeakHourFactor))
    );
    assert_eq!(
        determine_demand_flow(PassingType::Lane, 500, None, 94, None, 1),
        Err(TwoLaneError::MissingRequiredInput(InputField::HeavyVehiclePercent))
    );
    let z = determine_demand_flow(PassingType::Zone, 752, Some(470), 94, None, 3).unwrap();
    assert_eq!((z.flow_i, z.flow_o, z.capacity), (800, 500, 1700));
    let z0 = determine_demand_flow(PassingType::Zone, 752, Some(0), 94, None, 3).unwrap();
    assert_eq!(z0.flow_o, 0);
    let l = determine_demand_flow(PassingType::Lane, 752, Some(300), 94, Some(1200), 4).unwrap();
    assert_eq!((l.flow_i, l.flow_o, l.capacity), (800, 0, 1300));
}

#[test]
fn flow_rate_rounds_to_nearest() {
    assert_eq!(flow_rate(100, 94), 106);
    assert_eq!(flow_rate(752, 94), 800);
    assert_eq!(flow_rate(1, 200), 1);
    assert_eq!(flow_rate(900, 100), 900);
}

#[test]
fn vertical_alignment_upgrades_and_downgrades() {
    assert_eq!(determine_vertical_alignment(700, 500), 1);
    assert_eq!(determine_vertical_alignment(800, 500), 2);
    assert_eq!(determine_vertical_alignment(600, 1500), 3);
    assert_eq!(determine_vertical_alignment(1000, 1500), 5);
    assert_eq!(determine_vertical_alignment(-500, 1000), 1);
    assert_eq!(determine_vertical_alignment(-600, 1000), 2);
    assert_eq!(determine_vertical_alignment(-900, 1000), 3);
    assert_eq!(determine_vertical_alignment(-350, 4000), 3);
    assert_eq!(determine_vertical_alignment(-450, 4000), 4);
    assert_eq!(determine_vertical_alignment(200, 20000), 1);
    assert_eq!(determine_vertical_alignment(250, 20000), 2);
    assert_eq!(determine_vertical_alignment(450, 20000), 4);
}

#[test]
fn admissible_length_ranges() {
    assert_eq!(identify_vertical_class(4, PassingType::Zone), Ok((2640, 10560)));
    assert_eq!(identify_vertical_class(3, PassingType::Lane), Ok((2640, 5808)));
    assert_eq!(identify_vertical_class(2, PassingType::Lane), Ok((2640, 15840)));
    assert_eq!(
        identify_vertical_class(6, PassingType::Constrained),
        Err(TwoLaneError::UnsupportedCombination(InputField::VerticalClass))
    );
    let short = classify_segment(0, 1000, PassingType::Lane);
    assert_eq!(short.vertical_class, 1);
    assert!(!short.length_in_range);
}

#[test]
fn horizontal_classes() {
    assert_eq!(determine_horizontal_class(0, 0), 0);
    assert_eq!(determine_horizontal_class(250, 0), 5);
    assert_eq!(determine_horizontal_class(500, 50), 4);
    assert_eq!(determine_horizontal_class(500, 100), 3);
    assert_eq!(determine_horizontal_class(700, 600), 2);
    assert_eq!(determine_horizontal_class(1600, 799), 1);
    assert_eq!(determine_horizontal_class(1600, 800), 0);
    assert_eq!(determine_horizontal_class(3000, 0), 0);
}

#[test]
fn facility_weighted_density_and_los() {
    let segs = vec![
        SegmentMeasure { length_ft: 5280, follower_density: 100000 },
        SegmentMeasure { length_ft: 2640, follower_density: 40000 },
    ];
    assert_eq!(facility_follower_density(&segs), Some(80000));
    assert_eq!(determine_facility_los(&segs, 55), Some(LevelOfService::C));
    let worse = vec![
        SegmentMeasure { length_ft: 5280, follower_density: 100001 },
        SegmentMeasure { length_ft: 2640, follower_density: 40000 },
    ];
    assert_eq!(determine_facility_los(&worse, 55), Some(LevelOfService::D));
    assert_eq!(facility_follower_density(&Vec::new()), None);
    assert_eq!(determine_facility_los(&Vec::new(), 55), None);
}

#[test]
fn downstream_benefit_of_passing_lanes() {
    let seg = |pt: PassingType, len: u32, eff: u64| FacilitySegment {
        passing_type: pt,
        length_ft: len,
        effective_distance_ft: eff,
    };
    let segs = vec![
        seg(PassingType::Constrained, 1000, 0),
        seg(PassingType::Lane, 2000, 5000),
        seg(PassingType::Zone, 1500, 0),
        seg(PassingType::Constrained, 2000, 0),
        seg(PassingType::Lane, 1000, 100),
        seg(PassingType::Zone, 500, 0),
    ];
    let c = downstream_carries(&segs);
    let carry = |d: u64, e: u64| Some(DownstreamCarry { distance_ft: d, effective_distance_ft: e });
    assert_eq!(c, vec![None, None, carry(2000, 5000), carry(3500, 5000), carry(5500, 5000), carry(1000, 100)]);
    assert_eq!(downstream_adjustment(c[2], 7), 7);
    assert_eq!(downstream_adjustment(c[3], 7), 7);
    assert_eq!(downstream_adjustment(c[4], 7), 0);
    assert_eq!(downstream_adjustment(c[5], 7), 0);
    assert_eq!(downstream_adjustment(c[0], 7), 0);
    assert_eq!(downstream_adjustment(carry(5000, 5000), 7), 0);
}

#[test]
fn effective_distance_bounds() {
    assert_eq!(effective_distance(10000, 100), 528);
    assert_eq!(effective_distance(300, 1000), 300);
    assert_eq!(effective_distance(5000, 2000), 2000);
}

#[test]
fn passing_type_codes() {
    assert_eq!(PassingType::from_code(1), Some(PassingType::Zone));
    assert_eq!(PassingType::from_code(2), Some(PassingType::Lane));
    assert_eq!(PassingType::from_code(3), None);
    assert_eq!(PassingType::from_code(-1), None);
    assert_eq!(PassingType::Lane.code(), 2);
}

#[test]
fn tangent_speed_is_free_flow_speed_at_low_flow() {
    assert_eq!(tangent_speed(5683, 100, 999), 5683);
    assert_eq!(tangent_speed(5683, 0, 999), 5683);
    assert_eq!(tangent_speed(5683, 800, 313), 5370);
    assert_eq!(tangent_speed(100, 500, 200), 0);
}

#[test]
fn curve_speed_and_length_weighting() {
    let subs = vec![
        SubSegmentSpeed { length_ft: 1000, speed: 5000 },
        SubSegmentSpeed { length_ft: 3000, speed: 4000 },
    ];
    assert_eq!(length_weighted_speed(&subs), Some(4250));
    assert_eq!(length_weighted_speed(&Vec::new()), None);
    let zero = vec![SubSegmentSpeed { length_ft: 0, speed: 5000 }];
    assert_eq!(length_weighted_speed(&zero), None);
}

#[test]
fn percent_followers_bounds() {
    assert_eq!(percent_followers(3230), Ok(6770));
    assert_eq!(percent_followers(0), Ok(10000));
    assert_eq!(percent_followers(10000), Ok(0));
    assert_eq!(
        percent_followers(10001),
        Err(TwoLaneError::InternalInconsistency(DerivedMeasure::PercentFollowers))
    );
}

#[test]
fn follower_densities() {
    // 67.7 % followers, 800 veh/h, 53.7 mi/h: about 10.1 followers/mi/ln
    assert_eq!(follower_density(6770, 800, 5370), Ok(100857));
    assert_eq!(follower_density(5000, 400, 5000), Ok(40000));
    assert_eq!(
        follower_density(5000, 400, 0),
        Err(TwoLaneError::InternalInconsistency(DerivedMeasure::AverageSpeed))
    );
    assert_eq!(midpoint_follower_density(6000, 500, 5500, 7000, 300, 5000), Ok(48273));
    assert!(midpoint_follower_density(6000, 500, 0, 7000, 300, 5000).is_err());
}

#[test]
fn segment_speed_from_slices() {
    let slice = |len: u32, class: i32, bound: u32| CurveSlice { length_ft: len, hor_class: class, curve_bound: bound };
    // a tangent and a class 3 curve that caps the speed at 45 mi/h
    let slices = vec![slice(3000, 0, 0), slice(1000, 3, 4500)];
    assert_eq!(segment_average_speed(5370, &slices), (5152, 3));
    // a curve whose bound is above the tangent speed does not slow traffic
    assert_eq!(segment_average_speed(5370, &vec![slice(1000, 1, 6000)]), (5370, 1));
    assert_eq!(segment_average_speed(5370, &vec![slice(2000, 0, 0)]), (5370, 0));
    assert_eq!(segment_average_speed(5370, &Vec::new()), (5370, 0));
}

#[test]
fn free_flow_speed_of_the_sample_segment() {
    let x = FreeFlowInputs {
        spl: 50,
        vertical_class: 1,
        length_ft: 3960,
        flow_o: 1500,
        lane_width: 1200,
        shoulder_width: 600,
        apd: 0,
        phv: 500,
    };
    // 57 - 0.0333 * 5 = 56.8335 mi/h
    assert_eq!(determine_free_flow_speed(&x), Ok(5683));
}

#[test]
fn free_flow_speed_with_grade_and_side_friction() {
    let x = FreeFlowInputs {
        spl: 55,
        vertical_class: 2,
        length_ft: 5280,
        flow_o: 400,
        lane_width: 1100,
        shoulder_width: 400,
        apd: 1000,
        phv: 1000,
    };
    // 62.7 - 0.08088 * 10 - 2.0 - 2.5 = 57.3912 mi/h
    assert_eq!(determine_free_flow_speed(&x), Ok(5739));
    // access points beyond 40 per mile cost no more than 10 mi/h
    let dense = FreeFlowInputs { apd: 4000, ..x };
    let denser = FreeFlowInputs { apd: 9000, ..x };
    assert_eq!(determine_free_flow_speed(&dense), determine_free_flow_speed(&denser));
    assert_eq!(
        determine_free_flow_speed(&FreeFlowInputs { vertical_class: 0, ..x }),
        Err(TwoLaneError::UnsupportedCombination(InputField::VerticalClass))
    );
    assert_eq!(
        determine_free_flow_speed(&FreeFlowInputs { spl: 0, ..x }),
        Err(TwoLaneError::InternalInconsistency(DerivedMeasure::FreeFlowSpeed))
    );
}

#[test]
fn light_traffic_runs_at_free_flow_speed_unless_a_curve_binds() {
    let slice = |len: u32, class: i32, bound: u32| CurveSlice { length_ft: len, hor_class: class, curve_bound: bound };
    let tangent = tangent_speed(5683, 80, 999);
    assert_eq!(tangent, 5683);
    let gentle = vec![slice(3000, 0, 0), slice(960, 2, 6000)];
    assert_eq!(segment_average_speed(tangent, &gentle), (5683, 2));
    let tight = vec![slice(3000, 0, 0), slice(960, 5, 3000)];
    assert!(segment_average_speed(tangent, &tight).0 < 5683);
}

#[test]
fn passing_lane_split() {
    assert_eq!(heavy_vehicle_count(800, 500), 40);
    assert_eq!(heavy_vehicle_count(333, 1000), 33);
    assert_eq!(heavy_vehicle_count(10, 500), 1);
    assert_eq!(
        split_passing_lane(800, 500, 60000, 100),
        Ok(LaneSplit { flow_fl: 480, flow_sl: 320, hv_fl: 500, hv_sl: 500 })
    );
    let uneven = split_passing_lane(100, 0, 33333, 100).unwrap();
    assert_eq!((uneven.flow_fl, uneven.flow_sl), (34, 67));
    assert_eq!(
        split_passing_lane(100, 2000, 50000, 300),
        Err(TwoLaneError::InternalInconsistency(DerivedMeasure::HeavyVehicleSplit))
    );
}

#[test]
fn passing_lane_midpoint_speeds() {
    // 2.75 + 0.00056 * 800 + 3.8521 * 0.05 = 3.3906 mi/h
    assert_eq!(speed_differential(800, 500), 339);
    assert_eq!(speed_differential(0, 0), 275);
    assert_eq!(midpoint_speeds(5000, 4800, 339), Ok((5170, 4631)));
    assert_eq!(
        midpoint_speeds(5000, 100, 200),
        Err(TwoLaneError::InternalInconsistency(DerivedMeasure::AverageSpeed))
    );
}

#[test]
fn downstream_adjusted_follower_density() {
    let carry = |d: u64, e: u64| Some(DownstreamCarry { distance_ft: d, effective_distance_ft: e });
    // within reach: 60 % -> 50 % followers, 50 -> 52 mi/h
    assert_eq!(adjusted_follower_density(6000, 800, 5000, carry(2000, 5000), 1000, 200), Ok(76924));
    // beyond reach, or with no passing lane upstream, nothing changes
    assert_eq!(adjusted_follower_density(6000, 800, 5000, carry(6000, 5000), 1000, 200), Ok(96000));
    assert_eq!(adjusted_follower_density(6000, 800, 5000, None, 1000, 200), Ok(96000));
    // an improvement larger than the followers leaves none
    assert_eq!(adjusted_follower_density(500, 800, 5000, carry(100, 5000), 1000, 0), Ok(0));
}
