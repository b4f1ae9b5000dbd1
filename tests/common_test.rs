use transportations_library::adjustment_factors::{
    DayOfWeek, DriverPopulation, IncidentSeverity, Month, ReliabilityScenario, WeatherCondition,
    WorkZoneType,
};
use transportations_library::common::{
    basic_freeway_thresholds, freeway_weaving_thresholds, los_from_density,
    multilane_highway_thresholds, multilane_weaving_thresholds, ramp_thresholds,
    rural_thresholds, BaseLaneCapacity, LaneCapacity, LevelOfService,
};
use transportations_library::geometric::GeometricValidationResult;
use transportations_library::managed_lanes::{get_estimated_capacity, ManagedLaneType};

#[test]
fn level_of_service_letters() {
    assert_eq!(LevelOfService::from('c'), LevelOfService::C);
    assert_eq!(LevelOfService::from('E'), LevelOfService::E);
    assert_eq!(LevelOfService::from('x'), LevelOfService::F);
    let c: char = LevelOfService::B.into();
    assert_eq!(c, 'B');
    assert_eq!(LevelOfService::D.to_string(), "D");
}

#[test]
fn base_lane_capacity() {
    let one = BaseLaneCapacity { number_of_lanes: 1, speed_limit: 65 };
    assert_eq!(one.calculate_capacity(), Some(2350));
    let two = BaseLaneCapacity { number_of_lanes: 3, speed_limit: 50 };
    assert_eq!(two.calculate_capacity(), Some(2000));
    let none = BaseLaneCapacity { number_of_lanes: 0, speed_limit: 65 };
    assert_eq!(none.calculate_capacity(), None);
    let off = BaseLaneCapacity { number_of_lanes: 1, speed_limit: 50 };
    assert_eq!(off.calculate_capacity(), None);
}

#[test]
fn managed_lane_capacities() {
    assert_eq!(get_estimated_capacity(ManagedLaneType::ContinuousAccess, 75), Some(1800));
    assert_eq!(get_estimated_capacity(ManagedLaneType::Buffer1, 60), Some(1550));
    assert_eq!(get_estimated_capacity(ManagedLaneType::Barrier2, 55), Some(1900));
    assert_eq!(get_estimated_capacity(ManagedLaneType::Buffer2, 62), None);
    assert_eq!(get_estimated_capacity(ManagedLaneType::Barrier1, 80), None);
}

#[test]
fn reliability_scenario_builders() {
    let s = ReliabilityScenario::new(DayOfWeek::Friday, Month::June);
    assert_eq!(s.weather, WeatherCondition::NonSevereWeather);
    assert_eq!(s.incident, None);
    assert_eq!(s.driver_population, DriverPopulation::Commuter);
    let s = s
        .with_weather(WeatherCondition::HeavyRain)
        .with_incident(IncidentSeverity::TwoLanesClosed)
        .with_work_zone(WorkZoneType::OneLaneClosure)
        .with_driver_population(DriverPopulation::Recreational);
    assert_eq!(s.day, DayOfWeek::Friday);
    assert_eq!(s.month, Month::June);
    assert_eq!(s.weather, WeatherCondition::HeavyRain);
    assert_eq!(s.incident, Some(IncidentSeverity::TwoLanesClosed));
    assert_eq!(s.work_zone, Some(WorkZoneType::OneLaneClosure));
    assert_eq!(s.driver_population, DriverPopulation::Recreational);
    assert_eq!(IncidentSeverity::ThreeLanesClosed.lanes_blocked(), 3);
    assert_eq!(IncidentSeverity::ShoulderClosed.lanes_blocked(), 0);
    assert_eq!(WorkZoneType::TwoLaneClosure.lanes_closed(), 2);
}

#[test]
fn geometric_results() {
    let p = GeometricValidationResult::pass();
    assert!(p.is_valid && p.issues.is_empty() && p.suggested_speed.is_none());
    let f = GeometricValidationResult::fail(vec!["radius too small".to_string()], Some(45));
    assert!(!f.is_valid);
    assert_eq!(f.issues.len(), 1);
    assert_eq!(f.suggested_speed, Some(45));
}

#[test]
fn density_levels_of_service() {
    let basic = basic_freeway_thresholds();
    assert_eq!(los_from_density(1100, &basic, false), LevelOfService::A);
    assert_eq!(los_from_density(1101, &basic, false), LevelOfService::B);
    assert_eq!(los_from_density(3000, &basic, false), LevelOfService::D);
    assert_eq!(los_from_density(4500, &basic, false), LevelOfService::E);
    assert_eq!(los_from_density(4501, &basic, false), LevelOfService::F);
    assert_eq!(los_from_density(500, &basic, true), LevelOfService::F);
    let ramp = ramp_thresholds();
    assert_eq!(los_from_density(9999, &ramp, false), LevelOfService::E);
    assert_eq!(los_from_density(2000, &ramp, false), LevelOfService::B);
    assert_eq!(los_from_density(100, &ramp, true), LevelOfService::F);
    assert_eq!(los_from_density(4001, &multilane_highway_thresholds(), false), LevelOfService::F);
    assert_eq!(los_from_density(600, &rural_thresholds(), false), LevelOfService::A);
    assert_eq!(los_from_density(4300, &freeway_weaving_thresholds(), false), LevelOfService::E);
    assert_eq!(los_from_density(3300, &multilane_weaving_thresholds(), false), LevelOfService::D);
}
