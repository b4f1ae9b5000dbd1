//! Reliability-analysis scenario inputs: weather, incidents, work zones,
//! driver population and the calendar.
use vstd::prelude::*;

verus! {

/// Weather event types.
#[derive(Debug, Clone, Copy, PartialEq, Eq, Structural)]
pub enum WeatherCondition {
    /// More than 0.10 to 0.25 in./h.
    MediumRain,
    /// More than 0.25 in./h.
    HeavyRain,
    /// More than 0.00 to 0.05 in./h.
    LightSnow,
    /// More than 0.05 to 0.10 in./h.
    LightMediumSnow,
    /// More than 0.10 to 0.50 in./h.
    MediumHeavySnow,
    /// More than 0.50 in./h.
    HeavySnow,
    /// Below -4 degrees F.
    SevereCold,
    /// 0.50 to 0.99 mi visibility.
    LowVisibility,
    /// 0.25 to 0.49 mi visibility.
    VeryLowVisibility,
    /// Under 0.25 mi visibility.
    MinimalVisibility,
    /// All other conditions.
    NonSevereWeather,
}

/// Incident severity types.
#[derive(Debug, Clone, Copy, PartialEq, Eq, Structural)]
pub enum IncidentSeverity {
    ShoulderClosed,
    OneLaneClosed,
    TwoLanesClosed,
    ThreeLanesClosed,
    FourPlusLanesClosed,
}

impl IncidentSeverity {
    /// Number of lanes that the incident blocks.
    pub fn lanes_blocked(&self) -> (r: u32)
        ensures
            r == (match *self {
                IncidentSeverity::ShoulderClosed => 0u32,
                IncidentSeverity::OneLaneClosed => 1,
                IncidentSeverity::TwoLanesClosed => 2,
                IncidentSeverity::ThreeLanesClosed => 3,
                IncidentSeverity::FourPlusLanesClosed => 4,
            }),
    {
        match self {
            IncidentSeverity::ShoulderClosed => 0,
            IncidentSeverity::OneLaneClosed => 1,
            IncidentSeverity::TwoLanesClosed => 2,
            IncidentSeverity::ThreeLanesClosed => 3,
            IncidentSeverity::FourPlusLanesClosed => 4,
        }
    }
}

/// Work zone types.
#[derive(Debug, Clone, Copy, PartialEq, Eq, Structural)]
pub enum WorkZoneType {
    ShoulderWork,
    OneLaneClosure,
    TwoLaneClosure,
    ThreePlusLaneClosure,
}

/// Work zone barrier types.
#[derive(Debug, Clone, Copy, PartialEq, Eq, Structural)]
pub enum WorkZoneBarrier {
    /// Cones, drums or another soft barrier.
    SoftBarrier,
    /// Concrete or another hard barrier.
    HardBarrier,
}

impl WorkZoneType {
    /// Number of lanes that the work zone closes.
    pub fn lanes_closed(&self) -> (r: u32)
        ensures
            r == (match *self {
                WorkZoneType::ShoulderWork => 0u32,
                WorkZoneType::OneLaneClosure => 1,
                WorkZoneType::TwoLaneClosure => 2,
                WorkZoneType::ThreePlusLaneClosure => 3,
            }),
    {
        match self {
            WorkZoneType::ShoulderWork => 0,
            WorkZoneType::OneLaneClosure => 1,
            WorkZoneType::TwoLaneClosure => 2,
            WorkZoneType::ThreePlusLaneClosure => 3,
        }
    }
}

/// Driver population types.
#[derive(Debug, Clone, Copy, PartialEq, Eq, Structural)]
pub enum DriverPopulation {
    /// Commuters, familiar with the roadway.
    Commuter,
    /// Recreational drivers.
    Recreational,
    /// Heavy tourist traffic.
    TouristHeavy,
}

/// Day of the week.
#[derive(Debug, Clone, Copy, PartialEq, Eq, Structural)]
pub enum DayOfWeek {
    Monday,
    Tuesday,
    Wednesday,
    Thursday,
    Friday,
    Saturday,
    Sunday,
}

/// Month of the year.
#[derive(Debug, Clone, Copy, PartialEq, Eq, Structural)]
pub enum Month {
    January,
    February,
    March,
    April,
    May,
    June,
    July,
    August,
    September,
    October,
    November,
    December,
}

/// A scenario of a reliability analysis.
#[derive(Debug, Clone, Copy, PartialEq, Eq, Structural)]
pub struct ReliabilityScenario {
    pub day: DayOfWeek,
    pub month: Month,
    pub weather: WeatherCondition,
    /// Incident severity, if any.
    pub incident: Option<IncidentSeverity>,
    /// Work zone type, if any.
    pub work_zone: Option<WorkZoneType>,
    pub driver_population: DriverPopulation,
}

impl ReliabilityScenario {
    /// A base scenario: non-severe weather, commuters, no incident and no work zone.
    pub fn new(day: DayOfWeek, month: Month) -> (r: ReliabilityScenario)
        ensures
            r == (ReliabilityScenario {
                day,
                month,
                weather: WeatherCondition::NonSevereWeather,
                incident: None,
                work_zone: None,
                driver_population: DriverPopulation::Commuter,
            }),
    {
        ReliabilityScenario {
            day,
            month,
            weather: WeatherCondition::NonSevereWeather,
            incident: None,
            work_zone: None,
            driver_population: DriverPopulation::Commuter,
        }
    }

    /// The scenario under another weather condition.
    pub fn with_weather(self, weather: WeatherCondition) -> (r: ReliabilityScenario)
        ensures
            r == (ReliabilityScenario { weather, ..self }),
    {
        let mut s = self;
        s.weather = weather;
        s
    }

    /// The scenario with an incident.
    pub fn with_incident(self, incident: IncidentSeverity) -> (r: ReliabilityScenario)
        ensures
            r == (ReliabilityScenario { incident: Some(incident), ..self }),
    {
        let mut s = self;
        s.incident = Some(incident);
        s
    }

    /// The scenario with a work zone.
    pub fn with_work_zone(self, work_zone: WorkZoneType) -> (r: ReliabilityScenario)
        ensures
            r == (ReliabilityScenario { work_zone: Some(work_zone), ..self }),
    {
        let mut s = self;
        s.work_zone = Some(work_zone);
        s
    }

    /// The scenario under another driver population.
    pub fn with_driver_population(self, population: DriverPopulation) -> (r: ReliabilityScenario)
        ensures
            r == (ReliabilityScenario { driver_population: population, ..self }),
    {
        let mut s = self;
        s.driver_population = population;
        s
    }
}

} // verus!
