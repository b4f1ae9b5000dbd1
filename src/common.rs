use vstd::prelude::*;

verus! {

/// Level of service, from A (best) to F (breakdown).
#[derive(Debug, Clone, Copy, PartialEq, Eq, Structural)]
pub enum LevelOfService {
    A,
    B,
    C,
    D,
    E,
    F,
}

/// The letter of a level of service.
pub open spec fn los_letter(los: LevelOfService) -> char {
    match los {
        LevelOfService::A => 'A',
        LevelOfService::B => 'B',
        LevelOfService::C => 'C',
        LevelOfService::D => 'D',
        LevelOfService::E => 'E',
        LevelOfService::F => 'F',
    }
}

/// The level of service that a letter names, in either case; any other
/// character reads as the worst level, F.
pub open spec fn los_of_letter(c: char) -> LevelOfService {
    if c == 'A' || c == 'a' {
        LevelOfService::A
    } else if c == 'B' || c == 'b' {
        LevelOfService::B
    } else if c == 'C' || c == 'c' {
        LevelOfService::C
    } else if c == 'D' || c == 'd' {
        LevelOfService::D
    } else if c == 'E' || c == 'e' {
        LevelOfService::E
    } else {
        LevelOfService::F
    }
}

impl LevelOfService {
    /// The letter of this level of service.
    pub fn to_char(&self) -> (r: char)
        ensures
            r == los_letter(*self),
    {
        match self {
            LevelOfService::A => 'A',
            LevelOfService::B => 'B',
            LevelOfService::C => 'C',
            LevelOfService::D => 'D',
            LevelOfService::E => 'E',
            LevelOfService::F => 'F',
        }
    }

    /// The letter of this level of service, as a one-letter string.
    pub fn to_string(&self) -> (r: String)
        ensures
            r@ == seq![los_letter(*self)],
    {
        let r = match self {
            LevelOfService::A => "A".to_owned(),
            LevelOfService::B => "B".to_owned(),
            LevelOfService::C => "C".to_owned(),
            LevelOfService::D => "D".to_owned(),
            LevelOfService::E => "E".to_owned(),
            LevelOfService::F => "F".to_owned(),
        };
        proof {
            reveal_strlit("A");
            reveal_strlit("B");
            reveal_strlit("C");
            reveal_strlit("D");
            reveal_strlit("E");
            reveal_strlit("F");
            assert(r@ =~= seq![los_letter(*self)]);
        }
        r
    }
}

impl From<char> for LevelOfService {
    fn from(c: char) -> (r: LevelOfService)
        ensures
            r == los_of_letter(c),
    {
        if c == 'A' || c == 'a' {
            LevelOfService::A
        } else if c == 'B' || c == 'b' {
            LevelOfService::B
        } else if c == 'C' || c == 'c' {
            LevelOfService::C
        } else if c == 'D' || c == 'd' {
            LevelOfService::D
        } else if c == 'E' || c == 'e' {
            LevelOfService::E
        } else {
            LevelOfService::F
        }
    }
}

impl vstd::std_specs::convert::FromSpecImpl<char> for LevelOfService {
    open spec fn obeys_from_spec() -> bool {
        true
    }

    open spec fn from_spec(c: char) -> LevelOfService {
        los_of_letter(c)
    }
}

impl From<LevelOfService> for char {
    fn from(los: LevelOfService) -> (r: char)
        ensures
            r == los_letter(los),
    {
        los.to_char()
    }
}

impl vstd::std_specs::convert::FromSpecImpl<LevelOfService> for char {
    open spec fn obeys_from_spec() -> bool {
        true
    }

    open spec fn from_spec(los: LevelOfService) -> char {
        los_letter(los)
    }
}

/// Reading a level's letter back gives the same level.
pub proof fn lemma_letter_round_trip(los: LevelOfService)
    ensures
        los_of_letter(los_letter(los)) == los,
{
}

/// City type, for urban and rural contexts.
#[derive(Debug, Clone, Copy, PartialEq, Eq, Structural)]
pub enum CityType {
    Urban,
    Rural,
}

/// Facility types of the Highway Capacity Manual.
#[derive(Debug, Clone, Copy, PartialEq, Eq, Structural)]
pub enum FacilityType {
    TwoLaneHighway,
    BasicFreeway,
    MultilaneHighway,
    UrbanStreet,
    Intersection,
    Interchange,
}

/// Number of lanes and speed limit (mi/h) that select a base lane capacity.
pub struct BaseLaneCapacity {
    pub number_of_lanes: u32,
    pub speed_limit: u32,
}

/// Base capacity of a single-lane section, pc/h/ln, by speed limit.
pub open spec fn single_lane_capacity_of(speed_limit: u32) -> Option<u32> {
    if speed_limit == 75 || speed_limit == 70 {
        Some(2400)
    } else if speed_limit == 65 {
        Some(2350)
    } else if speed_limit == 60 {
        Some(2300)
    } else if speed_limit == 55 {
        Some(2250)
    } else {
        None
    }
}

/// Base capacity of a multi-lane section, pc/h/ln, by speed limit.
pub open spec fn multi_lanes_capacity_of(speed_limit: u32) -> Option<u32> {
    if speed_limit == 70 || speed_limit == 65 {
        Some(2300)
    } else if speed_limit == 60 {
        Some(2200)
    } else if speed_limit == 55 {
        Some(2100)
    } else if speed_limit == 50 {
        Some(2000)
    } else if speed_limit == 45 {
        Some(1900)
    } else {
        None
    }
}

/// Base capacity by number of lanes: none for zero lanes.
pub open spec fn lane_capacity_of(number_of_lanes: u32, speed_limit: u32) -> Option<u32> {
    if number_of_lanes == 1 {
        single_lane_capacity_of(speed_limit)
    } else if number_of_lanes >= 2 {
        multi_lanes_capacity_of(speed_limit)
    } else {
        None
    }
}

/// Base lane capacity lookup.
pub trait LaneCapacity {
    fn calculate_capacity(&self) -> Option<u32>;

    fn single_lane_capacity(&self) -> Option<u32>;

    fn multi_lanes_capacity(&self) -> Option<u32>;
}

impl LaneCapacity for BaseLaneCapacity {
    fn calculate_capacity(&self) -> (r: Option<u32>)
        ensures
            r == lane_capacity_of(self.number_of_lanes, self.speed_limit),
    {
        if self.number_of_lanes == 1 {
            self.single_lane_capacity()
        } else if self.number_of_lanes >= 2 {
            self.multi_lanes_capacity()
        } else {
            None
        }
    }

    /// Single-lane capacity, pc/h/ln.
    fn single_lane_capacity(&self) -> (r: Option<u32>)
        ensures
            r == single_lane_capacity_of(self.speed_limit),
    {
        match self.speed_limit {
            75 => Some(2400),
            70 => Some(2400),
            65 => Some(2350),
            60 => Some(2300),
            55 => Some(2250),
            _ => None,
        }
    }

    /// Multi-lane capacity, pc/h/ln.
    fn multi_lanes_capacity(&self) -> (r: Option<u32>)
        ensures
            r == multi_lanes_capacity_of(self.speed_limit),
    {
        match self.speed_limit {
            70 => Some(2300),
            65 => Some(2300),
            60 => Some(2200),
            55 => Some(2100),
            50 => Some(2000),
            45 => Some(1900),
            _ => None,
        }
    }
}

/// Rank of a level of service: 0 for A up to 5 for F.
pub open spec fn los_rank(los: LevelOfService) -> int {
    match los {
        LevelOfService::A => 0,
        LevelOfService::B => 1,
        LevelOfService::C => 2,
        LevelOfService::D => 3,
        LevelOfService::E => 4,
        LevelOfService::F => 5,
    }
}

/// Upper density bounds (hundredths of a vehicle per mile per lane) of
/// levels A to E; with no bound for E, no density reaches F.
#[derive(Debug, Clone, Copy, PartialEq, Eq, Structural)]
pub struct DensityThresholds {
    pub los_a: u64,
    pub los_b: u64,
    pub los_c: u64,
    pub los_d: u64,
    pub los_e: Option<u64>,
}

/// Whether the bounds rise from A to E.
pub open spec fn thresholds_ordered(t: DensityThresholds) -> bool {
    &&& t.los_a <= t.los_b <= t.los_c <= t.los_d
    &&& t.los_e matches Some(e) ==> t.los_d <= e
}

/// Level of service of a density: F when demand exceeds capacity, else the
/// first level whose bound the density does not exceed.
pub open spec fn los_from_density_of(d: int, t: DensityThresholds, over_capacity: bool) -> LevelOfService {
    if over_capacity {
        LevelOfService::F
    } else if d <= t.los_a {
        LevelOfService::A
    } else if d <= t.los_b {
        LevelOfService::B
    } else if d <= t.los_c {
        LevelOfService::C
    } else if d <= t.los_d {
        LevelOfService::D
    } else {
        match t.los_e {
            Some(e) => if d <= e {
                LevelOfService::E
            } else {
                LevelOfService::F
            },
            None => LevelOfService::E,
        }
    }
}

/// Level of service from a density (hundredths of a vehicle per mile per
/// lane) under a table of bounds; F when demand exceeds capacity.
pub fn los_from_density(density: u64, thresholds: &DensityThresholds, over_capacity: bool) -> (r:
    LevelOfService)
    ensures
        r == los_from_density_of(density as int, *thresholds, over_capacity),
{
    let t = thresholds;
    if over_capacity {
        LevelOfService::F
    } else if density <= t.los_a {
        LevelOfService::A
    } else if density <= t.los_b {
        LevelOfService::B
    } else if density <= t.los_c {
        LevelOfService::C
    } else if density <= t.los_d {
        LevelOfService::D
    } else {
        match t.los_e {
            Some(e) => if density <= e {
                LevelOfService::E
            } else {
                LevelOfService::F
            },
            None => LevelOfService::E,
        }
    }
}

/// Under bounds that rise from A to E, a denser stream never gets a better
/// level of service.
pub proof fn lemma_los_monotone_in_density(d1: int, d2: int, t: DensityThresholds, over: bool)
    requires
        thresholds_ordered(t),
        d1 <= d2,
    ensures
        los_rank(los_from_density_of(d1, t, over)) <= los_rank(los_from_density_of(d2, t, over)),
{
}

/// Basic freeway segments: 11, 18, 26, 35 and 45 pc/mi/ln.
pub fn basic_freeway_thresholds() -> (r: DensityThresholds)
    ensures
        r == (DensityThresholds { los_a: 1100, los_b: 1800, los_c: 2600, los_d: 3500, los_e: Some(4500u64) }),
        thresholds_ordered(r),
{
    DensityThresholds { los_a: 1100, los_b: 1800, los_c: 2600, los_d: 3500, los_e: Some(4500) }
}

/// Multilane highway segments: 11, 18, 26, 35 and 40 pc/mi/ln.
pub fn multilane_highway_thresholds() -> (r: DensityThresholds)
    ensures
        r == (DensityThresholds { los_a: 1100, los_b: 1800, los_c: 2600, los_d: 3500, los_e: Some(4000u64) }),
        thresholds_ordered(r),
{
    DensityThresholds { los_a: 1100, los_b: 1800, los_c: 2600, los_d: 3500, los_e: Some(4000) }
}

/// Rural facilities and urban streets: 6, 14, 22, 29 and 39 per mile per lane.
pub fn rural_thresholds() -> (r: DensityThresholds)
    ensures
        r == (DensityThresholds { los_a: 600, los_b: 1400, los_c: 2200, los_d: 2900, los_e: Some(3900u64) }),
        thresholds_ordered(r),
{
    DensityThresholds { los_a: 600, los_b: 1400, los_c: 2200, los_d: 2900, los_e: Some(3900) }
}

/// Merge and diverge influence areas: 10, 20, 28 and 35 pc/mi/ln; any
/// denser stream is E, F coming only from demand over capacity.
pub fn ramp_thresholds() -> (r: DensityThresholds)
    ensures
        r == (DensityThresholds { los_a: 1000, los_b: 2000, los_c: 2800, los_d: 3500, los_e: None }),
        thresholds_ordered(r),
{
    DensityThresholds { los_a: 1000, los_b: 2000, los_c: 2800, los_d: 3500, los_e: None }
}

/// Freeway weaving segments: 10, 20, 28, 35 and 43 pc/mi/ln.
pub fn freeway_weaving_thresholds() -> (r: DensityThresholds)
    ensures
        r == (DensityThresholds { los_a: 1000, los_b: 2000, los_c: 2800, los_d: 3500, los_e: Some(4300u64) }),
        thresholds_ordered(r),
{
    DensityThresholds { los_a: 1000, los_b: 2000, los_c: 2800, los_d: 3500, los_e: Some(4300) }
}

/// Multilane highway and collector-distributor weaving segments: 12, 24, 32,
/// 36 and 40 pc/mi/ln.
pub fn multilane_weaving_thresholds() -> (r: DensityThresholds)
    ensures
        r == (DensityThresholds { los_a: 1200, los_b: 2400, los_c: 3200, los_d: 3600, los_e: Some(4000u64) }),
        thresholds_ordered(r),
{
    DensityThresholds { los_a: 1200, los_b: 2400, los_c: 3200, los_d: 3600, los_e: Some(4000) }
}

} // verus!
