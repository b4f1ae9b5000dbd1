//! Input constraints of the two-lane highway methodology: admissible ranges
//! of numeric parameters and admissible codes of enumerated ones, with their
//! sources.
//!
//! Numeric values are held in hundredths of their unit (`1050` is 10.5 ft).
use vstd::prelude::*;

verus! {

/// Constraint on an enumerated parameter: the codes that are admissible.
#[derive(Debug, Clone)]
pub struct EnumConstraint {
    /// Parameter name.
    pub name: String,
    /// Admissible codes.
    pub values: Vec<i32>,
    /// Label of each code.
    pub labels: Vec<String>,
    /// Manual or design-guide reference.
    pub source: String,
    /// Human-readable description.
    pub description: String,
}

/// Relies on std's `format!`: the message for a code outside the admissible ones.
#[verifier::external_body]
fn invalid_code_message(name: &String, value: i32, values: &Vec<i32>, source: &String) -> String {
    format!(
        "{} = {} is not a valid value. Must be one of {:?}. Source: {}",
        name,
        value,
        values,
        source,
    )
}

impl EnumConstraint {
    /// Whether a code is admissible.
    pub fn is_valid(&self, value: i32) -> (r: bool)
        ensures
            r == self.values@.contains(value),
    {
        let mut i: usize = 0;
        while i < self.values.len()
            invariant
                i <= self.values.len(),
                forall|j: int| 0 <= j < i ==> self.values@[j] != value,
            decreases self.values.len() - i,
        {
            if self.values[i] == value {
                return true;
            }
            i = i + 1;
        }
        false
    }

    /// None for an admissible code, else a message that names the parameter,
    /// the code, the admissible codes and the source.
    pub fn validate(&self, value: i32) -> (r: Option<String>)
        ensures
            r is None <==> self.values@.contains(value),
    {
        if self.is_valid(value) {
            None
        } else {
            Some(invalid_code_message(&self.name, value, &self.values, &self.source))
        }
    }
}

/// Passing type codes: 0 constrained, 1 zone, 2 lane.
pub fn passing_type_constraint() -> (r: EnumConstraint)
    ensures
        r.values@ == seq![0i32, 1, 2],
        r.name@ == "passing_type"@,
        r.labels.len() == r.values.len(),
{
    EnumConstraint {
        name: "passing_type".to_owned(),
        values: vec![0, 1, 2],
        labels: vec![
            "Passing Constrained (PC)".to_owned(),
            "Passing Zone (PZ)".to_owned(),
            "Passing Lane (PL)".to_owned(),
        ],
        source: "HCM 7th Edition, Chapter 15.3".to_owned(),
        description: "Segment passing type classification".to_owned(),
    }
}

/// Horizontal class codes: 0 (tangent) to 5 (severe curve).
pub fn horizontal_class_constraint() -> (r: EnumConstraint)
    ensures
        r.values@ == seq![0i32, 1, 2, 3, 4, 5],
        r.name@ == "hor_class"@,
        r.labels.len() == r.values.len(),
{
    EnumConstraint {
        name: "hor_class".to_owned(),
        values: vec![0, 1, 2, 3, 4, 5],
        labels: vec![
            "Tangent (no curve)".to_owned(),
            "Mild curve".to_owned(),
            "Moderate curve".to_owned(),
            "Sharp curve".to_owned(),
            "Very sharp curve".to_owned(),
            "Severe curve".to_owned(),
        ],
        source: "HCM 7th Edition, Exhibit 15-22".to_owned(),
        description: "Horizontal alignment class based on curve radius".to_owned(),
    }
}

/// Vertical class codes: 1 (level) to 5 (severe grade).
pub fn vertical_class_constraint() -> (r: EnumConstraint)
    ensures
        r.values@ == seq![1i32, 2, 3, 4, 5],
        r.name@ == "vertical_class"@,
        r.labels.len() == r.values.len(),
{
    EnumConstraint {
        name: "vertical_class".to_owned(),
        values: vec![1, 2, 3, 4, 5],
        labels: vec![
            "Level/gentle".to_owned(),
            "Mild grade".to_owned(),
            "Moderate grade".to_owned(),
            "Steep grade".to_owned(),
            "Severe grade".to_owned(),
        ],
        source: "HCM 7th Edition, Exhibit 15-11".to_owned(),
        description: "Vertical alignment class based on grade and length".to_owned(),
    }
}

/// Constraint on a numeric parameter: an inclusive range, in hundredths of
/// the parameter's unit.
#[derive(Debug, Clone)]
pub struct RangeConstraint {
    /// Parameter name.
    pub name: String,
    /// Least admissible value, hundredths of the unit.
    pub min: i64,
    /// Greatest admissible value, hundredths of the unit.
    pub max: i64,
    /// Unit of measurement.
    pub unit: String,
    /// Manual or design-guide reference.
    pub source: String,
    /// Human-readable description.
    pub description: String,
}

/// Relies on std's `format!`: a value given by sign, whole part and two
/// decimals, written as a decimal number.
#[verifier::external_body]
fn decimal_text(sign: &str, whole: u64, hundredths: u64) -> String {
    format!("{}{}.{:02}", sign, whole, hundredths)
}

/// A value in hundredths, written as a decimal number with two places.
fn hundredths_text(v: i64) -> String {
    let negative = v < 0;
    let magnitude: u64 = if negative {
        (-(v as i128)) as u64
    } else {
        v as u64
    };
    let sign = if negative {
        "-"
    } else {
        ""
    };
    decimal_text(sign, magnitude / 100, magnitude % 100)
}

/// Relies on std's `format!`: the message for a value outside its range.
#[verifier::external_body]
fn out_of_range_message(
    name: &String,
    value: &String,
    unit: &String,
    min: &String,
    max: &String,
    source: &String,
) -> String {
    format!("{} = {} {} is outside valid range [{}, {}]. Source: {}", name, value, unit, min, max, source)
}

impl RangeConstraint {
    /// Whether a value (hundredths of the unit) lies in the range, bounds included.
    pub fn is_valid(&self, value: i64) -> (r: bool)
        ensures
            r == (self.min <= value && value <= self.max),
    {
        value >= self.min && value <= self.max
    }

    /// None for a value in the range, else a message that names the
    /// parameter, the value, the range and the source.
    pub fn validate(&self, value: i64) -> (r: Option<String>)
        ensures
            r is None <==> (self.min <= value && value <= self.max),
    {
        if self.is_valid(value) {
            None
        } else {
            let v = hundredths_text(value);
            let lo = hundredths_text(self.min);
            let hi = hundredths_text(self.max);
            Some(out_of_range_message(&self.name, &v, &self.unit, &lo, &hi, &self.source))
        }
    }
}

fn range(name: &str, min: i64, max: i64, unit: &str, source: &str, description: &str) -> (r:
    RangeConstraint)
    ensures
        r.name@ == name@,
        r.min == min,
        r.max == max,
{
    RangeConstraint {
        name: name.to_owned(),
        min,
        max,
        unit: unit.to_owned(),
        source: source.to_owned(),
        description: description.to_owned(),
    }
}

/// Lane width: 9 to 12 ft.
pub fn lane_width_constraint() -> (r: RangeConstraint)
    ensures
        r.min == 900 && r.max == 1200,
{
    range("lane_width", 900, 1200, "ft", "HCM 7th Edition, Exhibit 15-8", "Lane width for two-lane highways")
}

/// Shoulder width: 0 to 8 ft.
pub fn shoulder_width_constraint() -> (r: RangeConstraint)
    ensures
        r.min == 0 && r.max == 800,
{
    range("shoulder_width", 0, 800, "ft", "HCM 7th Edition, Exhibit 15-8", "Paved shoulder width")
}

/// Grade: -10 % to +10 %.
pub fn grade_constraint() -> (r: RangeConstraint)
    ensures
        r.min == -1000 && r.max == 1000,
{
    range("grade", -1000, 1000, "%", "AASHTO Green Book, Chapter 3", "Segment grade percentage")
}

/// Peak hour factor: 0.5 to 1.0.
pub fn phf_constraint() -> (r: RangeConstraint)
    ensures
        r.min == 50 && r.max == 100,
{
    range("phf", 50, 100, "", "HCM 7th Edition, Chapter 15", "Peak hour factor")
}

/// Percent heavy vehicles: 0 to 100 %.
pub fn phv_constraint() -> (r: RangeConstraint)
    ensures
        r.min == 0 && r.max == 10000,
{
    range("phv", 0, 10000, "%", "HCM 7th Edition, Chapter 15", "Percentage of heavy vehicles in traffic stream")
}

/// Posted speed limit: 15 to 80 mi/h.
pub fn speed_limit_constraint() -> (r: RangeConstraint)
    ensures
        r.min == 1500 && r.max == 8000,
{
    range("spl", 1500, 8000, "mph", "AASHTO Green Book, Chapter 2", "Posted speed limit")
}

/// Access point density: 0 to 30 points/mi.
pub fn access_point_density_constraint() -> (r: RangeConstraint)
    ensures
        r.min == 0 && r.max == 3000,
{
    range("apd", 0, 3000, "points/mi", "HCM 7th Edition, Exhibit 15-6", "Access point density (driveways, intersections)")
}

/// Segment length: 0.25 to 3.0 mi.
pub fn segment_length_constraint() -> (r: RangeConstraint)
    ensures
        r.min == 25 && r.max == 300,
{
    range("length", 25, 300, "mi", "HCM 7th Edition, Exhibit 15-10", "Analysis segment length")
}

/// Whether an optional value is absent or within `[lo, hi]`.
pub open spec fn passes(v: Option<i64>, lo: i64, hi: i64) -> bool {
    match v {
        Some(x) => lo <= x && x <= hi,
        None => true,
    }
}

/// Whether an optional code is absent or among `codes`.
pub open spec fn passes_code(v: Option<i32>, codes: Seq<i32>) -> bool {
    match v {
        Some(x) => codes.contains(x),
        None => true,
    }
}

/// Number of the given inputs that break their constraint.
pub open spec fn violation_count(
    lane_width: Option<i64>,
    shoulder_width: Option<i64>,
    passing_type: Option<i32>,
    hor_class: Option<i32>,
    grade: Option<i64>,
    phf: Option<i64>,
    phv: Option<i64>,
    spl: Option<i64>,
) -> nat {
    (if passes(lane_width, 900, 1200) { 0nat } else { 1nat })
        + (if passes(shoulder_width, 0, 800) { 0nat } else { 1nat })
        + (if passes_code(passing_type, seq![0i32, 1, 2]) { 0nat } else { 1nat })
        + (if passes_code(hor_class, seq![0i32, 1, 2, 3, 4, 5]) { 0nat } else { 1nat })
        + (if passes(grade, -1000i64, 1000) { 0nat } else { 1nat })
        + (if passes(phf, 50, 100) { 0nat } else { 1nat })
        + (if passes(phv, 0, 10000) { 0nat } else { 1nat })
        + (if passes(spl, 1500, 8000) { 0nat } else { 1nat })
}

fn check_range(errors: &mut Vec<String>, c: &RangeConstraint, v: Option<i64>)
    ensures
        final(errors)@.len() == old(errors)@.len() + (if passes(v, c.min, c.max) {
            0int
        } else {
            1int
        }),
{
    if let Some(x) = v {
        if let Some(e) = c.validate(x) {
            errors.push(e);
        }
    }
}

fn check_code(errors: &mut Vec<String>, c: &EnumConstraint, v: Option<i32>)
    ensures
        final(errors)@.len() == old(errors)@.len() + (if passes_code(v, c.values@) {
            0int
        } else {
            1int
        }),
{
    if let Some(x) = v {
        if let Some(e) = c.validate(x) {
            errors.push(e);
        }
    }
}

/// Checks the given two-lane highway inputs (numeric ones in hundredths of
/// their unit) against their constraints: one message for each input that is
/// present and breaks its constraint, in parameter order; absent inputs are
/// not checked.
pub fn validate_two_lane_highway(
    lane_width: Option<i64>,
    shoulder_width: Option<i64>,
    passing_type: Option<i32>,
    hor_class: Option<i32>,
    grade: Option<i64>,
    phf: Option<i64>,
    phv: Option<i64>,
    spl: Option<i64>,
) -> (r: Vec<String>)
    ensures
        r@.len() == violation_count(
            lane_width,
            shoulder_width,
            passing_type,
            hor_class,
            grade,
            phf,
            phv,
            spl,
        ),
{
    let mut errors: Vec<String> = Vec::new();
    check_range(&mut errors, &lane_width_constraint(), lane_width);
    check_range(&mut errors, &shoulder_width_constraint(), shoulder_width);
    check_code(&mut errors, &passing_type_constraint(), passing_type);
    check_code(&mut errors, &horizontal_class_constraint(), hor_class);
    check_range(&mut errors, &grade_constraint(), grade);
    check_range(&mut errors, &phf_constraint(), phf);
    check_range(&mut errors, &phv_constraint(), phv);
    check_range(&mut errors, &speed_limit_constraint(), spl);
    errors
}

} // verus!
