//! Geometric design checks: vertical curve types and validation results.
use vstd::prelude::*;

verus! {

/// Vertical curve type.
#[derive(Debug, Clone, Copy, PartialEq, Eq, Structural)]
pub enum VerticalCurveType {
    /// Crest curve (hill): stopping sight distance controls.
    Crest,
    /// Sag curve (valley): headlight sight distance controls.
    Sag,
}

/// Result of a geometric design validation.
#[derive(Debug, Clone)]
pub struct GeometricValidationResult {
    /// Whether the design passes all checks.
    pub is_valid: bool,
    /// Issues found.
    pub issues: Vec<String>,
    /// Design speed (mi/h) that the geometry supports, if one was found.
    pub suggested_speed: Option<i32>,
}

impl GeometricValidationResult {
    /// A passing result: valid, with no issues and no suggested speed.
    pub fn pass() -> (r: GeometricValidationResult)
        ensures
            r.is_valid,
            r.issues@.len() == 0,
            r.suggested_speed is None,
    {
        GeometricValidationResult { is_valid: true, issues: Vec::new(), suggested_speed: None }
    }

    /// A failing result with its issues and suggested speed.
    pub fn fail(issues: Vec<String>, suggested_speed: Option<i32>) -> (r: GeometricValidationResult)
        ensures
            !r.is_valid,
            r.issues == issues,
            r.suggested_speed == suggested_speed,
    {
        GeometricValidationResult { is_valid: false, issues, suggested_speed }
    }
}

} // verus!
