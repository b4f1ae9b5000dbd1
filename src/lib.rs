//! Highway Capacity Manual performance measures.
//!
//! The core is the two-lane highway segment pipeline: vertical and horizontal
//! alignment classes, demand flow and capacity, speeds, percent followers,
//! follower density, the downstream effect of passing lanes, and the level of
//! service of segments and facilities. Around it stand the level-of-service
//! tables of other facility types, input constraints, network topology types
//! and reliability-scenario inputs.
//!
//! Quantities are integers in fixed units, documented on each module.
use vstd::prelude::*;

pub mod adjustment_factors;
pub mod common;
pub mod constraints;
pub mod geometric;
pub mod managed_lanes;
pub mod merge_diverge;
pub mod topology;
pub mod twolanehighways;
pub mod weaving;

verus! {

} // verus!
