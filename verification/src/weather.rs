//! The vocabulary in which weather is described to the user.

use vstd::prelude::*;

verus! {

/// The state of the sky.
#[derive(Clone, Copy, Debug, PartialEq, Eq, Structural)]
pub enum Condition {
    Clear,
    Overcast,
    Rain,
    Snow,
}

/// A hazard for which a warning is in force.
#[derive(Clone, Copy, Debug, PartialEq, Eq, Structural)]
pub enum Warning {
    Tornado,
    Flood,
    Hail,
}

/// The system of units in which readings are shown.
#[derive(Clone, Copy, Debug, PartialEq, Eq, Structural)]
pub enum Units {
    Metric,
    Imperial,
}

} // verus!
