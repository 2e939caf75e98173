//! The part of the unit conversions that is exact: names for directions.

use vstd::prelude::*;

verus! {

/// The number of points on the compass rose.
pub const COMPASS_POINTS: usize = 16;

/// The names of the points of the compass, clockwise from north, each
/// standing for a sector of 22.5 degrees.
pub open spec fn compass_names() -> Seq<Seq<char>> {
    seq![
        "N"@,
        "NNE"@,
        "NE"@,
        "ENE"@,
        "E"@,
        "ESE"@,
        "SE"@,
        "SSE"@,
        "S"@,
        "SSW"@,
        "SW"@,
        "WSW"@,
        "W"@,
        "WNW"@,
        "NW"@,
        "NNW"@,
    ]
}

/// The name of the compass point for a sector, counted clockwise from north.
/// Sectors beyond a full turn go round again.
pub fn compass_point(sector: usize) -> (name: &'static str)
    ensures
        name@ == compass_names()[(sector % COMPASS_POINTS) as int],
{
    let point = sector % COMPASS_POINTS;
    if point == 0 {
        "N"
    } else if point == 1 {
        "NNE"
    } else if point == 2 {
        "NE"
    } else if point == 3 {
        "ENE"
    } else if point == 4 {
        "E"
    } else if point == 5 {
        "ESE"
    } else if point == 6 {
        "SE"
    } else if point == 7 {
        "SSE"
    } else if point == 8 {
        "S"
    } else if point == 9 {
        "SSW"
    } else if point == 10 {
        "SW"
    } else if point == 11 {
        "WSW"
    } else if point == 12 {
        "W"
    } else if point == 13 {
        "WNW"
    } else if point == 14 {
        "NW"
    } else {
        "NNW"
    }
}

} // verus!
