//! Compass point of a wind direction.
use vstd::prelude::*;

verus! {

/// One of eight compass points for a direction in degrees; anything past the
/// north-west sector wraps to north.
pub open spec fn compass_point(degree: int) -> Seq<char> {
    if 0 <= degree <= 22 {
        "N"@
    } else if 23 <= degree <= 67 {
        "NE"@
    } else if 68 <= degree <= 112 {
        "E"@
    } else if 113 <= degree <= 157 {
        "SE"@
    } else if 158 <= degree <= 202 {
        "S"@
    } else if 203 <= degree <= 247 {
        "SW"@
    } else if 248 <= degree <= 292 {
        "W"@
    } else if 293 <= degree <= 337 {
        "NW"@
    } else {
        "N"@
    }
}

pub fn degree_to_direction(degree: i16) -> (r: String)
    ensures
        r@ == compass_point(degree as int),
{
    let s = if 0 <= degree && degree <= 22 {
        "N"
    } else if 23 <= degree && degree <= 67 {
        "NE"
    } else if 68 <= degree && degree <= 112 {
        "E"
    } else if 113 <= degree && degree <= 157 {
        "SE"
    } else if 158 <= degree && degree <= 202 {
        "S"
    } else if 203 <= degree && degree <= 247 {
        "SW"
    } else if 248 <= degree && degree <= 292 {
        "W"
    } else if 293 <= degree && degree <= 337 {
        "NW"
    } else {
        "N"
    };
    String::from_str(s)
}

} // verus!
