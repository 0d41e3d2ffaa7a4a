//! Angle units and the conversions between them.

use vstd::prelude::*;

verus! {

/// The unit in which angles are given to, and returned by, the
/// trigonometric functions.
#[derive(Clone, Copy, Debug, PartialEq, Eq, Structural)]
pub enum Unit {
    Radians,
    Degrees,
}

/// The unit that is used where none is chosen.
pub const DEFAULT_ANGLE_UNIT: Unit = Unit::Radians;

/// What is done to a number to carry it from one angle unit to another.
#[derive(Clone, Copy, Debug, PartialEq, Eq, Structural)]
pub enum Conversion {
    /// The number is left as it is.
    Keep,
    /// The number is an angle in degrees and is turned into radians.
    DegreesToRadians,
    /// The number is an angle in radians and is turned into degrees.
    RadiansToDegrees,
}

/// The conversion that carries an angle in radians to `angle_unit`.
pub open spec fn spec_to_angle_unit(angle_unit: Unit) -> Conversion {
    match angle_unit {
        Unit::Radians => Conversion::Keep,
        Unit::Degrees => Conversion::RadiansToDegrees,
    }
}

/// The conversion that carries an angle in `angle_unit` to radians.
pub open spec fn spec_from_angle_unit(angle_unit: Unit) -> Conversion {
    match angle_unit {
        Unit::Radians => Conversion::Keep,
        Unit::Degrees => Conversion::DegreesToRadians,
    }
}

/// How a result in radians is turned into an angle in `angle_unit`.
pub fn to_angle_unit(angle_unit: &Unit) -> (conversion: Conversion)
    ensures
        conversion == spec_to_angle_unit(*angle_unit),
{
    match angle_unit {
        Unit::Radians => Conversion::Keep,
        Unit::Degrees => Conversion::RadiansToDegrees,
    }
}

/// How an argument in `angle_unit` is turned into an angle in radians.
pub fn from_angle_unit(angle_unit: &Unit) -> (conversion: Conversion)
    ensures
        conversion == spec_from_angle_unit(*angle_unit),
{
    match angle_unit {
        Unit::Radians => Conversion::Keep,
        Unit::Degrees => Conversion::DegreesToRadians,
    }
}

} // verus!
