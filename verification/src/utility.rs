//! Scalar coordinate-field rules (validity and clamping) and the named
//! compass bearings.
//!
//! Angles are ten-millionths of a degree (`e7`): latitude is valid in
//! [-90, 90] degrees, longitude in [-180, 180] degrees.  `wrap` clamps to the
//! nearest bound; out-of-range values are never normalized modularly.

use vstd::prelude::*;

verus! {

/// Ninety degrees in ten-millionths of a degree.
pub const E7_LAT_MAX: i64 = 900000000;

/// One hundred eighty degrees in ten-millionths of a degree.
pub const E7_LON_MAX: i64 = 1800000000;

/// Whether an `e7` latitude lies in [-90, 90] degrees.
pub open spec fn spec_lat_valid(v: int) -> bool {
    -900000000 <= v <= 900000000
}

/// Whether an `e7` longitude lies in [-180, 180] degrees.
pub open spec fn spec_lon_valid(v: int) -> bool {
    -1800000000 <= v <= 1800000000
}

/// An `e7` latitude clamped to [-90, 90] degrees.
pub open spec fn spec_lat_wrap(v: int) -> int {
    if v > 900000000 {
        900000000
    } else if v < -900000000 {
        -900000000
    } else {
        v
    }
}

/// An `e7` longitude clamped to [-180, 180] degrees.
pub open spec fn spec_lon_wrap(v: int) -> int {
    if v > 1800000000 {
        1800000000
    } else if v < -1800000000 {
        -1800000000
    } else {
        v
    }
}

/// Which scalar field of a coordinate a value stands for.
#[derive(Debug, Clone, Copy, PartialEq, Eq, Structural)]
pub enum CoordinateFieldType {
    Latitude,
    Longitude,
}

/// Validity and clamping of a single latitude or longitude scalar.
pub trait CoordinateField: Sized {
    /// What `valid` returns.
    spec fn spec_field_valid(&self, field_type: CoordinateFieldType) -> bool;

    /// What `wrap` returns.
    spec fn spec_field_wrap(&self, field_type: CoordinateFieldType) -> Self;

    /// Whether the value is in range for the field; no normalization is done.
    fn valid(&self, field_type: CoordinateFieldType) -> (r: bool)
        ensures
            r == self.spec_field_valid(field_type),
    ;

    /// The value clamped to the field's bounds (despite the name, this clamps
    /// to the nearest bound rather than wrapping modularly).
    fn wrap(&self, coordinate_field_type: CoordinateFieldType) -> (r: Self)
        ensures
            r == self.spec_field_wrap(coordinate_field_type),
    ;
}

impl CoordinateField for i64 {
    open spec fn spec_field_valid(&self, field_type: CoordinateFieldType) -> bool {
        match field_type {
            CoordinateFieldType::Latitude => spec_lat_valid(*self as int),
            CoordinateFieldType::Longitude => spec_lon_valid(*self as int),
        }
    }

    open spec fn spec_field_wrap(&self, field_type: CoordinateFieldType) -> i64 {
        match field_type {
            CoordinateFieldType::Latitude => spec_lat_wrap(*self as int) as i64,
            CoordinateFieldType::Longitude => spec_lon_wrap(*self as int) as i64,
        }
    }

    fn valid(&self, field_type: CoordinateFieldType) -> (r: bool) {
        match field_type {
            CoordinateFieldType::Latitude => *self >= -E7_LAT_MAX && *self <= E7_LAT_MAX,
            CoordinateFieldType::Longitude => *self >= -E7_LON_MAX && *self <= E7_LON_MAX,
        }
    }

    fn wrap(&self, coordinate_field_type: CoordinateFieldType) -> (r: i64) {
        match coordinate_field_type {
            CoordinateFieldType::Latitude => {
                if *self > E7_LAT_MAX {
                    E7_LAT_MAX
                } else if *self < -E7_LAT_MAX {
                    -E7_LAT_MAX
                } else {
                    *self
                }
            },
            CoordinateFieldType::Longitude => {
                if *self > E7_LON_MAX {
                    E7_LON_MAX
                } else if *self < -E7_LON_MAX {
                    -E7_LON_MAX
                } else {
                    *self
                }
            },
        }
    }
}

/// A named compass bearing.
#[derive(Debug, Clone, Copy, PartialEq, Eq, Structural)]
pub enum CardinalDirection {
    North,
    NorthEast,
    East,
    SouthEast,
    South,
    SouthWest,
    West,
    NorthWest,
}

/// The bearing of a cardinal direction in ten-millionths of a degree.
pub open spec fn spec_cardinal_degrees_e7(d: CardinalDirection) -> int {
    match d {
        CardinalDirection::North => 0,
        CardinalDirection::NorthEast => 450000000,
        CardinalDirection::East => 900000000,
        CardinalDirection::SouthEast => 1350000000,
        CardinalDirection::South => 1800000000,
        CardinalDirection::SouthWest => 2250000000,
        CardinalDirection::West => 2700000000,
        CardinalDirection::NorthWest => 3150000000,
    }
}

impl CardinalDirection {
    /// The bearing in ten-millionths of a degree, clockwise from north.
    pub fn to_degrees(&self) -> (r: i64)
        ensures
            r == spec_cardinal_degrees_e7(*self),
    {
        match self {
            CardinalDirection::North => 0,
            CardinalDirection::NorthEast => 450000000,
            CardinalDirection::East => 900000000,
            CardinalDirection::SouthEast => 1350000000,
            CardinalDirection::South => 1800000000,
            CardinalDirection::SouthWest => 2250000000,
            CardinalDirection::West => 2700000000,
            CardinalDirection::NorthWest => 3150000000,
        }
    }
}

} // verus!
