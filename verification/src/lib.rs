//! Geodesic coordinate mathematics on a spherical Earth model.
//!
//! Latitudes, longitudes and azimuths are carried as signed integers counting
//! ten-millionths of a degree (written `e7` throughout), distances and
//! altitudes as integer millimeters.  This fixed-point grid is finer than the
//! library's own coordinate-equality tolerance of 3e-7 degrees, and it lets
//! every operation - the haversine distance, the forward azimuth, the direct
//! geodesic projection, and the rectangle algebra with its antimeridian and
//! pole handling - be specified and verified exactly.

pub mod coordinate;
pub mod errors;
pub mod fixed;
pub mod georectangle;
pub mod path;
pub mod trig;
pub mod utility;

use vstd::prelude::*;

verus! {

pub use coordinate::GeoCoordinate;
pub use coordinate::GeoCoordinateType;
pub use georectangle::GeoRectangle;
pub use path::GeoPath;
pub use path::GeoPathLengthType;
pub use utility::CardinalDirection;
pub use utility::CoordinateField;
pub use utility::CoordinateFieldType;

} // verus!
