//! A point on the spherical Earth model, with geodesic operations.
//!
//! Latitude and longitude are ten-millionths of a degree (`e7`), altitude is
//! millimeters.  A coordinate is valid iff latitude lies in [-90, 90] degrees
//! and longitude in [-180, 180] degrees; the default coordinate carries the
//! out-of-range sentinel `E7_NOT_A_COORDINATE` in both angle fields and
//! stands for "not a coordinate", the canonical invalid value.
//!
//! Distance, azimuth and projection run on the crate's verified fixed-point
//! trigonometry; each operation's contract pins the exact integer result
//! through a specification twin of the computation.

use vstd::prelude::*;
use crate::errors::PositioningError;
use crate::fixed::FP_ONE;
use crate::fixed::FP_ONE_I;
use crate::fixed::spec_abs;
use crate::fixed::spec_half;
use crate::fixed::spec_smul_fp;
use crate::fixed::lemma_smul_fp_bound;
use crate::fixed::lemma_smul_fp_comm;
use crate::fixed::smul_fp;
use crate::trig::spec_sin_fp;
use crate::trig::spec_cos_fp;
use crate::trig::spec_asin_fp;
use crate::trig::spec_sqrt_fp;
use crate::trig::spec_atan2_fp;
use crate::trig::spec_deg_e7_to_rad;
use crate::trig::spec_rad_to_deg_e7;
use crate::trig::sin_fp;
use crate::trig::cos_fp;
use crate::trig::asin_fp;
use crate::trig::sqrt_fp;
use crate::trig::atan2_fp;
use crate::trig::deg_e7_to_rad;
use crate::trig::rad_to_deg_e7;
use crate::utility::CoordinateField;
use crate::utility::CoordinateFieldType;
use crate::utility::spec_lat_valid;
use crate::utility::spec_lon_valid;
use crate::utility::spec_lon_wrap;

verus! {

/// The Earth mean radius, in millimeters.
pub const EARTH_MEAN_RADIUS_MM: i64 = 6371008800;

/// Twice the Earth mean radius, in millimeters.
pub const EARTH_MEAN_DIAMETER_MM: i128 = 12742017600;

/// The sentinel an angle field of the default (invalid) coordinate carries.
pub const E7_NOT_A_COORDINATE: i64 = i64::MIN;

/// The standard tolerance of coordinate equality: 3e-7 degrees.
pub const COORDINATE_EPSILON_E7: i64 = 3;

/// Classification of a coordinate: out of range, or a 2D/3D point.
#[derive(Debug, Clone, Copy, PartialEq, Eq, Structural)]
pub enum GeoCoordinateType {
    InvalidCoordinate,
    Coordinate2D,
    Coordinate3D,
}

/// A point on the sphere: latitude and longitude in ten-millionths of a
/// degree, optional altitude in millimeters.
#[derive(Debug, Clone, Copy)]
pub struct GeoCoordinate {
    pub latitude_e7: i64,
    pub longitude_e7: i64,
    pub altitude_mm: Option<i64>,
}

/// Whether both angle fields are in range.
pub open spec fn spec_coord_valid(c: GeoCoordinate) -> bool {
    spec_lat_valid(c.latitude_e7 as int) && spec_lon_valid(c.longitude_e7 as int)
}

/// The classification `coordinate_type` returns.
pub open spec fn spec_coordinate_type(c: GeoCoordinate) -> GeoCoordinateType {
    if !spec_coord_valid(c) {
        GeoCoordinateType::InvalidCoordinate
    } else if c.altitude_mm is Some {
        GeoCoordinateType::Coordinate3D
    } else {
        GeoCoordinateType::Coordinate2D
    }
}

/// The default, invalid coordinate.
pub open spec fn spec_default_coordinate() -> GeoCoordinate {
    GeoCoordinate {
        latitude_e7: E7_NOT_A_COORDINATE,
        longitude_e7: E7_NOT_A_COORDINATE,
        altitude_mm: None,
    }
}

/// Approximate equality: both angles within `eps`, and altitude either absent
/// on both sides or present on both sides and within `eps`.
pub open spec fn spec_approx_eq(a: GeoCoordinate, b: GeoCoordinate, eps: int) -> bool {
    &&& spec_abs(a.latitude_e7 - b.latitude_e7) <= eps
    &&& spec_abs(a.longitude_e7 - b.longitude_e7) <= eps
    &&& if a.altitude_mm is Some && b.altitude_mm is Some {
        spec_abs(a.altitude_mm->0 - b.altitude_mm->0) <= eps
    } else {
        a.altitude_mm is None && b.altitude_mm is None
    }
}

/// The haversine great-circle distance in millimeters, as the fixed-point
/// pipeline computes it: `2 R asin(sqrt(sin^2(dlat/2) + cos(lat1) cos(lat2)
/// sin^2(dlon/2)))`.
#[verifier::opaque]
pub open spec fn spec_distance_mm(a: GeoCoordinate, b: GeoCoordinate) -> int {
    let dlat = spec_abs(b.latitude_e7 - a.latitude_e7);
    let dlon = spec_abs(b.longitude_e7 - a.longitude_e7);
    let s1 = spec_sin_fp(spec_half(spec_deg_e7_to_rad(dlat)));
    let s2 = spec_sin_fp(spec_half(spec_deg_e7_to_rad(dlon)));
    let c1 = spec_cos_fp(spec_deg_e7_to_rad(a.latitude_e7 as int));
    let c2 = spec_cos_fp(spec_deg_e7_to_rad(b.latitude_e7 as int));
    let t = spec_smul_fp(s1, s1) + spec_smul_fp(spec_smul_fp(c1, c2), spec_smul_fp(s2, s2));
    let acl = if t > FP_ONE as int {
        FP_ONE as int
    } else if t < 0 {
        0
    } else {
        t
    };
    let h = spec_asin_fp(spec_sqrt_fp(acl));
    (EARTH_MEAN_DIAMETER_MM as int * h) / (FP_ONE as int)
}

/// The initial great-circle bearing in ten-millionths of a degree, normalized
/// into [0, 360) degrees: `atan2(sin(dlon) cos(lat2), cos(lat1) sin(lat2) -
/// sin(lat1) cos(lat2) cos(dlon))`, shifted by a full turn and reduced.
#[verifier::opaque]
pub open spec fn spec_azimuth_e7(a: GeoCoordinate, b: GeoCoordinate) -> int {
    let dl = spec_deg_e7_to_rad(b.longitude_e7 - a.longitude_e7);
    let p1 = spec_deg_e7_to_rad(a.latitude_e7 as int);
    let p2 = spec_deg_e7_to_rad(b.latitude_e7 as int);
    let y = spec_smul_fp(spec_sin_fp(dl), spec_cos_fp(p2));
    let x = spec_smul_fp(spec_cos_fp(p1), spec_sin_fp(p2)) - spec_smul_fp(
        spec_sin_fp(p1),
        spec_smul_fp(spec_cos_fp(p2), spec_cos_fp(dl)),
    );
    let az0 = spec_rad_to_deg_e7(spec_atan2_fp(y, x)) + 3600000000;
    if az0 >= 3600000000 {
        az0 - 3600000000
    } else {
        az0
    }
}

/// The truncating fixed-point ratio `distance / R` of the projection.
pub open spec fn spec_distance_ratio(d: int) -> int {
    if d >= 0 {
        (d * (FP_ONE as int)) / (EARTH_MEAN_RADIUS_MM as int)
    } else {
        -(((-d) * (FP_ONE as int)) / (EARTH_MEAN_RADIUS_MM as int))
    }
}

/// The destination of the direct geodesic projection from `a` over `d_mm`
/// millimeters along bearing `az_e7`: latitude from `asin(sin(lat) cos(d/R) +
/// cos(lat) sin(d/R) cos(az))`, longitude offset by the matching `atan2` term
/// and clamped to [-180, 180] degrees, altitude carried through.
#[verifier::opaque]
pub open spec fn spec_at_distance_and_azimuth(a: GeoCoordinate, d_mm: int, az_e7: int)
    -> GeoCoordinate {
    let ratio = spec_distance_ratio(d_mm);
    let sr = spec_sin_fp(ratio);
    let cr = spec_cos_fp(ratio);
    let th = spec_deg_e7_to_rad(az_e7);
    let sa = spec_sin_fp(th);
    let ca = spec_cos_fp(th);
    let p1 = spec_deg_e7_to_rad(a.latitude_e7 as int);
    let s1 = spec_sin_fp(p1);
    let c1 = spec_cos_fp(p1);
    let sl0 = spec_smul_fp(s1, cr) + spec_smul_fp(spec_smul_fp(c1, sr), ca);
    let sl = if sl0 > FP_ONE as int {
        FP_ONE as int
    } else if sl0 < -(FP_ONE as int) {
        -(FP_ONE as int)
    } else {
        sl0
    };
    let lat = spec_asin_fp(sl);
    let y = spec_smul_fp(sa, spec_smul_fp(sr, c1));
    let x = cr - spec_smul_fp(s1, sl);
    let dl = spec_atan2_fp(y, x);
    GeoCoordinate {
        latitude_e7: spec_rad_to_deg_e7(lat) as i64,
        longitude_e7: spec_lon_wrap(a.longitude_e7 + spec_rad_to_deg_e7(dl)) as i64,
        altitude_mm: a.altitude_mm,
    }
}

/// Distance is symmetric: swapping the endpoints gives the same value.
pub proof fn lemma_distance_symmetric(a: GeoCoordinate, b: GeoCoordinate)
    ensures
        spec_distance_mm(a, b) == spec_distance_mm(b, a),
{
    reveal(spec_distance_mm);
    lemma_smul_fp_comm(
        spec_cos_fp(spec_deg_e7_to_rad(a.latitude_e7 as int)),
        spec_cos_fp(spec_deg_e7_to_rad(b.latitude_e7 as int)),
    );
    assert(spec_abs(b.latitude_e7 - a.latitude_e7) == spec_abs(a.latitude_e7 - b.latitude_e7));
    assert(spec_abs(b.longitude_e7 - a.longitude_e7) == spec_abs(a.longitude_e7 - b.longitude_e7));
}

/// The default coordinate is never valid; it is approximately equal to
/// another default, and to no valid coordinate at any tolerance up to a full
/// turn.
pub proof fn lemma_default_coordinate()
    ensures
        !spec_coord_valid(spec_default_coordinate()),
        spec_approx_eq(spec_default_coordinate(), spec_default_coordinate(), 3),
        forall|c: GeoCoordinate, eps: int|
            spec_coord_valid(c) && 0 <= eps <= 3600000000 ==> !spec_approx_eq(
                spec_default_coordinate(),
                c,
                eps,
            ),
{
}

impl Default for GeoCoordinate {
    /// The canonical invalid coordinate: both angle fields hold the sentinel.
    fn default() -> (r: Self)
        ensures
            r == spec_default_coordinate(),
    {
        GeoCoordinate {
            latitude_e7: E7_NOT_A_COORDINATE,
            longitude_e7: E7_NOT_A_COORDINATE,
            altitude_mm: None,
        }
    }
}

impl GeoCoordinate {
    /// A coordinate from its raw fields: angles in ten-millionths of a
    /// degree, altitude in millimeters.
    pub fn new(latitude: i64, longitude: i64, altitude: Option<i64>) -> (r: Self)
        ensures
            r.latitude_e7 == latitude,
            r.longitude_e7 == longitude,
            r.altitude_mm == altitude,
    {
        GeoCoordinate { latitude_e7: latitude, longitude_e7: longitude, altitude_mm: altitude }
    }

    /// Classifies the coordinate: out of range, or a 2D/3D point.
    pub fn coordinate_type(&self) -> (r: GeoCoordinateType)
        ensures
            r == spec_coordinate_type(*self),
    {
        if self.latitude_e7.valid(CoordinateFieldType::Latitude) && self.longitude_e7.valid(
            CoordinateFieldType::Longitude,
        ) {
            return if self.altitude_mm.is_some() {
                GeoCoordinateType::Coordinate3D
            } else {
                GeoCoordinateType::Coordinate2D
            };
        }
        GeoCoordinateType::InvalidCoordinate
    }

    /// Whether both angles are in range.
    pub fn valid(&self) -> (r: bool)
        ensures
            r == spec_coord_valid(*self),
    {
        self.coordinate_type() != GeoCoordinateType::InvalidCoordinate
    }

    /// Approximate equality within `epsilon_e7` ten-millionths of a degree on
    /// the angles (and as many millimeters on the altitude): the tolerance is
    /// explicit at every call site.
    pub fn approx_eq(&self, other: &GeoCoordinate, epsilon_e7: i64) -> (r: bool)
        ensures
            r == spec_approx_eq(*self, *other, epsilon_e7 as int),
    {
        let dlat: i128 = self.latitude_e7 as i128 - other.latitude_e7 as i128;
        let alat: i128 = if dlat < 0 {
            -dlat
        } else {
            dlat
        };
        if alat > epsilon_e7 as i128 {
            return false;
        }
        let dlon: i128 = self.longitude_e7 as i128 - other.longitude_e7 as i128;
        let alon: i128 = if dlon < 0 {
            -dlon
        } else {
            dlon
        };
        if alon > epsilon_e7 as i128 {
            return false;
        }
        match (self.altitude_mm, other.altitude_mm) {
            (Option::None, Option::None) => true,
            (Option::Some(x), Option::Some(y)) => {
                let dalt: i128 = x as i128 - y as i128;
                let aalt: i128 = if dalt < 0 {
                    -dalt
                } else {
                    dalt
                };
                aalt <= epsilon_e7 as i128
            },
            _ => false,
        }
    }

    /// The initial great-circle bearing from `self` toward `other`, in
    /// ten-millionths of a degree, in [0, 360) degrees.  Fails with the
    /// offending coordinate when either endpoint is invalid.
    pub fn azimuth_to(&self, other: &GeoCoordinate) -> (r: Result<i64, PositioningError>)
        ensures
            !spec_coord_valid(*self) ==> r == Err::<i64, PositioningError>(
                PositioningError::InvalidCoordinate(*self),
            ),
            spec_coord_valid(*self) && !spec_coord_valid(*other) ==> r == Err::<
                i64,
                PositioningError,
            >(PositioningError::InvalidCoordinate(*other)),
            spec_coord_valid(*self) && spec_coord_valid(*other) ==> r == Ok::<
                i64,
                PositioningError,
            >(spec_azimuth_e7(*self, *other) as i64) && 0 <= spec_azimuth_e7(*self, *other)
                < 3600000000,
    {
        proof {
            reveal(spec_azimuth_e7);
        }
        if !self.valid() {
            return Err(PositioningError::InvalidCoordinate(*self));
        }
        if !other.valid() {
            return Err(PositioningError::InvalidCoordinate(*other));
        }
        let dl: i128 = deg_e7_to_rad(other.longitude_e7 - self.longitude_e7);
        let p1: i128 = deg_e7_to_rad(self.latitude_e7);
        let p2: i128 = deg_e7_to_rad(other.latitude_e7);
        let sdl: i128 = sin_fp(dl);
        let cdl: i128 = cos_fp(dl);
        let s1: i128 = sin_fp(p1);
        let c1: i128 = cos_fp(p1);
        let s2: i128 = sin_fp(p2);
        let c2: i128 = cos_fp(p2);
        let y: i128 = smul_fp(sdl, c2);
        let ccd: i128 = smul_fp(c2, cdl);
        proof {
            lemma_smul_fp_bound(sdl as int, c2 as int, FP_ONE as int, FP_ONE as int);
            lemma_smul_fp_bound(c2 as int, cdl as int, FP_ONE as int, FP_ONE as int);
        }
        let x1: i128 = smul_fp(c1, s2);
        let x2: i128 = smul_fp(s1, ccd);
        proof {
            lemma_smul_fp_bound(c1 as int, s2 as int, FP_ONE as int, FP_ONE as int);
            lemma_smul_fp_bound(s1 as int, ccd as int, FP_ONE as int, FP_ONE as int);
        }
        let x: i128 = x1 - x2;
        let azr: i128 = atan2_fp(y, x);
        let deg: i64 = rad_to_deg_e7(azr);
        let az0: i64 = deg + 3600000000;
        if az0 >= 3600000000 {
            Ok(az0 - 3600000000)
        } else {
            Ok(az0)
        }
    }

    /// The haversine great-circle distance from `self` to `other`, in
    /// millimeters.  Fails with the offending coordinate when either endpoint
    /// is invalid; a successful result is non-negative.
    pub fn distance_to(&self, other: &GeoCoordinate) -> (r: Result<i64, PositioningError>)
        ensures
            !spec_coord_valid(*self) ==> r == Err::<i64, PositioningError>(
                PositioningError::InvalidCoordinate(*self),
            ),
            spec_coord_valid(*self) && !spec_coord_valid(*other) ==> r == Err::<
                i64,
                PositioningError,
            >(PositioningError::InvalidCoordinate(*other)),
            spec_coord_valid(*self) && spec_coord_valid(*other) ==> r == Ok::<
                i64,
                PositioningError,
            >(spec_distance_mm(*self, *other) as i64) && 0 <= spec_distance_mm(*self, *other)
                <= 21000000000,
    {
        proof {
            reveal(spec_distance_mm);
        }
        if !self.valid() {
            return Err(PositioningError::InvalidCoordinate(*self));
        }
        if !other.valid() {
            return Err(PositioningError::InvalidCoordinate(*other));
        }
        let dlat: i64 = if other.latitude_e7 >= self.latitude_e7 {
            other.latitude_e7 - self.latitude_e7
        } else {
            self.latitude_e7 - other.latitude_e7
        };
        let dlon: i64 = if other.longitude_e7 >= self.longitude_e7 {
            other.longitude_e7 - self.longitude_e7
        } else {
            self.longitude_e7 - other.longitude_e7
        };
        let s1: i128 = sin_fp(deg_e7_to_rad(dlat) / 2);
        let s2: i128 = sin_fp(deg_e7_to_rad(dlon) / 2);
        let c1: i128 = cos_fp(deg_e7_to_rad(self.latitude_e7));
        let c2: i128 = cos_fp(deg_e7_to_rad(other.latitude_e7));
        let s1s: i128 = smul_fp(s1, s1);
        let s2s: i128 = smul_fp(s2, s2);
        let cc: i128 = smul_fp(c1, c2);
        proof {
            lemma_smul_fp_bound(s1 as int, s1 as int, FP_ONE as int, FP_ONE as int);
            lemma_smul_fp_bound(s2 as int, s2 as int, FP_ONE as int, FP_ONE as int);
            lemma_smul_fp_bound(c1 as int, c2 as int, FP_ONE as int, FP_ONE as int);
        }
        let ccs: i128 = smul_fp(cc, s2s);
        proof {
            lemma_smul_fp_bound(cc as int, s2s as int, FP_ONE as int, FP_ONE as int);
        }
        let t: i128 = s1s + ccs;
        let acl: i128 = if t > FP_ONE_I {
            FP_ONE_I
        } else if t < 0 {
            0
        } else {
            t
        };
        let z: u128 = sqrt_fp(acl as u128);
        let h: i128 = asin_fp(z as i128);
        let p: i128 = EARTH_MEAN_DIAMETER_MM * h;
        let d: i128 = p / FP_ONE_I;
        Ok(d as i64)
    }

    /// The destination reached from `self` after `distance_mm` millimeters
    /// along bearing `azimuth_e7` (a negative distance reverses the
    /// direction).  The result carries the source altitude, its longitude is
    /// clamped into range, and it is always valid.  Fails when `self` is
    /// invalid.
    pub fn at_distance_and_azimuth(&self, distance_mm: i64, azimuth_e7: i64) -> (r: Result<
        GeoCoordinate,
        PositioningError,
    >)
        ensures
            !spec_coord_valid(*self) ==> r == Err::<GeoCoordinate, PositioningError>(
                PositioningError::InvalidCoordinate(*self),
            ),
            spec_coord_valid(*self) ==> {
                &&& r == Ok::<GeoCoordinate, PositioningError>(
                    spec_at_distance_and_azimuth(*self, distance_mm as int, azimuth_e7 as int),
                )
                &&& spec_coord_valid(
                    spec_at_distance_and_azimuth(*self, distance_mm as int, azimuth_e7 as int),
                )
                &&& spec_at_distance_and_azimuth(
                    *self,
                    distance_mm as int,
                    azimuth_e7 as int,
                ).altitude_mm == self.altitude_mm
            },
    {
        proof {
            reveal(spec_at_distance_and_azimuth);
        }
        if !self.valid() {
            return Err(PositioningError::InvalidCoordinate(*self));
        }
        let neg: bool = distance_mm < 0;
        let mag: i128 = if neg {
            -(distance_mm as i128)
        } else {
            distance_mm as i128
        };
        proof {
            assert(mag * 281474976710656int <= 9223372036854775808int * 281474976710656int) by (
            nonlinear_arith)
                requires
                    0 <= mag <= 9223372036854775808,
            ;
        }
        let rmag: i128 = (mag * FP_ONE_I) / (EARTH_MEAN_RADIUS_MM as i128);
        let ratio: i128 = if neg {
            -rmag
        } else {
            rmag
        };
        let sr: i128 = sin_fp(ratio);
        let cr: i128 = cos_fp(ratio);
        let th: i128 = deg_e7_to_rad(azimuth_e7);
        let sa: i128 = sin_fp(th);
        let ca: i128 = cos_fp(th);
        let p1: i128 = deg_e7_to_rad(self.latitude_e7);
        let s1: i128 = sin_fp(p1);
        let c1: i128 = cos_fp(p1);
        let t1: i128 = smul_fp(s1, cr);
        let csr: i128 = smul_fp(c1, sr);
        proof {
            lemma_smul_fp_bound(s1 as int, cr as int, FP_ONE as int, FP_ONE as int);
            lemma_smul_fp_bound(c1 as int, sr as int, FP_ONE as int, FP_ONE as int);
        }
        let t2: i128 = smul_fp(csr, ca);
        proof {
            lemma_smul_fp_bound(csr as int, ca as int, FP_ONE as int, FP_ONE as int);
        }
        let sl0: i128 = t1 + t2;
        let sl: i128 = if sl0 > FP_ONE_I {
            FP_ONE_I
        } else if sl0 < -FP_ONE_I {
            -FP_ONE_I
        } else {
            sl0
        };
        let lat: i128 = asin_fp(sl);
        let src: i128 = smul_fp(sr, c1);
        proof {
            lemma_smul_fp_bound(sr as int, c1 as int, FP_ONE as int, FP_ONE as int);
        }
        let y: i128 = smul_fp(sa, src);
        let xs: i128 = smul_fp(s1, sl);
        proof {
            lemma_smul_fp_bound(sa as int, src as int, FP_ONE as int, FP_ONE as int);
            lemma_smul_fp_bound(s1 as int, sl as int, FP_ONE as int, FP_ONE as int);
        }
        let x: i128 = cr - xs;
        let dl: i128 = atan2_fp(y, x);
        let lat_e7: i64 = rad_to_deg_e7(lat);
        let dlon_e7: i64 = rad_to_deg_e7(dl);
        let lon_raw: i64 = self.longitude_e7 + dlon_e7;
        let lon_e7: i64 = lon_raw.wrap(CoordinateFieldType::Longitude);
        Ok(GeoCoordinate { latitude_e7: lat_e7, longitude_e7: lon_e7, altitude_mm: self.altitude_mm })
    }
}

} // verus!
