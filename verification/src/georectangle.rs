//! An axis-aligned geographic bounding region given by its top-left and
//! bottom-right corners.
//!
//! The top-left corner carries the maximum latitude and the "left" longitude;
//! latitude ordering is never wrapped, while a left longitude greater than
//! the right one encodes a box crossing the antimeridian (the longitude
//! interval is then the complement of the open interval between the bounds).
//! The rectangle is valid iff both corners are valid coordinates and the top
//! latitude is not below the bottom one; an invalid rectangle is empty, and
//! mutators on it are no-ops or fail, per operation.

use vstd::prelude::*;
use crate::coordinate::GeoCoordinate;
use crate::coordinate::COORDINATE_EPSILON_E7;
use crate::coordinate::spec_approx_eq;
use crate::coordinate::spec_coord_valid;
use crate::coordinate::spec_default_coordinate;
use crate::coordinate::spec_distance_mm;
use crate::coordinate::spec_at_distance_and_azimuth;
use crate::errors::PositioningError;
use crate::fixed::spec_abs;
use crate::fixed::spec_half;
use crate::utility::CardinalDirection;
use crate::utility::spec_lat_wrap;
use crate::utility::spec_lon_wrap;

verus! {

/// An axis-aligned bounding region between a top-left and a bottom-right
/// corner (corner altitudes are ignored by every operation).
#[derive(Debug, Clone, Copy)]
pub struct GeoRectangle {
    pub tl: GeoCoordinate,
    pub br: GeoCoordinate,
}

/// Whether both corners are valid and the latitudes are ordered.
pub open spec fn spec_rect_valid(r: GeoRectangle) -> bool {
    spec_coord_valid(r.tl) && spec_coord_valid(r.br) && r.tl.latitude_e7 >= r.br.latitude_e7
}

/// The default, invalid rectangle: both corners default.
pub open spec fn spec_default_rectangle() -> GeoRectangle {
    GeoRectangle { tl: spec_default_coordinate(), br: spec_default_coordinate() }
}

/// Whether the rectangle is empty: invalid, or its corners coordinate-equal
/// within the standard 3e-7 degree tolerance.
pub open spec fn spec_rect_empty(r: GeoRectangle) -> bool {
    !spec_rect_valid(r) || spec_approx_eq(r.tl, r.br, COORDINATE_EPSILON_E7 as int)
}

/// What `contains` returns: the offending operand's error, or the geometric
/// test on valid operands.
pub open spec fn spec_contains_result(r: GeoRectangle, c: GeoCoordinate) -> Result<
    bool,
    PositioningError,
> {
    if !spec_rect_valid(r) {
        Err(PositioningError::InvalidCoordinate(r.tl))
    } else if !spec_coord_valid(c) {
        Err(PositioningError::InvalidCoordinate(c))
    } else {
        Ok(spec_contains(r, c))
    }
}

/// The sequential corner test behind `contains_rect`: the corners of `b` are
/// checked against `a` in the order top-left, top-right, bottom-left,
/// bottom-right, and the first check that is outside or fails decides - so an
/// error on a later corner surfaces only when every earlier corner was
/// contained.
pub open spec fn spec_contains_rect_result(a: GeoRectangle, b: GeoRectangle) -> Result<
    bool,
    PositioningError,
> {
    let tr = GeoCoordinate {
        latitude_e7: b.tl.latitude_e7,
        longitude_e7: b.br.longitude_e7,
        altitude_mm: None,
    };
    let bl = GeoCoordinate {
        latitude_e7: b.br.latitude_e7,
        longitude_e7: b.tl.longitude_e7,
        altitude_mm: None,
    };
    match spec_contains_result(a, b.tl) {
        Err(e) => Err(e),
        Ok(c1) => if !c1 {
            Ok(false)
        } else {
            match spec_contains_result(a, tr) {
                Err(e) => Err(e),
                Ok(c2) => if !c2 {
                    Ok(false)
                } else {
                    match spec_contains_result(a, bl) {
                        Err(e) => Err(e),
                        Ok(c3) => if !c3 {
                            Ok(false)
                        } else {
                            spec_contains_result(a, b.br)
                        },
                    }
                },
            }
        },
    }
}

/// The geometric containment test, assuming a valid rectangle and coordinate:
/// the latitude must lie in the band (with the pole rows always included when
/// the matching edge touches the pole), and the longitude test branches on
/// whether the rectangle crosses the antimeridian.
pub open spec fn spec_contains(r: GeoRectangle, c: GeoCoordinate) -> bool {
    if c.latitude_e7 > r.tl.latitude_e7 || c.latitude_e7 < r.br.latitude_e7 {
        false
    } else if c.latitude_e7 == 900000000 && r.tl.latitude_e7 == 900000000 {
        true
    } else if c.latitude_e7 == -900000000 && r.br.latitude_e7 == -900000000 {
        true
    } else if r.tl.longitude_e7 <= r.br.longitude_e7 {
        !(c.longitude_e7 < r.tl.longitude_e7 || c.longitude_e7 > r.br.longitude_e7)
    } else {
        !(c.longitude_e7 < r.tl.longitude_e7 && c.longitude_e7 > r.br.longitude_e7)
    }
}

/// The overlap test `intersects` computes on the corner fields of two valid
/// rectangles.  When a rectangle's longitudes are equal it is treated as
/// wrapping here, and two wrapping rectangles always overlap in longitude
/// (both contain the antimeridian); that convention makes the
/// equal-longitude case coarse by design.
pub open spec fn spec_intersects(a: GeoRectangle, b: GeoRectangle) -> bool {
    if a.tl.latitude_e7 < b.br.latitude_e7 || a.br.latitude_e7 > b.tl.latitude_e7 {
        false
    } else if a.tl.latitude_e7 == 900000000 && a.tl.latitude_e7 == b.tl.latitude_e7 {
        true
    } else if a.br.latitude_e7 == -900000000 && a.br.latitude_e7 == b.br.latitude_e7 {
        true
    } else if a.tl.longitude_e7 < a.br.longitude_e7 {
        if b.tl.longitude_e7 < b.br.longitude_e7 {
            !(a.tl.longitude_e7 > b.br.longitude_e7 || a.br.longitude_e7 < b.tl.longitude_e7)
        } else {
            !(a.tl.longitude_e7 > b.br.longitude_e7 && a.br.longitude_e7 < b.tl.longitude_e7)
        }
    } else {
        if b.tl.longitude_e7 < b.br.longitude_e7 {
            !(b.tl.longitude_e7 > a.br.longitude_e7 && b.br.longitude_e7 < a.tl.longitude_e7)
        } else {
            true
        }
    }
}

/// The angular width in ten-millionths of a degree, normalized into
/// [0, 360] degrees by one wraparound correction; 0 for an invalid rectangle.
pub open spec fn spec_width(r: GeoRectangle) -> int {
    if !spec_rect_valid(r) {
        0
    } else {
        let w = r.br.longitude_e7 - r.tl.longitude_e7;
        let w1 = if w < 0 {
            w + 3600000000
        } else {
            w
        };
        if w1 > 3600000000 {
            w1 - 3600000000
        } else {
            w1
        }
    }
}

/// The angular height in ten-millionths of a degree; 0 for an invalid
/// rectangle.
pub open spec fn spec_height(r: GeoRectangle) -> int {
    if !spec_rect_valid(r) {
        0
    } else {
        r.tl.latitude_e7 - r.br.latitude_e7
    }
}

/// The center `center` returns: latitude midway between the corners, and the
/// longitude midpoint shifted by a half turn when the rectangle wraps the
/// antimeridian; the default coordinate for an invalid rectangle.
pub open spec fn spec_center(r: GeoRectangle) -> GeoCoordinate {
    if !spec_rect_valid(r) {
        spec_default_coordinate()
    } else {
        let lat = spec_half(r.tl.latitude_e7 + r.br.latitude_e7);
        let mid = spec_half(r.br.longitude_e7 + r.tl.longitude_e7);
        let lon = if r.tl.longitude_e7 > r.br.longitude_e7 {
            spec_lon_wrap(mid - 1800000000)
        } else {
            spec_lon_wrap(mid)
        };
        GeoCoordinate { latitude_e7: lat as i64, longitude_e7: lon as i64, altitude_mm: None }
    }
}

/// The corners after growing the rectangle to cover `c`: the latitude band
/// extends by min/max, and the nearer longitude edge (accounting for
/// antimeridian wraparound) moves onto the new point.
pub open spec fn spec_extend_corners(r: GeoRectangle, c: GeoCoordinate) -> GeoRectangle {
    let top = if r.tl.latitude_e7 >= c.latitude_e7 {
        r.tl.latitude_e7 as int
    } else {
        c.latitude_e7 as int
    };
    let bottom = if r.br.latitude_e7 <= c.latitude_e7 {
        r.br.latitude_e7 as int
    } else {
        c.latitude_e7 as int
    };
    let left0 = r.tl.longitude_e7 as int;
    let right0 = r.br.longitude_e7 as int;
    let lon = c.longitude_e7 as int;
    let wrap = left0 > right0;
    let lr = if wrap && lon > right0 && lon < left0 {
        if spec_abs(left0 - lon) < spec_abs(right0 - lon) {
            (lon, right0)
        } else {
            (left0, lon)
        }
    } else if !wrap {
        if lon < left0 {
            if 3600000000 - (right0 - lon) < left0 - lon {
                (left0, lon)
            } else {
                (lon, right0)
            }
        } else if lon > right0 {
            if 3600000000 - (lon - left0) < lon - right0 {
                (lon, right0)
            } else {
                (left0, lon)
            }
        } else {
            (left0, right0)
        }
    } else {
        (left0, right0)
    };
    GeoRectangle {
        tl: GeoCoordinate {
            latitude_e7: top as i64,
            longitude_e7: lr.0 as i64,
            altitude_mm: None,
        },
        br: GeoCoordinate {
            latitude_e7: bottom as i64,
            longitude_e7: lr.1 as i64,
            altitude_mm: None,
        },
    }
}

/// The rectangle after `extend_shape`: unchanged when the rectangle or the
/// coordinate is invalid or the point is already contained, else grown.
pub open spec fn spec_extend_state(r: GeoRectangle, c: GeoCoordinate) -> GeoRectangle {
    if !spec_rect_valid(r) || !spec_coord_valid(c) || spec_contains(r, c) {
        r
    } else {
        spec_extend_corners(r, c)
    }
}

/// The rectangle after `set_width`: unchanged when invalid or the width is
/// negative; the full longitude range when the width exceeds a full turn;
/// else both longitudes recentered around the current center and clamped.
/// Corner altitudes survive only in the full-turn case, as `set_width`
/// otherwise rebuilds the corners.
pub open spec fn spec_set_width_state(r: GeoRectangle, w: int) -> GeoRectangle {
    if !spec_rect_valid(r) || w < 0 {
        r
    } else if w > 3600000000 {
        GeoRectangle {
            tl: GeoCoordinate { longitude_e7: -1800000000i64, ..r.tl },
            br: GeoCoordinate { longitude_e7: 1800000000i64, ..r.br },
        }
    } else {
        let clon = spec_center(r).longitude_e7 as int;
        GeoRectangle {
            tl: GeoCoordinate {
                latitude_e7: r.tl.latitude_e7,
                longitude_e7: spec_lon_wrap(clon - w / 2) as i64,
                altitude_mm: None,
            },
            br: GeoCoordinate {
                latitude_e7: r.br.latitude_e7,
                longitude_e7: spec_lon_wrap(clon + w / 2) as i64,
                altitude_mm: None,
            },
        }
    }
}

/// The latitude band placed around center latitude `clat` with height `h`,
/// mirrored back inside the poles when an edge overshoots: the pair of the
/// new top and bottom latitudes.
pub open spec fn spec_pole_clamped_band(clat: int, h: int) -> (int, int) {
    let t0 = clat + h / 2;
    let b0 = clat - h / 2;
    let p1 = if t0 > 900000000 {
        (900000000int, 2 * clat - 900000000)
    } else {
        (t0, b0)
    };
    let p2 = if p1.0 < -900000000 {
        (-900000000int, -900000000int)
    } else {
        p1
    };
    let p3 = if p2.1 > 900000000 {
        (900000000int, 900000000int)
    } else {
        p2
    };
    if p3.1 < -900000000 {
        (2 * clat + 900000000, -900000000int)
    } else {
        p3
    }
}

/// The rectangle after `set_height`: unchanged when invalid or the height is
/// out of [0, 180] degrees; else the latitude band recentered around the
/// current center with pole mirroring, longitudes kept, corner altitudes
/// dropped.
pub open spec fn spec_set_height_state(r: GeoRectangle, h: int) -> GeoRectangle {
    if !spec_rect_valid(r) || h < 0 || h > 1800000000 {
        r
    } else {
        let band = spec_pole_clamped_band(spec_center(r).latitude_e7 as int, h);
        GeoRectangle {
            tl: GeoCoordinate {
                latitude_e7: band.0 as i64,
                longitude_e7: r.tl.longitude_e7,
                altitude_mm: None,
            },
            br: GeoCoordinate {
                latitude_e7: band.1 as i64,
                longitude_e7: r.br.longitude_e7,
                altitude_mm: None,
            },
        }
    }
}

/// The rectangle after `set_center`: both corners rebuilt to keep the width
/// and height around the new center, with the same pole mirroring as
/// `set_height`; a full-turn-wide rectangle keeps the full longitude range
/// whatever the new center's longitude.  Unchanged when the center or the
/// rectangle is invalid.
pub open spec fn spec_set_center_state(r: GeoRectangle, c: GeoCoordinate) -> GeoRectangle {
    if !spec_coord_valid(c) || !spec_rect_valid(r) {
        r
    } else {
        let w = spec_width(r);
        let h = spec_height(r);
        let band = spec_pole_clamped_band(c.latitude_e7 as int, h);
        let lons = if w == 3600000000 {
            (-1800000000int, 1800000000int)
        } else {
            (
                spec_lon_wrap(c.longitude_e7 - w / 2),
                spec_lon_wrap(c.longitude_e7 + w / 2),
            )
        };
        GeoRectangle {
            tl: GeoCoordinate {
                latitude_e7: band.0 as i64,
                longitude_e7: lons.0 as i64,
                altitude_mm: None,
            },
            br: GeoCoordinate {
                latitude_e7: band.1 as i64,
                longitude_e7: lons.1 as i64,
                altitude_mm: None,
            },
        }
    }
}

/// The rectangle after `translate`: the center shifted by the deltas, each
/// axis clamped to its range, then recentered as `set_center` does; unchanged
/// when invalid.
pub open spec fn spec_translate(r: GeoRectangle, dlat: int, dlon: int) -> GeoRectangle {
    if !spec_rect_valid(r) {
        r
    } else {
        let c = spec_center(r);
        let nc = GeoCoordinate {
            latitude_e7: spec_lat_wrap(c.latitude_e7 + dlat) as i64,
            longitude_e7: spec_lon_wrap(c.longitude_e7 + dlon) as i64,
            altitude_mm: None,
        };
        spec_set_center_state(r, nc)
    }
}

/// The union `union` returns: the other operand when one side is invalid (the
/// default rectangle when both are), else this rectangle grown over the other
/// rectangle's four corners in turn.
pub open spec fn spec_union(a: GeoRectangle, b: GeoRectangle) -> GeoRectangle {
    if !spec_rect_valid(a) && !spec_rect_valid(b) {
        spec_default_rectangle()
    } else if !spec_rect_valid(a) {
        b
    } else if !spec_rect_valid(b) {
        a
    } else {
        let tr = GeoCoordinate {
            latitude_e7: b.tl.latitude_e7,
            longitude_e7: b.br.longitude_e7,
            altitude_mm: None,
        };
        let bl = GeoCoordinate {
            latitude_e7: b.br.latitude_e7,
            longitude_e7: b.tl.longitude_e7,
            altitude_mm: None,
        };
        spec_extend_state(
            spec_extend_state(spec_extend_state(spec_extend_state(a, b.tl), tr), bl),
            b.br,
        )
    }
}

/// The intersection `intersection` returns: the largest axis-aligned
/// sub-rectangle of both operands this representation can carry, or the
/// default rectangle when the operands are disjoint (or either is invalid).
/// When both operands wrap the antimeridian the wrapped overlap around it is
/// returned; when exactly one wraps, the wider of the two candidate overlap
/// intervals is chosen.
pub open spec fn spec_intersection(a: GeoRectangle, b: GeoRectangle) -> GeoRectangle {
    if !spec_rect_valid(a) || !spec_rect_valid(b) {
        spec_default_rectangle()
    } else {
        let top = if a.tl.latitude_e7 <= b.tl.latitude_e7 {
            a.tl.latitude_e7 as int
        } else {
            b.tl.latitude_e7 as int
        };
        let bottom = if a.br.latitude_e7 >= b.br.latitude_e7 {
            a.br.latitude_e7 as int
        } else {
            b.br.latitude_e7 as int
        };
        if top < bottom {
            spec_default_rectangle()
        } else {
            let lons = spec_intersection_lons(
                a.tl.longitude_e7 as int,
                a.br.longitude_e7 as int,
                b.tl.longitude_e7 as int,
                b.br.longitude_e7 as int,
            );
            match lons {
                Option::None => spec_default_rectangle(),
                Option::Some(p) => GeoRectangle {
                    tl: GeoCoordinate {
                        latitude_e7: top as i64,
                        longitude_e7: p.0 as i64,
                        altitude_mm: None,
                    },
                    br: GeoCoordinate {
                        latitude_e7: bottom as i64,
                        longitude_e7: p.1 as i64,
                        altitude_mm: None,
                    },
                },
            }
        }
    }
}

/// The longitude span of the intersection, or `None` when the spans are
/// disjoint.
pub open spec fn spec_intersection_lons(l1: int, r1: int, l2: int, r2: int) -> Option<(int, int)> {
    let w1 = l1 > r1;
    let w2 = l2 > r2;
    if !w1 && !w2 {
        let ll = if l1 >= l2 {
            l1
        } else {
            l2
        };
        let rr = if r1 <= r2 {
            r1
        } else {
            r2
        };
        if ll > rr {
            Option::None
        } else {
            Option::Some((ll, rr))
        }
    } else if w1 && w2 {
        let ll = if l1 >= l2 {
            l1
        } else {
            l2
        };
        let rr = if r1 <= r2 {
            r1
        } else {
            r2
        };
        Option::Some((ll, rr))
    } else if w1 {
        spec_mixed_wrap_lons(l1, r1, l2, r2)
    } else {
        spec_mixed_wrap_lons(l2, r2, l1, r1)
    }
}

/// The wider overlap of a wrapping span `[lw, 180] + [-180, rw]` with a plain
/// span `[l, r]`, or `None` when they are disjoint.
pub open spec fn spec_mixed_wrap_lons(lw: int, rw: int, l: int, r: int) -> Option<(int, int)> {
    let high_ok = r >= lw;
    let low_ok = l <= rw;
    let high_l = if l >= lw {
        l
    } else {
        lw
    };
    let low_r = if r <= rw {
        r
    } else {
        rw
    };
    if high_ok && low_ok {
        if r - high_l >= low_r - l {
            Option::Some((high_l, r))
        } else {
            Option::Some((l, low_r))
        }
    } else if high_ok {
        Option::Some((high_l, r))
    } else if low_ok {
        Option::Some((l, low_r))
    } else {
        Option::None
    }
}

/// The rectangle `from_list` builds: the default rectangle for fewer than two
/// points, else a degenerate rectangle at the first point grown over each
/// later point in turn (`i` counts the points consumed).
pub open spec fn spec_from_list_prefix(s: Seq<GeoCoordinate>, i: int) -> GeoRectangle
    decreases i,
{
    if i <= 1 {
        GeoRectangle { tl: s[0], br: s[0] }
    } else {
        spec_extend_state(spec_from_list_prefix(s, i - 1), s[i - 1])
    }
}

/// See `spec_from_list_prefix`.
pub open spec fn spec_from_list(s: Seq<GeoCoordinate>) -> GeoRectangle {
    if s.len() < 2 {
        spec_default_rectangle()
    } else {
        spec_from_list_prefix(s, s.len() as int)
    }
}

/// Growing a rectangle over a new point never loses a point it already
/// contained.
pub proof fn lemma_extend_grows(r: GeoRectangle, c: GeoCoordinate, p: GeoCoordinate)
    requires
        spec_rect_valid(r),
        spec_contains(r, p),
    ensures
        spec_contains(spec_extend_state(r, c), p),
{
}

/// The growth step keeps the rectangle valid when its operands are valid.
pub proof fn lemma_extend_state_valid(r: GeoRectangle, c: GeoCoordinate)
    requires
        spec_rect_valid(r),
    ensures
        spec_rect_valid(spec_extend_state(r, c)),
{
}

/// A valid rectangle contains its own four corners.
pub proof fn lemma_contains_own_corners(r: GeoRectangle)
    requires
        spec_rect_valid(r),
    ensures
        spec_contains(r, r.tl),
        spec_contains(r, r.br),
        spec_contains(
            r,
            (GeoCoordinate {
                latitude_e7: r.tl.latitude_e7,
                longitude_e7: r.br.longitude_e7,
                altitude_mm: None,
            }),
        ),
        spec_contains(
            r,
            (GeoCoordinate {
                latitude_e7: r.br.latitude_e7,
                longitude_e7: r.tl.longitude_e7,
                altitude_mm: None,
            }),
        ),
{
}

/// Growing a rectangle over a valid point makes it contain that point.
pub proof fn lemma_extend_adds(r: GeoRectangle, c: GeoCoordinate)
    requires
        spec_rect_valid(r),
        spec_coord_valid(c),
    ensures
        spec_contains(spec_extend_state(r, c), c),
{
}

/// The union covers both operands: every point of either valid operand, and
/// in particular each of their corners, is contained in the union.
pub proof fn lemma_union_covers(a: GeoRectangle, b: GeoRectangle, p: GeoCoordinate)
    requires
        spec_rect_valid(a),
        spec_rect_valid(b),
    ensures
        spec_contains(a, p) ==> spec_contains(spec_union(a, b), p),
        spec_contains(spec_union(a, b), b.tl),
        spec_contains(spec_union(a, b), b.br),
        spec_contains(
            spec_union(a, b),
            (GeoCoordinate {
                latitude_e7: b.tl.latitude_e7,
                longitude_e7: b.br.longitude_e7,
                altitude_mm: None,
            }),
        ),
        spec_contains(
            spec_union(a, b),
            (GeoCoordinate {
                latitude_e7: b.br.latitude_e7,
                longitude_e7: b.tl.longitude_e7,
                altitude_mm: None,
            }),
        ),
{
    let tr = GeoCoordinate {
        latitude_e7: b.tl.latitude_e7,
        longitude_e7: b.br.longitude_e7,
        altitude_mm: None,
    };
    let bl = GeoCoordinate {
        latitude_e7: b.br.latitude_e7,
        longitude_e7: b.tl.longitude_e7,
        altitude_mm: None,
    };
    let r1 = spec_extend_state(a, b.tl);
    let r2 = spec_extend_state(r1, tr);
    let r3 = spec_extend_state(r2, bl);
    let r4 = spec_extend_state(r3, b.br);
    assert(spec_union(a, b) == r4);
    lemma_extend_state_valid(a, b.tl);
    lemma_extend_state_valid(r1, tr);
    lemma_extend_state_valid(r2, bl);
    lemma_extend_state_valid(r3, b.br);
    if spec_contains(a, p) {
        lemma_extend_grows(a, b.tl, p);
        lemma_extend_grows(r1, tr, p);
        lemma_extend_grows(r2, bl, p);
        lemma_extend_grows(r3, b.br, p);
    }
    lemma_extend_adds(a, b.tl);
    lemma_extend_grows(r1, tr, b.tl);
    lemma_extend_grows(r2, bl, b.tl);
    lemma_extend_grows(r3, b.br, b.tl);
    lemma_extend_adds(r1, tr);
    lemma_extend_grows(r2, bl, tr);
    lemma_extend_grows(r3, b.br, tr);
    lemma_extend_adds(r2, bl);
    lemma_extend_grows(r3, b.br, bl);
    lemma_extend_adds(r3, b.br);
}

/// The intersection lies within both operands: any coordinate it contains,
/// both operands contain.
pub proof fn lemma_intersection_within(a: GeoRectangle, b: GeoRectangle, p: GeoCoordinate)
    requires
        spec_rect_valid(a),
        spec_rect_valid(b),
        spec_coord_valid(p),
    ensures
        spec_contains(spec_intersection(a, b), p) ==> spec_contains(a, p) && spec_contains(b, p),
{
}

/// A contained coordinate's latitude always lies in the rectangle's band.
pub proof fn lemma_contains_latitude_band(r: GeoRectangle, c: GeoCoordinate)
    requires
        spec_contains(r, c),
    ensures
        r.br.latitude_e7 <= c.latitude_e7 <= r.tl.latitude_e7,
{
}

/// The pole rows are inclusive: when a valid rectangle's top edge touches the
/// north pole, it contains every valid coordinate on that row, and likewise
/// for the south pole and the bottom edge.
pub proof fn lemma_contains_pole_row(r: GeoRectangle, c: GeoCoordinate)
    requires
        spec_rect_valid(r),
        spec_coord_valid(c),
        (c.latitude_e7 == 900000000 && r.tl.latitude_e7 == 900000000) || (c.latitude_e7
            == -900000000 && r.br.latitude_e7 == -900000000),
    ensures
        spec_contains(r, c),
{
}

impl Default for GeoRectangle {
    /// The uninitialized rectangle: both corners are the default coordinate.
    fn default() -> (r: Self)
        ensures
            r == spec_default_rectangle(),
    {
        GeoRectangle { tl: GeoCoordinate::default(), br: GeoCoordinate::default() }
    }
}

impl GeoRectangle {
    /// A rectangle from its two defining corners, stored as given.
    pub fn new(tl: GeoCoordinate, br: GeoCoordinate) -> (r: Self)
        ensures
            r.tl == tl,
            r.br == br,
    {
        GeoRectangle { tl, br }
    }

    /// A rectangle of the given angular width and height around a center: a
    /// zero-size rectangle at the center resized by `set_width`, then
    /// `set_height`.
    pub fn from_center_degrees(center: GeoCoordinate, width_degrees: i64, height_degrees: i64)
        -> (r: Self)
        ensures
            r == spec_set_height_state(
                spec_set_width_state(
                    (GeoRectangle { tl: center, br: center }),
                    width_degrees as int,
                ),
                height_degrees as int,
            ),
    {
        let mut x = Self::new(center, center);
        x.set_width(width_degrees);
        x.set_height(height_degrees);
        x
    }

    /// A rectangle of the given physical size in millimeters around a center:
    /// the corners are the center projected by half the height north then
    /// half the width west, and by half the height south then half the width
    /// east.  Fails when the center is invalid.
    pub fn from_center_meters(center: GeoCoordinate, width_mm: i64, height_mm: i64) -> (r: Result<
        Self,
        PositioningError,
    >)
        ensures
            !spec_coord_valid(center) ==> r == Err::<GeoRectangle, PositioningError>(
                PositioningError::InvalidCoordinate(center),
            ),
            spec_coord_valid(center) ==> r is Ok && r->Ok_0 == (GeoRectangle {
                tl: spec_at_distance_and_azimuth(
                    spec_at_distance_and_azimuth(center, spec_half(height_mm as int), 0),
                    spec_half(width_mm as int),
                    2700000000,
                ),
                br: spec_at_distance_and_azimuth(
                    spec_at_distance_and_azimuth(center, spec_half(height_mm as int), 1800000000),
                    spec_half(width_mm as int),
                    900000000,
                ),
            }),
    {
        let half_h: i64 = height_mm / 2;
        let half_w: i64 = width_mm / 2;
        let up = center.at_distance_and_azimuth(half_h, CardinalDirection::North.to_degrees())?;
        let tl = up.at_distance_and_azimuth(half_w, CardinalDirection::West.to_degrees())?;
        let down = center.at_distance_and_azimuth(half_h, CardinalDirection::South.to_degrees())?;
        let br = down.at_distance_and_azimuth(half_w, CardinalDirection::East.to_degrees())?;
        Ok(GeoRectangle { tl, br })
    }

    /// The bounding rectangle of a point list: the default rectangle for
    /// fewer than two points, else a degenerate rectangle at the first point
    /// grown over each later point (invalid points are skipped by the growth
    /// step).
    pub fn from_list(coordinates: &Vec<GeoCoordinate>) -> (r: Self)
        ensures
            r == spec_from_list(coordinates@),
    {
        if coordinates.len() < 2 {
            return GeoRectangle::default();
        }
        let first: GeoCoordinate = coordinates[0];
        let mut r = GeoRectangle { tl: first, br: first };
        let mut i: usize = 1;
        while i < coordinates.len()
            invariant
                1 <= i <= coordinates.len(),
                r == spec_from_list_prefix(coordinates@, i as int),
            decreases coordinates.len() - i,
        {
            let c: GeoCoordinate = coordinates[i];
            let _ = r.extend_shape(&c);
            i = i + 1;
        }
        r
    }

    /// The stored bottom-right corner.
    pub fn bottom_right(&self) -> (r: GeoCoordinate)
        ensures
            r == self.br,
    {
        self.br
    }

    /// The stored top-left corner.
    pub fn top_left(&self) -> (r: GeoCoordinate)
        ensures
            r == self.tl,
    {
        self.tl
    }

    /// The derived bottom-left corner: bottom latitude with the left
    /// longitude.
    pub fn bottom_left(&self) -> (r: GeoCoordinate)
        ensures
            r == (GeoCoordinate {
                latitude_e7: self.br.latitude_e7,
                longitude_e7: self.tl.longitude_e7,
                altitude_mm: None,
            }),
    {
        GeoCoordinate::new(self.br.latitude_e7, self.tl.longitude_e7, None)
    }

    /// The derived top-right corner: top latitude with the right longitude.
    pub fn top_right(&self) -> (r: GeoCoordinate)
        ensures
            r == (GeoCoordinate {
                latitude_e7: self.tl.latitude_e7,
                longitude_e7: self.br.longitude_e7,
                altitude_mm: None,
            }),
    {
        GeoCoordinate::new(self.tl.latitude_e7, self.br.longitude_e7, None)
    }

    /// The rectangle's center; the default (invalid) coordinate when the
    /// rectangle is invalid, a valid coordinate otherwise.
    pub fn center(&self) -> (r: GeoCoordinate)
        ensures
            r == spec_center(*self),
            spec_rect_valid(*self) ==> spec_coord_valid(r),
    {
        if !self.valid() {
            return GeoCoordinate::default();
        }
        let lat: i64 = (self.tl.latitude_e7 + self.br.latitude_e7) / 2;
        let mid: i64 = (self.br.longitude_e7 + self.tl.longitude_e7) / 2;
        let lon0: i64 = if self.tl.longitude_e7 > self.br.longitude_e7 {
            mid - 1800000000
        } else {
            mid
        };
        let lon: i64 = if lon0 > 1800000000 {
            1800000000
        } else if lon0 < -1800000000 {
            -1800000000
        } else {
            lon0
        };
        GeoCoordinate::new(lat, lon, None)
    }

    /// Whether the rectangle contains the coordinate.  Fails with the
    /// rectangle's top-left corner when the rectangle is invalid, and with
    /// the coordinate when that is invalid.
    pub fn contains(&self, coordinate: &GeoCoordinate) -> (r: Result<bool, PositioningError>)
        ensures
            !spec_rect_valid(*self) ==> r == Err::<bool, PositioningError>(
                PositioningError::InvalidCoordinate(self.tl),
            ),
            spec_rect_valid(*self) && !spec_coord_valid(*coordinate) ==> r == Err::<
                bool,
                PositioningError,
            >(PositioningError::InvalidCoordinate(*coordinate)),
            spec_rect_valid(*self) && spec_coord_valid(*coordinate) ==> r == Ok::<
                bool,
                PositioningError,
            >(spec_contains(*self, *coordinate)),
    {
        if !self.valid() {
            return Err(PositioningError::InvalidCoordinate(self.tl));
        }
        if !coordinate.valid() {
            return Err(PositioningError::InvalidCoordinate(*coordinate));
        }
        if coordinate.latitude_e7 > self.tl.latitude_e7 || coordinate.latitude_e7
            < self.br.latitude_e7 {
            return Ok(false);
        }
        if coordinate.latitude_e7 == 900000000 && self.tl.latitude_e7 == 900000000 {
            return Ok(true);
        }
        if coordinate.latitude_e7 == -900000000 && self.br.latitude_e7 == -900000000 {
            return Ok(true);
        }
        if self.tl.longitude_e7 <= self.br.longitude_e7 {
            if coordinate.longitude_e7 < self.tl.longitude_e7 || coordinate.longitude_e7
                > self.br.longitude_e7 {
                return Ok(false);
            }
        } else {
            if coordinate.longitude_e7 < self.tl.longitude_e7 && coordinate.longitude_e7
                > self.br.longitude_e7 {
                return Ok(false);
            }
        }
        Ok(true)
    }

    /// Whether the rectangle contains all four corners of `other`, testing
    /// top-left, top-right, bottom-left, bottom-right in that order and
    /// stopping at the first corner that is outside or fails: an invalid
    /// corner of `other` surfaces as the invalid-coordinate error naming it,
    /// once every earlier corner was contained.
    pub fn contains_rect(&self, other: &GeoRectangle) -> (r: Result<bool, PositioningError>)
        ensures
            r == spec_contains_rect_result(*self, *other),
            !spec_rect_valid(*self) ==> r == Err::<bool, PositioningError>(
                PositioningError::InvalidCoordinate(self.tl),
            ),
            spec_rect_valid(*self) && spec_rect_valid(*other) ==> r == Ok::<
                bool,
                PositioningError,
            >(
                spec_contains(*self, other.tl) && spec_contains(
                    *self,
                    (GeoCoordinate {
                        latitude_e7: other.tl.latitude_e7,
                        longitude_e7: other.br.longitude_e7,
                        altitude_mm: None,
                    }),
                ) && spec_contains(
                    *self,
                    (GeoCoordinate {
                        latitude_e7: other.br.latitude_e7,
                        longitude_e7: other.tl.longitude_e7,
                        altitude_mm: None,
                    }),
                ) && spec_contains(*self, other.br),
            ),
    {
        let c1 = self.contains(&other.top_left())?;
        if !c1 {
            return Ok(false);
        }
        let c2 = self.contains(&other.top_right())?;
        if !c2 {
            return Ok(false);
        }
        let c3 = self.contains(&other.bottom_left())?;
        if !c3 {
            return Ok(false);
        }
        let c4 = self.contains(&other.bottom_right())?;
        Ok(c4)
    }

    /// The angular width in ten-millionths of a degree, in [0, 360] degrees;
    /// 0 when the rectangle is invalid.
    pub fn width(&self) -> (r: i64)
        ensures
            r == spec_width(*self),
            0 <= r <= 3600000000,
    {
        if !self.valid() {
            return 0;
        }
        let mut w: i64 = self.br.longitude_e7 - self.tl.longitude_e7;
        if w < 0 {
            w = w + 3600000000;
        }
        if w > 3600000000 {
            w = w - 3600000000;
        }
        w
    }

    /// The angular height in ten-millionths of a degree; 0 when the rectangle
    /// is invalid.
    pub fn height(&self) -> (r: i64)
        ensures
            r == spec_height(*self),
            0 <= r <= 1800000000,
    {
        if !self.valid() {
            return 0;
        }
        self.tl.latitude_e7 - self.br.latitude_e7
    }

    /// The physical width in millimeters: the distance from the top-left to
    /// the top-right corner.  Fails when the rectangle is invalid.
    pub fn width_meters(&self) -> (r: Result<i64, PositioningError>)
        ensures
            !spec_rect_valid(*self) ==> r == Err::<i64, PositioningError>(
                PositioningError::InvalidGeorectangle(*self),
            ),
            spec_rect_valid(*self) ==> r == Ok::<i64, PositioningError>(
                spec_distance_mm(
                    self.tl,
                    (GeoCoordinate {
                        latitude_e7: self.tl.latitude_e7,
                        longitude_e7: self.br.longitude_e7,
                        altitude_mm: None,
                    }),
                ) as i64,
            ),
    {
        if !self.valid() {
            return Err(PositioningError::InvalidGeorectangle(*self));
        }
        let w = self.top_left().distance_to(&self.top_right())?;
        Ok(w)
    }

    /// The physical height in millimeters: the distance from the top-left to
    /// the bottom-left corner.  Fails when the rectangle is invalid.
    pub fn height_meters(&self) -> (r: Result<i64, PositioningError>)
        ensures
            !spec_rect_valid(*self) ==> r == Err::<i64, PositioningError>(
                PositioningError::InvalidGeorectangle(*self),
            ),
            spec_rect_valid(*self) ==> r == Ok::<i64, PositioningError>(
                spec_distance_mm(
                    self.tl,
                    (GeoCoordinate {
                        latitude_e7: self.br.latitude_e7,
                        longitude_e7: self.tl.longitude_e7,
                        altitude_mm: None,
                    }),
                ) as i64,
            ),
    {
        if !self.valid() {
            return Err(PositioningError::InvalidGeorectangle(*self));
        }
        let h = self.top_left().distance_to(&self.bottom_left())?;
        Ok(h)
    }

    /// Whether the two rectangles overlap: the latitude bands must meet (a
    /// shared edge at a pole always counts), and the longitude test splits on
    /// which of the rectangles wrap the antimeridian.  Fails with the
    /// offending operand (the receiver checked first) when either rectangle
    /// is invalid.
    pub fn intersects(&self, other: &GeoRectangle) -> (r: Result<bool, PositioningError>)
        ensures
            !spec_rect_valid(*self) ==> r == Err::<bool, PositioningError>(
                PositioningError::InvalidGeorectangle(*self),
            ),
            spec_rect_valid(*self) && !spec_rect_valid(*other) ==> r == Err::<
                bool,
                PositioningError,
            >(PositioningError::InvalidGeorectangle(*other)),
            spec_rect_valid(*self) && spec_rect_valid(*other) ==> r == Ok::<
                bool,
                PositioningError,
            >(spec_intersects(*self, *other)),
    {
        if !self.valid() {
            return Err(PositioningError::InvalidGeorectangle(*self));
        }
        if !other.valid() {
            return Err(PositioningError::InvalidGeorectangle(*other));
        }
        if self.tl.latitude_e7 < other.br.latitude_e7 || self.br.latitude_e7
            > other.tl.latitude_e7 {
            return Ok(false);
        }
        if self.tl.latitude_e7 == 900000000 && self.tl.latitude_e7 == other.tl.latitude_e7 {
            return Ok(true);
        }
        if self.br.latitude_e7 == -900000000 && self.br.latitude_e7 == other.br.latitude_e7 {
            return Ok(true);
        }
        if self.tl.longitude_e7 < self.br.longitude_e7 {
            if other.tl.longitude_e7 < other.br.longitude_e7 {
                if self.tl.longitude_e7 > other.br.longitude_e7 || self.br.longitude_e7
                    < other.tl.longitude_e7 {
                    return Ok(false);
                }
            } else {
                if self.tl.longitude_e7 > other.br.longitude_e7 && self.br.longitude_e7
                    < other.tl.longitude_e7 {
                    return Ok(false);
                }
            }
        } else {
            if other.tl.longitude_e7 < other.br.longitude_e7 {
                if other.tl.longitude_e7 > self.br.longitude_e7 && other.br.longitude_e7
                    < self.tl.longitude_e7 {
                    return Ok(false);
                }
            } else {
                return Ok(true);
            }
        }
        Ok(true)
    }

    /// The smallest rectangle this growth strategy reaches that covers both
    /// operands: this rectangle grown over the other's corners (the other
    /// operand when one side is invalid, the default rectangle when both
    /// are).
    pub fn union(&self, other: &GeoRectangle) -> (r: Self)
        ensures
            r == spec_union(*self, *other),
    {
        if !self.valid() && !other.valid() {
            return GeoRectangle::default();
        }
        if !self.valid() {
            return *other;
        }
        if !other.valid() {
            return *self;
        }
        let mut acc = *self;
        let _ = acc.extend_shape(&other.top_left());
        let _ = acc.extend_shape(&other.top_right());
        let _ = acc.extend_shape(&other.bottom_left());
        let _ = acc.extend_shape(&other.bottom_right());
        acc
    }

    /// The largest shared sub-rectangle (see `spec_intersection` for the
    /// wraparound conventions); the default rectangle when the operands are
    /// disjoint or either is invalid.
    pub fn intersection(&self, other: &GeoRectangle) -> (r: Self)
        ensures
            r == spec_intersection(*self, *other),
    {
        if !self.valid() || !other.valid() {
            return GeoRectangle::default();
        }
        let top: i64 = if self.tl.latitude_e7 <= other.tl.latitude_e7 {
            self.tl.latitude_e7
        } else {
            other.tl.latitude_e7
        };
        let bottom: i64 = if self.br.latitude_e7 >= other.br.latitude_e7 {
            self.br.latitude_e7
        } else {
            other.br.latitude_e7
        };
        if top < bottom {
            return GeoRectangle::default();
        }
        let l1: i64 = self.tl.longitude_e7;
        let r1: i64 = self.br.longitude_e7;
        let l2: i64 = other.tl.longitude_e7;
        let r2: i64 = other.br.longitude_e7;
        let w1: bool = l1 > r1;
        let w2: bool = l2 > r2;
        let lons: Option<(i64, i64)> = if !w1 && !w2 {
            let ll: i64 = if l1 >= l2 {
                l1
            } else {
                l2
            };
            let rr: i64 = if r1 <= r2 {
                r1
            } else {
                r2
            };
            if ll > rr {
                None
            } else {
                Some((ll, rr))
            }
        } else if w1 && w2 {
            let ll: i64 = if l1 >= l2 {
                l1
            } else {
                l2
            };
            let rr: i64 = if r1 <= r2 {
                r1
            } else {
                r2
            };
            Some((ll, rr))
        } else if w1 {
            Self::mixed_wrap_lons(l1, r1, l2, r2)
        } else {
            Self::mixed_wrap_lons(l2, r2, l1, r1)
        };
        match lons {
            None => GeoRectangle::default(),
            Some((ll, rr)) => GeoRectangle {
                tl: GeoCoordinate { latitude_e7: top, longitude_e7: ll, altitude_mm: None },
                br: GeoCoordinate { latitude_e7: bottom, longitude_e7: rr, altitude_mm: None },
            },
        }
    }

    /// The wider overlap of a wrapping longitude span with a plain one.
    fn mixed_wrap_lons(lw: i64, rw: i64, l: i64, r: i64) -> (res: Option<(i64, i64)>)
        requires
            -1800000000 <= lw <= 1800000000,
            -1800000000 <= rw <= 1800000000,
            -1800000000 <= l <= 1800000000,
            -1800000000 <= r <= 1800000000,
        ensures
            res is Some <==> spec_mixed_wrap_lons(lw as int, rw as int, l as int, r as int)
                is Some,
            res is Some ==> (res->Some_0).0 == (spec_mixed_wrap_lons(
                lw as int,
                rw as int,
                l as int,
                r as int,
            )->Some_0).0 && (res->Some_0).1 == (spec_mixed_wrap_lons(
                lw as int,
                rw as int,
                l as int,
                r as int,
            )->Some_0).1,
    {
        let high_ok: bool = r >= lw;
        let low_ok: bool = l <= rw;
        let high_l: i64 = if l >= lw {
            l
        } else {
            lw
        };
        let low_r: i64 = if r <= rw {
            r
        } else {
            rw
        };
        if high_ok && low_ok {
            if r - high_l >= low_r - l {
                Some((high_l, r))
            } else {
                Some((l, low_r))
            }
        } else if high_ok {
            Some((high_l, r))
        } else if low_ok {
            Some((l, low_r))
        } else {
            None
        }
    }

    /// Shifts the rectangle: the center moves by the deltas (each axis
    /// clamped to its range) and the corners are rebuilt around it with the
    /// usual pole mirroring.  A no-op on an invalid rectangle.
    pub fn translate(&mut self, latitude: i64, longitude: i64)
        ensures
            *final(self) == spec_translate(*old(self), latitude as int, longitude as int),
    {
        if !self.valid() {
            return ;
        }
        let c = self.center();
        let nlat128: i128 = c.latitude_e7 as i128 + latitude as i128;
        let nlon128: i128 = c.longitude_e7 as i128 + longitude as i128;
        let nlat: i64 = if nlat128 > 900000000 {
            900000000
        } else if nlat128 < -900000000 {
            -900000000
        } else {
            nlat128 as i64
        };
        let nlon: i64 = if nlon128 > 1800000000 {
            1800000000
        } else if nlon128 < -1800000000 {
            -1800000000
        } else {
            nlon128 as i64
        };
        let nc = GeoCoordinate::new(nlat, nlon, None);
        let _ = self.set_center(&nc);
    }

    /// The rectangle shifted as `translate` does, leaving this one unchanged.
    pub fn translated(&self, latitude: i64, longitude: i64) -> (r: Self)
        ensures
            r == spec_translate(*self, latitude as int, longitude as int),
    {
        let mut r = *self;
        r.translate(latitude, longitude);
        r
    }

    /// Grows the rectangle to cover the coordinate (see `spec_extend_state`).
    /// Fails when the rectangle or the coordinate is invalid, or when the
    /// point is already contained; the rectangle is unchanged on failure, and
    /// valid and containing the point on success.
    pub fn extend(&mut self, coordinate: &GeoCoordinate) -> (r: Result<(), PositioningError>)
        ensures
            *final(self) == spec_extend_state(*old(self), *coordinate),
            !spec_rect_valid(*old(self)) ==> r == Err::<(), PositioningError>(
                PositioningError::InvalidGeorectangle(*old(self)),
            ),
            spec_rect_valid(*old(self)) && !spec_coord_valid(*coordinate) ==> r == Err::<
                (),
                PositioningError,
            >(PositioningError::InvalidCoordinate(*coordinate)),
            spec_rect_valid(*old(self)) && spec_coord_valid(*coordinate) && spec_contains(
                *old(self),
                *coordinate,
            ) ==> r == Err::<(), PositioningError>(PositioningError::InvalidCoordinate(
                *coordinate,
            )),
            spec_rect_valid(*old(self)) && spec_coord_valid(*coordinate) && !spec_contains(
                *old(self),
                *coordinate,
            ) ==> r is Ok && spec_rect_valid(*final(self)) && spec_contains(
                *final(self),
                *coordinate,
            ),
    {
        self.extend_shape(coordinate)
    }

    /// Replaces the top-left corner.  Fails (leaving the rectangle unchanged)
    /// when the new corner is invalid.
    pub fn set_top_left(&mut self, coordinate: &GeoCoordinate) -> (r: Result<(), PositioningError>)
        ensures
            !spec_coord_valid(*coordinate) ==> r == Err::<(), PositioningError>(
                PositioningError::InvalidCoordinate(*coordinate),
            ) && *final(self) == *old(self),
            spec_coord_valid(*coordinate) ==> r is Ok && final(self).tl == *coordinate && final(self).br == old(self).br,
    {
        if !coordinate.valid() {
            return Err(PositioningError::InvalidCoordinate(*coordinate));
        }
        self.tl = *coordinate;
        Ok(())
    }

    /// Replaces the derived top-right corner: the top latitude and the right
    /// longitude.  Fails (leaving the rectangle unchanged) when the input is
    /// invalid.
    pub fn set_top_right(&mut self, coordinate: &GeoCoordinate) -> (r: Result<
        (),
        PositioningError,
    >)
        ensures
            !spec_coord_valid(*coordinate) ==> r == Err::<(), PositioningError>(
                PositioningError::InvalidCoordinate(*coordinate),
            ) && *final(self) == *old(self),
            spec_coord_valid(*coordinate) ==> r is Ok && *final(self) == (GeoRectangle {
                tl: GeoCoordinate { latitude_e7: coordinate.latitude_e7, ..old(self).tl },
                br: GeoCoordinate { longitude_e7: coordinate.longitude_e7, ..old(self).br },
            }),
    {
        if !coordinate.valid() {
            return Err(PositioningError::InvalidCoordinate(*coordinate));
        }
        self.tl.latitude_e7 = coordinate.latitude_e7;
        self.br.longitude_e7 = coordinate.longitude_e7;
        Ok(())
    }

    /// Replaces the derived bottom-left corner: the bottom latitude and the
    /// left longitude.  Fails (leaving the rectangle unchanged) when the
    /// input is invalid.
    pub fn set_bottom_left(&mut self, coordinate: &GeoCoordinate) -> (r: Result<
        (),
        PositioningError,
    >)
        ensures
            !spec_coord_valid(*coordinate) ==> r == Err::<(), PositioningError>(
                PositioningError::InvalidCoordinate(*coordinate),
            ) && *final(self) == *old(self),
            spec_coord_valid(*coordinate) ==> r is Ok && *final(self) == (GeoRectangle {
                tl: GeoCoordinate { longitude_e7: coordinate.longitude_e7, ..old(self).tl },
                br: GeoCoordinate { latitude_e7: coordinate.latitude_e7, ..old(self).br },
            }),
    {
        if !coordinate.valid() {
            return Err(PositioningError::InvalidCoordinate(*coordinate));
        }
        self.br.latitude_e7 = coordinate.latitude_e7;
        self.tl.longitude_e7 = coordinate.longitude_e7;
        Ok(())
    }

    /// Replaces the bottom-right corner.  Fails (leaving the rectangle
    /// unchanged) when the new corner is invalid.
    pub fn set_bottom_right(&mut self, coordinate: &GeoCoordinate) -> (r: Result<
        (),
        PositioningError,
    >)
        ensures
            !spec_coord_valid(*coordinate) ==> r == Err::<(), PositioningError>(
                PositioningError::InvalidCoordinate(*coordinate),
            ) && *final(self) == *old(self),
            spec_coord_valid(*coordinate) ==> r is Ok && final(self).br == *coordinate && final(self).tl == old(self).tl,
    {
        if !coordinate.valid() {
            return Err(PositioningError::InvalidCoordinate(*coordinate));
        }
        self.br = *coordinate;
        Ok(())
    }

    /// Resizes the longitude span around the current center (see
    /// `spec_set_width_state`).  A no-op when the rectangle is invalid or the
    /// width negative; validity is preserved for every in-range width.
    pub fn set_width(&mut self, width_degrees: i64)
        ensures
            *final(self) == spec_set_width_state(*old(self), width_degrees as int),
            spec_rect_valid(*old(self)) && width_degrees >= 0 ==> spec_rect_valid(*final(self)),
    {
        if !self.valid() {
            return ;
        }
        if width_degrees < 0 {
            return ;
        }
        if width_degrees > 3600000000 {
            self.tl.longitude_e7 = -1800000000;
            self.br.longitude_e7 = 1800000000;
            return ;
        }
        let c = self.center();
        let half_w: i64 = width_degrees / 2;
        let left0: i64 = c.longitude_e7 - half_w;
        let left: i64 = if left0 > 1800000000 {
            1800000000
        } else if left0 < -1800000000 {
            -1800000000
        } else {
            left0
        };
        let right0: i64 = c.longitude_e7 + half_w;
        let right: i64 = if right0 > 1800000000 {
            1800000000
        } else if right0 < -1800000000 {
            -1800000000
        } else {
            right0
        };
        self.tl = GeoCoordinate::new(self.tl.latitude_e7, left, None);
        self.br = GeoCoordinate::new(self.br.latitude_e7, right, None);
    }

    /// Resizes the latitude band around the current center with pole
    /// mirroring (see `spec_set_height_state`).  A no-op when the rectangle
    /// is invalid or the height is outside [0, 180] degrees; validity is
    /// preserved for every in-range height.
    pub fn set_height(&mut self, height_degrees: i64)
        ensures
            *final(self) == spec_set_height_state(*old(self), height_degrees as int),
            spec_rect_valid(*old(self)) && 0 <= height_degrees <= 1800000000 ==> spec_rect_valid(
                *final(self),
            ),
    {
        if !self.valid() {
            return ;
        }
        if height_degrees < 0 || height_degrees > 1800000000 {
            return ;
        }
        let c = self.center();
        let half_h: i64 = height_degrees / 2;
        let mut tl_lat: i64 = c.latitude_e7 + half_h;
        let mut br_lat: i64 = c.latitude_e7 - half_h;
        if tl_lat > 900000000 {
            br_lat = 2 * c.latitude_e7 - 900000000;
            tl_lat = 900000000;
        }
        if tl_lat < -900000000 {
            br_lat = -900000000;
            tl_lat = -900000000;
        }
        if br_lat > 900000000 {
            br_lat = 900000000;
            tl_lat = 900000000;
        }
        if br_lat < -900000000 {
            br_lat = -900000000;
            tl_lat = 2 * c.latitude_e7 + 900000000;
        }
        self.tl = GeoCoordinate::new(tl_lat, self.tl.longitude_e7, None);
        self.br = GeoCoordinate::new(br_lat, self.br.longitude_e7, None);
    }

    /// Moves the rectangle so its width and height sit around the new center
    /// (see `spec_set_center_state`).  Fails with the center when that is
    /// invalid, and with the rectangle when the receiver is invalid; validity
    /// is preserved on success.
    pub fn set_center(&mut self, center: &GeoCoordinate) -> (r: Result<(), PositioningError>)
        ensures
            *final(self) == spec_set_center_state(*old(self), *center),
            !spec_coord_valid(*center) ==> r == Err::<(), PositioningError>(
                PositioningError::InvalidCoordinate(*center),
            ),
            spec_coord_valid(*center) && !spec_rect_valid(*old(self)) ==> r == Err::<
                (),
                PositioningError,
            >(PositioningError::InvalidGeorectangle(*old(self))),
            spec_coord_valid(*center) && spec_rect_valid(*old(self)) ==> r is Ok
                && spec_rect_valid(*final(self)),
    {
        if !center.valid() {
            return Err(PositioningError::InvalidCoordinate(*center));
        }
        if !self.valid() {
            return Err(PositioningError::InvalidGeorectangle(*self));
        }
        let w: i64 = self.width();
        let h: i64 = self.height();
        let half_w: i64 = w / 2;
        let half_h: i64 = h / 2;
        let mut tl_lat: i64 = center.latitude_e7 + half_h;
        let mut br_lat: i64 = center.latitude_e7 - half_h;
        let tl_lon0: i64 = center.longitude_e7 - half_w;
        let mut tl_lon: i64 = if tl_lon0 > 1800000000 {
            1800000000
        } else if tl_lon0 < -1800000000 {
            -1800000000
        } else {
            tl_lon0
        };
        let br_lon0: i64 = center.longitude_e7 + half_w;
        let mut br_lon: i64 = if br_lon0 > 1800000000 {
            1800000000
        } else if br_lon0 < -1800000000 {
            -1800000000
        } else {
            br_lon0
        };
        if tl_lat > 900000000 {
            br_lat = 2 * center.latitude_e7 - 900000000;
            tl_lat = 900000000;
        }
        if tl_lat < -900000000 {
            br_lat = -900000000;
            tl_lat = -900000000;
        }
        if br_lat > 900000000 {
            br_lat = 900000000;
            tl_lat = 900000000;
        }
        if br_lat < -900000000 {
            tl_lat = 2 * center.latitude_e7 + 900000000;
            br_lat = -900000000;
        }
        if w == 3600000000 {
            tl_lon = -1800000000;
            br_lon = 1800000000;
        }
        self.tl = GeoCoordinate::new(tl_lat, tl_lon, None);
        self.br = GeoCoordinate::new(br_lat, br_lon, None);
        Ok(())
    }

    /// Whether both corners are valid and the latitudes are ordered.
    pub fn valid(&self) -> (r: bool)
        ensures
            r == spec_rect_valid(*self),
    {
        self.tl.valid() && self.br.valid() && self.tl.latitude_e7 >= self.br.latitude_e7
    }

    /// Whether the rectangle is invalid or of (at most) tolerance-size
    /// extent: a valid rectangle is empty iff its corners are
    /// coordinate-equal within the standard tolerance.
    pub fn empty(&self) -> (r: bool)
        ensures
            r == spec_rect_empty(*self),
    {
        if !self.valid() {
            return true;
        }
        self.tl.approx_eq(&self.br, COORDINATE_EPSILON_E7)
    }

    /// The growth primitive: extends the latitude band by min/max and moves
    /// whichever longitude edge needs the smaller angular extension
    /// (accounting for antimeridian wraparound) onto the new point.  Fails,
    /// changing nothing, when the rectangle or coordinate is invalid or the
    /// point is already contained.
    fn extend_shape(&mut self, coord: &GeoCoordinate) -> (r: Result<(), PositioningError>)
        ensures
            *final(self) == spec_extend_state(*old(self), *coord),
            !spec_rect_valid(*old(self)) ==> r == Err::<(), PositioningError>(
                PositioningError::InvalidGeorectangle(*old(self)),
            ),
            spec_rect_valid(*old(self)) && !spec_coord_valid(*coord) ==> r == Err::<
                (),
                PositioningError,
            >(PositioningError::InvalidCoordinate(*coord)),
            spec_rect_valid(*old(self)) && spec_coord_valid(*coord) && spec_contains(
                *old(self),
                *coord,
            ) ==> r == Err::<(), PositioningError>(PositioningError::InvalidCoordinate(*coord)),
            spec_rect_valid(*old(self)) && spec_coord_valid(*coord) && !spec_contains(
                *old(self),
                *coord,
            ) ==> r is Ok && spec_rect_valid(*final(self)) && spec_contains(
                *final(self),
                *coord,
            ),
    {
        if !self.valid() {
            return Err(PositioningError::InvalidGeorectangle(*self));
        }
        if !coord.valid() {
            return Err(PositioningError::InvalidCoordinate(*coord));
        }
        let inside = self.contains(coord)?;
        if inside {
            return Err(PositioningError::InvalidCoordinate(*coord));
        }
        let mut left: i64 = self.tl.longitude_e7;
        let mut right: i64 = self.br.longitude_e7;
        let mut top: i64 = self.tl.latitude_e7;
        let mut bottom: i64 = self.br.latitude_e7;
        if coord.latitude_e7 > top {
            top = coord.latitude_e7;
        }
        if coord.latitude_e7 < bottom {
            bottom = coord.latitude_e7;
        }
        let wrap: bool = left > right;
        if wrap && coord.longitude_e7 > right && coord.longitude_e7 < left {
            let dl: i64 = left - coord.longitude_e7;
            let adl: i64 = if dl < 0 {
                -dl
            } else {
                dl
            };
            let dr: i64 = right - coord.longitude_e7;
            let adr: i64 = if dr < 0 {
                -dr
            } else {
                dr
            };
            if adl < adr {
                left = coord.longitude_e7;
            } else {
                right = coord.longitude_e7;
            }
        } else if !wrap {
            if coord.longitude_e7 < left {
                if 3600000000 - (right - coord.longitude_e7) < left - coord.longitude_e7 {
                    right = coord.longitude_e7;
                } else {
                    left = coord.longitude_e7;
                }
            } else if coord.longitude_e7 > right {
                if 3600000000 - (coord.longitude_e7 - left) < coord.longitude_e7 - right {
                    left = coord.longitude_e7;
                } else {
                    right = coord.longitude_e7;
                }
            }
        }
        self.tl = GeoCoordinate::new(top, left, None);
        self.br = GeoCoordinate::new(bottom, right, None);
        Ok(())
    }
}

} // verus!
