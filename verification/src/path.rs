//! An ordered sequence of coordinates with length computation.
//!
//! Insertion order is significant and duplicates are allowed.  Mutations that
//! add or replace an element reject an invalid coordinate before changing
//! anything, and index violations are rejected, never clamped.

use vstd::prelude::*;
use crate::coordinate::GeoCoordinate;
use crate::coordinate::COORDINATE_EPSILON_E7;
use crate::coordinate::spec_approx_eq;
use crate::coordinate::spec_coord_valid;
use crate::coordinate::spec_distance_mm;
use crate::errors::PositioningError;
use crate::georectangle::GeoRectangle;
use crate::georectangle::spec_from_list;
use crate::utility::spec_lat_wrap;
use crate::utility::spec_lon_wrap;

verus! {

/// Whether a path length closes the loop from the last point back to the
/// starting point.
#[derive(Debug, Clone, Copy)]
pub enum GeoPathLengthType {
    NoLoop,
    ClosedLoop,
}

/// An ordered sequence of coordinates.
#[derive(Debug, Clone)]
pub struct GeoPath {
    path: Vec<GeoCoordinate>,
}

/// A coordinate shifted by the given deltas, each angle clamped to its range;
/// the altitude rides along.
pub open spec fn spec_coord_translated(c: GeoCoordinate, dlat: int, dlon: int) -> GeoCoordinate {
    GeoCoordinate {
        latitude_e7: spec_lat_wrap(c.latitude_e7 + dlat) as i64,
        longitude_e7: spec_lon_wrap(c.longitude_e7 + dlon) as i64,
        altitude_mm: c.altitude_mm,
    }
}

/// The sum of the segment distances over segments `from .. j` of the path, or
/// the first invalid endpoint found, scanning segments in order.
pub open spec fn spec_length_to(s: Seq<GeoCoordinate>, from: int, j: int) -> Result<
    int,
    PositioningError,
>
    decreases j - from,
{
    if j <= from {
        Ok(0)
    } else {
        match spec_length_to(s, from, j - 1) {
            Err(e) => Err(e),
            Ok(sum) => {
                let k = j - 1;
                if !spec_coord_valid(s[k]) {
                    Err(PositioningError::InvalidCoordinate(s[k]))
                } else if !spec_coord_valid(s[k + 1]) {
                    Err(PositioningError::InvalidCoordinate(s[k + 1]))
                } else {
                    Ok(sum + spec_distance_mm(s[k], s[k + 1]))
                }
            },
        }
    }
}

/// What `length` returns, in millimeters: 0 for an empty path; the segment
/// sum from `from` up to `to` clamped to the last index; for a closed loop,
/// additionally the distance from the last point back to `s[from]`, with the
/// start index checked against the length.
pub open spec fn spec_path_length(
    s: Seq<GeoCoordinate>,
    from: int,
    to: int,
    length_type: GeoPathLengthType,
) -> Result<int, PositioningError> {
    if s.len() == 0 {
        Ok(0)
    } else {
        let hi = if to <= s.len() - 1 {
            to
        } else {
            s.len() - 1
        };
        match spec_length_to(s, from, hi) {
            Err(e) => Err(e),
            Ok(sum) => match length_type {
                GeoPathLengthType::NoLoop => Ok(sum),
                GeoPathLengthType::ClosedLoop => {
                    if from >= s.len() {
                        Err(PositioningError::IndexOutOfBounds(from as usize, s.len() as usize))
                    } else if !spec_coord_valid(s[s.len() - 1]) {
                        Err(PositioningError::InvalidCoordinate(s[s.len() - 1]))
                    } else if !spec_coord_valid(s[from]) {
                        Err(PositioningError::InvalidCoordinate(s[from]))
                    } else {
                        Ok(sum + spec_distance_mm(s[s.len() - 1], s[from]))
                    }
                },
            },
        }
    }
}

/// Once the segment scan hits an error it keeps it.
proof fn lemma_length_to_err(s: Seq<GeoCoordinate>, from: int, j: int, hi: int)
    requires
        j <= hi,
        spec_length_to(s, from, j) is Err,
    ensures
        spec_length_to(s, from, hi) == spec_length_to(s, from, j),
    decreases hi - j,
{
    if j < hi {
        lemma_length_to_err(s, from, j + 1, hi);
    }
}

fn copy_coordinates(path: &Vec<GeoCoordinate>) -> (r: Vec<GeoCoordinate>)
    ensures
        r@ == path@,
{
    let mut v: Vec<GeoCoordinate> = Vec::new();
    let mut i: usize = 0;
    while i < path.len()
        invariant
            i <= path.len(),
            v@ == path@.subrange(0, i as int),
        decreases path.len() - i,
    {
        v.push(path[i]);
        i = i + 1;
        proof {
            assert(v@ =~= path@.subrange(0, i as int));
        }
    }
    proof {
        assert(v@ =~= path@);
    }
    v
}

impl Default for GeoPath {
    /// The empty path.
    fn default() -> (r: Self)
        ensures
            r@ == Seq::<GeoCoordinate>::empty(),
    {
        GeoPath { path: Vec::new() }
    }
}

impl View for GeoPath {
    type V = Seq<GeoCoordinate>;

    closed spec fn view(&self) -> Seq<GeoCoordinate> {
        self.path@
    }
}

impl GeoPath {
    /// A path holding a copy of the given coordinates, in order.
    pub fn new(path: &Vec<GeoCoordinate>) -> (r: Self)
        ensures
            r@ == path@,
    {
        GeoPath { path: copy_coordinates(path) }
    }

    /// Appends a coordinate.  Fails, changing nothing, when it is invalid.
    pub fn add(&mut self, coordinate: GeoCoordinate) -> (r: Result<(), PositioningError>)
        ensures
            !spec_coord_valid(coordinate) ==> r == Err::<(), PositioningError>(
                PositioningError::InvalidCoordinate(coordinate),
            ) && final(self)@ == old(self)@,
            spec_coord_valid(coordinate) ==> r is Ok && final(self)@ == old(self)@.push(
                coordinate,
            ),
    {
        if !coordinate.valid() {
            return Err(PositioningError::InvalidCoordinate(coordinate));
        }
        self.path.push(coordinate);
        Ok(())
    }

    /// Inserts a coordinate at the index, shifting later elements.  Fails,
    /// changing nothing, when the coordinate is invalid or the index is past
    /// the end.
    pub fn insert(&mut self, index: usize, coordinate: GeoCoordinate) -> (r: Result<
        (),
        PositioningError,
    >)
        ensures
            !spec_coord_valid(coordinate) ==> r == Err::<(), PositioningError>(
                PositioningError::InvalidCoordinate(coordinate),
            ) && final(self)@ == old(self)@,
            spec_coord_valid(coordinate) && index > old(self)@.len() ==> r == Err::<
                (),
                PositioningError,
            >(PositioningError::IndexOutOfBounds(index, old(self)@.len() as usize)) && final(self)@ == old(self)@,
            spec_coord_valid(coordinate) && index <= old(self)@.len() ==> r is Ok && final(self)@
                == old(self)@.insert(index as int, coordinate),
    {
        if !coordinate.valid() {
            return Err(PositioningError::InvalidCoordinate(coordinate));
        }
        if index > self.path.len() {
            return Err(PositioningError::IndexOutOfBounds(index, self.path.len()));
        }
        self.path.insert(index, coordinate);
        Ok(())
    }

    /// The element at the index, or an out-of-bounds error naming the index
    /// and the current length.
    pub fn at(&self, index: usize) -> (r: Result<GeoCoordinate, PositioningError>)
        ensures
            index < self@.len() ==> r == Ok::<GeoCoordinate, PositioningError>(self@[index as int]),
            index >= self@.len() ==> r == Err::<GeoCoordinate, PositioningError>(
                PositioningError::IndexOutOfBounds(index, self@.len() as usize),
            ),
    {
        if index < self.path.len() {
            Ok(self.path[index])
        } else {
            Err(PositioningError::IndexOutOfBounds(index, self.path.len()))
        }
    }

    /// Removes the element at the index, shifting later elements.  Fails,
    /// changing nothing, when the index is out of bounds.
    pub fn remove(&mut self, index: usize) -> (r: Result<(), PositioningError>)
        ensures
            index >= old(self)@.len() ==> r == Err::<(), PositioningError>(
                PositioningError::IndexOutOfBounds(index, old(self)@.len() as usize),
            ) && final(self)@ == old(self)@,
            index < old(self)@.len() ==> r is Ok && final(self)@ == old(self)@.remove(
                index as int,
            ),
    {
        if index >= self.size() {
            return Err(PositioningError::IndexOutOfBounds(index, self.path.len()));
        }
        self.path.remove(index);
        Ok(())
    }

    /// Replaces the element at the index.  Fails, changing nothing, when the
    /// new coordinate is invalid or the index is out of bounds.
    pub fn replace(&mut self, index: usize, coordinate: GeoCoordinate) -> (r: Result<
        (),
        PositioningError,
    >)
        ensures
            !spec_coord_valid(coordinate) ==> r == Err::<(), PositioningError>(
                PositioningError::InvalidCoordinate(coordinate),
            ) && final(self)@ == old(self)@,
            spec_coord_valid(coordinate) && index >= old(self)@.len() ==> r == Err::<
                (),
                PositioningError,
            >(PositioningError::IndexOutOfBounds(index, old(self)@.len() as usize)) && final(self)@ == old(self)@,
            spec_coord_valid(coordinate) && index < old(self)@.len() ==> r is Ok && final(self)@
                == old(self)@.update(index as int, coordinate),
    {
        if !coordinate.valid() {
            return Err(PositioningError::InvalidCoordinate(coordinate));
        }
        if index >= self.size() {
            return Err(PositioningError::IndexOutOfBounds(index, self.path.len()));
        }
        self.path.set(index, coordinate);
        Ok(())
    }

    /// Whether some element equals the coordinate within the standard
    /// tolerance.
    pub fn contains(&self, coordinate: GeoCoordinate) -> (r: bool)
        ensures
            r == exists|i: int|
                0 <= i < self@.len() && spec_approx_eq(self@[i], coordinate, 3),
    {
        let mut i: usize = 0;
        while i < self.path.len()
            invariant
                i <= self@.len(),
                forall|j: int| 0 <= j < i ==> !spec_approx_eq(self@[j], coordinate, 3),
            decreases self@.len() - i,
        {
            if self.path[i].approx_eq(&coordinate, COORDINATE_EPSILON_E7) {
                return true;
            }
            i = i + 1;
        }
        false
    }

    /// Removes every element.
    pub fn clear(&mut self)
        ensures
            final(self)@ == Seq::<GeoCoordinate>::empty(),
    {
        self.path.clear()
    }

    /// The elements, in order.
    pub fn path(&self) -> (r: &Vec<GeoCoordinate>)
        ensures
            r@ == self@,
    {
        &self.path
    }

    /// Replaces the whole sequence.
    pub fn set_path(&mut self, path: Vec<GeoCoordinate>)
        ensures
            final(self)@ == path@,
    {
        self.path = path;
    }

    /// The number of elements.
    pub fn size(&self) -> (r: usize)
        ensures
            r == self@.len(),
    {
        self.path.len()
    }

    /// The length of the path in millimeters between the given element
    /// indices (`to` is clamped to the last index), optionally closing the
    /// loop back to the starting index; 0 for an empty path.  Fails on the
    /// first invalid element visited, or on a closed loop whose start index
    /// is out of bounds.  The length bound keeps the millimeter sum within
    /// the result type.
    #[verifier::rlimit(60)]
    pub fn length(&self, from: usize, to: usize, length_type: GeoPathLengthType) -> (r: Result<
        i64,
        PositioningError,
    >)
        requires
            self@.len() <= 400000000,
        ensures
            spec_path_length(self@, from as int, to as int, length_type) is Ok ==> r == Ok::<
                i64,
                PositioningError,
            >(spec_path_length(self@, from as int, to as int, length_type)->Ok_0 as i64),
            spec_path_length(self@, from as int, to as int, length_type) is Err ==> r == Err::<
                i64,
                PositioningError,
            >(spec_path_length(self@, from as int, to as int, length_type)->Err_0),
    {
        if self.path.is_empty() {
            return Ok(0);
        }
        let hi: usize = if to <= self.path.len() - 1 {
            to
        } else {
            self.path.len() - 1
        };
        let mut sum: i64 = 0;
        let mut i: usize = if from > hi {
            hi
        } else {
            from
        };
        while i < hi
            invariant
                i <= hi,
                from <= i || i == hi,
                hi < self@.len(),
                hi as int == if to as int <= self@.len() - 1 {
                    to as int
                } else {
                    self@.len() - 1
                },
                self@.len() <= 400000000,
                spec_length_to(self@, from as int, i as int) == Ok::<int, PositioningError>(
                    sum as int,
                ),
                0 <= sum <= 21000000000 * (i as int),
            decreases hi - i,
        {
            let a: GeoCoordinate = self.path[i];
            let b: GeoCoordinate = self.path[i + 1];
            match a.distance_to(&b) {
                Err(e) => {
                    proof {
                        assert(spec_length_to(self@, from as int, i + 1) == Err::<
                            int,
                            PositioningError,
                        >(e));
                        lemma_length_to_err(self@, from as int, i + 1, hi as int);
                        assert(hi as int == if to as int <= self@.len() - 1 {
                            to as int
                        } else {
                            self@.len() - 1
                        });
                        assert(spec_length_to(self@, from as int, hi as int) == Err::<
                            int,
                            PositioningError,
                        >(e));
                        assert(spec_path_length(self@, from as int, to as int, length_type)
                            == Err::<int, PositioningError>(e));
                    }
                    return Err(e);
                },
                Ok(d) => {
                    proof {
                        assert(spec_length_to(self@, from as int, i + 1) == Ok::<
                            int,
                            PositioningError,
                        >(sum + d));
                        assert(21000000000 * ((i + 1) as int) == 21000000000 * (i as int)
                            + 21000000000) by (nonlinear_arith);
                        assert(21000000000 * (i as int) <= 21000000000 * 400000000int) by (
                        nonlinear_arith)
                            requires
                                i <= 400000000,
                        ;
                    }
                    sum = sum + d;
                },
            }
            i = i + 1;
        }
        match length_type {
            GeoPathLengthType::NoLoop => Ok(sum),
            GeoPathLengthType::ClosedLoop => {
                if from >= self.path.len() {
                    return Err(PositioningError::IndexOutOfBounds(from, self.path.len()));
                }
                let last: GeoCoordinate = self.path[self.path.len() - 1];
                let start: GeoCoordinate = self.path[from];
                match last.distance_to(&start) {
                    Err(e) => Err(e),
                    Ok(d) => {
                        proof {
                            assert(21000000000 * (hi as int) <= 21000000000 * 400000000int) by (
                            nonlinear_arith)
                                requires
                                    hi <= 400000000,
                            ;
                        }
                        Ok(sum + d)
                    },
                }
            },
        }
    }

    /// The bounding rectangle of the path's points (see
    /// `GeoRectangle::from_list`).
    pub fn bounding_georectangle(&self) -> (r: GeoRectangle)
        ensures
            r == spec_from_list(self@),
    {
        GeoRectangle::from_list(&self.path)
    }

    /// Shifts every element by the deltas, clamping each angle to its range.
    pub fn translate(&mut self, latitude: i64, longitude: i64)
        ensures
            final(self)@.len() == old(self)@.len(),
            forall|i: int|
                0 <= i < old(self)@.len() ==> final(self)@[i] == spec_coord_translated(
                    old(self)@[i],
                    latitude as int,
                    longitude as int,
                ),
    {
        let n: usize = self.path.len();
        let mut i: usize = 0;
        while i < n
            invariant
                i <= n,
                n == self@.len(),
                forall|j: int|
                    i <= j < n ==> self@[j] == old(self)@[j],
                forall|j: int|
                    0 <= j < i ==> self@[j] == spec_coord_translated(
                        old(self)@[j],
                        latitude as int,
                        longitude as int,
                    ),
            decreases n - i,
        {
            let c: GeoCoordinate = self.path[i];
            let nlat128: i128 = c.latitude_e7 as i128 + latitude as i128;
            let nlon128: i128 = c.longitude_e7 as i128 + longitude as i128;
            let nlat: i64 = if nlat128 > 900000000 {
                900000000
            } else if nlat128 < -900000000 {
                -900000000
            } else {
                nlat128 as i64
            };
            let nlon: i64 = if nlon128 > 1800000000 {
                1800000000
            } else if nlon128 < -1800000000 {
                -1800000000
            } else {
                nlon128 as i64
            };
            self.path.set(i, GeoCoordinate::new(nlat, nlon, c.altitude_mm));
            i = i + 1;
        }
    }

    /// The path shifted as `translate` does, leaving this one unchanged.
    pub fn translated(&self, latitude: i64, longitude: i64) -> (r: GeoPath)
        ensures
            r@.len() == self@.len(),
            forall|i: int|
                0 <= i < self@.len() ==> r@[i] == spec_coord_translated(
                    self@[i],
                    latitude as int,
                    longitude as int,
                ),
    {
        let mut r = GeoPath { path: copy_coordinates(&self.path) };
        r.translate(latitude, longitude);
        r
    }
}

} // verus!
