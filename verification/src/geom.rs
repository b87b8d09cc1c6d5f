//! Plane geometry primitives: fixed-point 2-D vectors and partial
//! coordinates as they appear in plotting commands.

use vstd::prelude::*;

verus! {

/// Number of fixed-point steps in one drawing unit.
///
/// Gerber coordinate numbers carry six decimal places, so one drawing
/// unit (one millimetre or one inch, depending on the file's unit mode)
/// is `1_000_000` steps.
pub const SCALE: i64 = 1_000_000;

/// Largest magnitude accepted for an input coordinate or an aperture
/// dimension, in fixed-point steps (one million drawing units).
///
/// The bound is a machine limit: it keeps every product and sum that the
/// rasterizer forms inside `i64`/`i128` range.
pub const MAX_COORD: i64 = 1_000_000_000_000;

/// Largest magnitude a generated ring vertex can reach: an aperture of
/// maximal size flashed at a maximal coordinate stays within twice
/// [`MAX_COORD`].
pub const MAX_VERTEX: i64 = 2_000_000_000_000;

/// True iff `v` is an acceptable input coordinate or dimension value.
pub open spec fn coord_in_range(v: int) -> bool {
    -MAX_COORD <= v <= MAX_COORD
}

/// True iff `v` may appear as a vertex of an accumulated ring.
pub open spec fn vertex_in_range(v: int) -> bool {
    -MAX_VERTEX <= v <= MAX_VERTEX
}

/// A point or displacement of the drawing plane, in fixed-point steps.
#[derive(Clone, Copy, Debug, PartialEq, Eq, Structural)]
pub struct Vec2 {
    pub x: i64,
    pub y: i64,
}

impl Vec2 {
    /// Both components are acceptable input coordinates.
    pub open spec fn wf(self) -> bool {
        coord_in_range(self.x as int) && coord_in_range(self.y as int)
    }

    /// Both components are acceptable ring vertices.
    pub open spec fn vertex_wf(self) -> bool {
        vertex_in_range(self.x as int) && vertex_in_range(self.y as int)
    }

    pub fn new(x: i64, y: i64) -> (r: Self)
        ensures
            r == (Vec2 { x, y }),
    {
        Vec2 { x, y }
    }

    /// Component-wise sum.
    pub fn add(self, rhs: Self) -> (r: Self)
        requires
            i64::MIN <= self.x + rhs.x <= i64::MAX,
            i64::MIN <= self.y + rhs.y <= i64::MAX,
        ensures
            r.x == self.x + rhs.x,
            r.y == self.y + rhs.y,
    {
        Vec2 { x: self.x + rhs.x, y: self.y + rhs.y }
    }

    /// Component-wise negation.
    pub fn inv(&mut self)
        requires
            old(self).x != i64::MIN,
            old(self).y != i64::MIN,
        ensures
            final(self).x == -old(self).x,
            final(self).y == -old(self).y,
    {
        self.x = -self.x;
        self.y = -self.y;
    }

    /// Overwrites the components that `coord` specifies and keeps the
    /// others, the modal update rule of plotting coordinates.
    pub fn set(&mut self, coord: &Coord)
        ensures
            *final(self) == merged(*old(self), *coord),
    {
        if let Some(x) = coord.x {
            self.x = x;
        }
        if let Some(y) = coord.y {
            self.y = y;
        }
    }
}

/// A coordinate pair as a plotting command carries it: either axis may be
/// absent, meaning "keep the current value of that axis".
#[derive(Clone, Copy, Debug, PartialEq, Eq)]
pub struct Coord {
    pub x: Option<i64>,
    pub y: Option<i64>,
}

impl Coord {
    /// Every component that is present is an acceptable input coordinate.
    pub open spec fn wf(self) -> bool {
        &&& match self.x {
            Some(v) => coord_in_range(v as int),
            None => true,
        }
        &&& match self.y {
            Some(v) => coord_in_range(v as int),
            None => true,
        }
    }

    /// Both axes are present.
    pub open spec fn is_full(self) -> bool {
        self.x is Some && self.y is Some
    }

    pub fn new(x: i64, y: i64) -> (r: Self)
        ensures
            r == (Coord { x: Some(x), y: Some(y) }),
    {
        Coord { x: Some(x), y: Some(y) }
    }
}

/// The position reached from `p` by a modal coordinate `c`: each axis that
/// `c` specifies replaces the one of `p`.
pub open spec fn merged(p: Vec2, c: Coord) -> Vec2 {
    Vec2 {
        x: match c.x {
            Some(v) => v,
            None => p.x,
        },
        y: match c.y {
            Some(v) => v,
            None => p.y,
        },
    }
}

} // verus!
