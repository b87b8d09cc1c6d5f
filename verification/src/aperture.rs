//! Tool shapes: the aperture descriptors a command stream selects from,
//! and the catalog that maps aperture ids to them.

use std::collections::HashMap;

use vstd::prelude::*;

use crate::geom::{Vec2, MAX_COORD, SCALE};
use crate::rasterize::{circle_ring, rect_ring};

verus! {

broadcast use vstd::std_specs::hash::group_hash_axioms;

/// A tool shape, dimensions in fixed-point steps.
///
/// `Polygon` and `Other` are declared because command streams mention
/// them, but they are unsupported: rasterizing one is an error, and a
/// stroke through one falls back to a default thickness.
#[derive(Clone, Copy, Debug, PartialEq, Eq)]
pub enum Aperture {
    Circle { diameter: i64 },
    Rectangle { x: i64, y: i64 },
    Obround { x: i64, y: i64 },
    Polygon,
    Other,
}

impl Aperture {
    /// Dimensions are non-negative and within the machine bound.
    pub open spec fn wf(self) -> bool {
        match self {
            Aperture::Circle { diameter } => 0 <= diameter <= MAX_COORD,
            Aperture::Rectangle { x, y } => 0 <= x <= MAX_COORD && 0 <= y <= MAX_COORD,
            Aperture::Obround { x, y } => 0 <= x <= MAX_COORD && 0 <= y <= MAX_COORD,
            Aperture::Polygon => true,
            Aperture::Other => true,
        }
    }

    /// The aperture has a well-defined stroke width: circles their
    /// diameter, rectangles and obrounds their larger side.
    pub open spec fn thickness_defined(self) -> bool {
        !(self is Polygon || self is Other)
    }

    /// Stroke width of the aperture; unsupported shapes fall back to one
    /// drawing unit.
    pub open spec fn stroke_thickness(self) -> int {
        match self {
            Aperture::Circle { diameter } => diameter as int,
            Aperture::Rectangle { x, y } => if x >= y {
                x as int
            } else {
                y as int
            },
            Aperture::Obround { x, y } => if x >= y {
                x as int
            } else {
                y as int
            },
            Aperture::Polygon => SCALE as int,
            Aperture::Other => SCALE as int,
        }
    }

    /// The outline the aperture stamps when flashed at `c`, or `None`
    /// where the shape is unsupported: polygon apertures, `Other`
    /// apertures, and obrounds that do not degenerate to a circle.
    pub open spec fn ring_at(self, c: Vec2) -> Option<Seq<Vec2>> {
        match self {
            Aperture::Circle { diameter } => Some(circle_ring(c, diameter as int / 2)),
            Aperture::Rectangle { x, y } => Some(rect_ring(c, x as int, y as int)),
            Aperture::Obround { x, y } => if x == y {
                Some(circle_ring(c, x as int / 2))
            } else {
                None
            },
            Aperture::Polygon => None,
            Aperture::Other => None,
        }
    }

    /// Runtime check for [`Aperture::wf`].
    pub fn wf_check(&self) -> (b: bool)
        ensures
            b == self.wf(),
    {
        match self {
            Aperture::Circle { diameter } => 0 <= *diameter && *diameter <= MAX_COORD,
            Aperture::Rectangle { x, y } => 0 <= *x && *x <= MAX_COORD && 0 <= *y && *y
                <= MAX_COORD,
            Aperture::Obround { x, y } => 0 <= *x && *x <= MAX_COORD && 0 <= *y && *y
                <= MAX_COORD,
            Aperture::Polygon => true,
            Aperture::Other => true,
        }
    }
}

/// The mapping from integer aperture id to tool shape, supplied once per
/// command stream and read-only during interpretation.
///
/// Every aperture that enters through [`ApertureCatalog::insert`] is
/// checked, so a catalog holds well-formed shapes only.
#[derive(Debug)]
pub struct ApertureCatalog {
    map: HashMap<i32, Aperture>,
}

impl ApertureCatalog {
    /// The catalog as a mathematical map.
    pub closed spec fn view(&self) -> Map<i32, Aperture> {
        self.map@
    }

    /// Every stored aperture is well-formed.
    pub open spec fn wf(&self) -> bool {
        forall|id: i32| self@.contains_key(id) ==> (#[trigger] self@[id]).wf()
    }

    pub fn new() -> (r: Self)
        ensures
            r@ == Map::<i32, Aperture>::empty(),
            r.wf(),
    {
        ApertureCatalog { map: HashMap::new() }
    }

    /// Stores `ap` under `id` if its dimensions are acceptable; rejects
    /// it (and leaves the catalog unchanged) otherwise.
    pub fn insert(&mut self, id: i32, ap: Aperture) -> (ok: bool)
        requires
            old(self).wf(),
        ensures
            final(self).wf(),
            ap.wf() ==> ok && final(self)@ == old(self)@.insert(id, ap),
            !ap.wf() ==> !ok && final(self)@ == old(self)@,
    {
        if ap.wf_check() {
            self.map.insert(id, ap);
            proof {
                assert forall|k: i32| self@.contains_key(k) implies (#[trigger] self@[k]).wf() by {
                    if k != id {
                        assert(old(self)@.contains_key(k));
                    }
                }
            }
            true
        } else {
            false
        }
    }

    /// Looks an aperture up by id.
    pub fn get(&self, id: i32) -> (r: Option<&Aperture>)
        ensures
            match r {
                Some(ap) => self@.contains_key(id) && *ap == self@[id],
                None => !self@.contains_key(id),
            },
    {
        self.map.get(&id)
    }

    pub fn len(&self) -> (n: usize)
        ensures
            n == self@.len(),
    {
        self.map.len()
    }
}

} // verus!
