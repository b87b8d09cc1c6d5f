//! The polygon accumulator: one physical board layer as the growing set
//! of closed polygon rings produced by interpreting a command stream.
//!
//! A layer carries the accumulated geometry in two forms, kept in step
//! by every merge.  The *primitive* rings record exactly which shapes
//! were submitted: duplicates are never stored, nothing is dropped or
//! rewritten, and the accumulator's laws (idempotence, order
//! independence, growing bounds) are proved of them.  The *resolved*
//! paths are the boolean union of the same shapes under the nonzero
//! fill rule, computed by the clipping library each time a batch is
//! merged: existing paths as the subject, the batch as the clip.  A merge is atomic — on any
//! failure, the clipping library's included, the layer is left exactly
//! as it was and the batch is dropped whole.

use vstd::prelude::*;

use crate::command::InterpretError;
use crate::geom::Vec2;
use crate::rasterize::ring_wf;

verus! {

/// A color tag for a layer, one byte per channel.
#[derive(Clone, Copy, Debug, PartialEq, Eq, Structural)]
pub struct Rgba {
    pub r: u8,
    pub g: u8,
    pub b: u8,
    pub a: u8,
}

/// An axis-aligned bounding box: `x`/`y` is the minimal corner.
#[derive(Clone, Copy, Debug, PartialEq, Eq, Structural)]
pub struct Bounds {
    pub x: i64,
    pub y: i64,
    pub width: i64,
    pub height: i64,
}

/// The rings of a path list, as a sequence of vertex sequences.
pub open spec fn deep(paths: Seq<Vec<Vec2>>) -> Seq<Seq<Vec2>> {
    paths.map_values(|r: Vec<Vec2>| r@)
}

/// `paths` already stores ring `r`.
pub open spec fn has_ring(paths: Seq<Seq<Vec2>>, r: Seq<Vec2>) -> bool {
    exists|i: int| 0 <= i < paths.len() && paths[i] == r
}

/// Merging a single ring: appended unless it is degenerate (fewer than
/// three vertices) or already stored — merging identical geometry twice
/// changes nothing.
pub open spec fn merge_step(paths: Seq<Seq<Vec2>>, r: Seq<Vec2>) -> Seq<Seq<Vec2>> {
    if r.len() >= 3 && !has_ring(paths, r) {
        paths.push(r)
    } else {
        paths
    }
}

/// Merging a batch of rings, in order.
pub open spec fn merge_rings(paths: Seq<Seq<Vec2>>, shapes: Seq<Seq<Vec2>>) -> Seq<
    Seq<Vec2>,
>
    decreases shapes.len(),
{
    if shapes.len() == 0 {
        paths
    } else {
        merge_step(merge_rings(paths, shapes.drop_last()), shapes.last())
    }
}

/// A ring a merge accepts: empty (and skipped), or a closed outline of at
/// least three vertices within the vertex bound.
pub open spec fn ring_ok(r: Seq<Vec2>) -> bool {
    r.len() == 0 || (r.len() >= 3 && ring_wf(r))
}

/// Every ring of the batch is acceptable.
pub open spec fn shapes_ok(shapes: Seq<Seq<Vec2>>) -> bool {
    forall|i: int| 0 <= i < shapes.len() ==> ring_ok(#[trigger] shapes[i])
}

/// Every vertex of every ring lies inside the box `b`.
pub open spec fn covers(rs: Seq<Seq<Vec2>>, b: Bounds) -> bool {
    forall|i: int, j: int|
        0 <= i < rs.len() && 0 <= j < rs[i].len() ==> b.x <= (#[trigger] rs[i][j]).x <= b.x
            + b.width && b.y <= rs[i][j].y <= b.y + b.height
}

/// Each side of the box `b` touches some vertex: the box is as small as
/// a covering box can be.
pub open spec fn tight(rs: Seq<Seq<Vec2>>, b: Bounds) -> bool {
    &&& exists|i: int, j: int|
        0 <= i < rs.len() && 0 <= j < rs[i].len() && (#[trigger] rs[i][j]).x == b.x
    &&& exists|i: int, j: int|
        0 <= i < rs.len() && 0 <= j < rs[i].len() && (#[trigger] rs[i][j]).x == b.x + b.width
    &&& exists|i: int, j: int|
        0 <= i < rs.len() && 0 <= j < rs[i].len() && (#[trigger] rs[i][j]).y == b.y
    &&& exists|i: int, j: int|
        0 <= i < rs.len() && 0 <= j < rs[i].len() && (#[trigger] rs[i][j]).y == b.y + b.height
}

/// Every ring of the list is a closed in-bound outline: at least three
/// vertices, all within the vertex bound.
pub open spec fn closed_rings(rs: Seq<Seq<Vec2>>) -> bool {
    forall|i: int| 0 <= i < rs.len() ==> (#[trigger] rs[i]).len() >= 3 && ring_wf(rs[i])
}

/// The boolean fill-rule union of integer-coordinate closed paths, as
/// the clipping library computes it: the result is a function of the
/// subject and clip paths alone.
pub uninterp spec fn union_of(subject: Seq<Seq<Vec2>>, clip: Seq<Seq<Vec2>>) -> Seq<Seq<Vec2>>;

/// Whether the clipping library accepts the union of these paths.  Its
/// engine is a deterministic computation over its inputs — failure is
/// an error return, not an exception — so acceptance, like the result,
/// is a function of the subject and clip paths alone.
pub uninterp spec fn union_accepts(subject: Seq<Seq<Vec2>>, clip: Seq<Seq<Vec2>>) -> bool;

/// A batch the accumulator's merge succeeds on: every ring acceptable,
/// the clipping library accepting the union, and the union it returns a
/// list of closed in-bound rings.
pub open spec fn merge_accepted(outlines: Seq<Seq<Vec2>>, batch: Seq<Seq<Vec2>>) -> bool {
    &&& shapes_ok(batch)
    &&& union_accepts(outlines, batch)
    &&& closed_rings(union_of(outlines, batch))
}

/// Relies on clipper2's boolean union (`Clipper::union` under the
/// nonzero fill rule), through its integer interface: `from_scaled`
/// and `x_scaled`/`y_scaled` pass the fixed-point coordinates straight
/// to the clipper and back, so both the result and the accept/reject
/// verdict depend on the integer inputs alone.  The vertex bound keeps
/// every coordinate far inside the clipper's documented range.
#[verifier::external_body]
fn clip_union(subject: &Vec<Vec<Vec2>>, clip: &Vec<Vec<Vec2>>) -> (r: Result<
    Vec<Vec<Vec2>>,
    InterpretError,
>)
    requires
        forall|i: int| 0 <= i < deep(subject@).len() ==> ring_wf(#[trigger] deep(subject@)[i]),
        forall|i: int| 0 <= i < deep(clip@).len() ==> ring_wf(#[trigger] deep(clip@)[i]),
    ensures
        r is Ok <==> union_accepts(deep(subject@), deep(clip@)),
        r matches Ok(out) ==> deep(out@) == union_of(deep(subject@), deep(clip@)),
        r matches Err(e) ==> e == InterpretError::UnionFailure,
{
    let conv = |rs: &Vec<Vec<Vec2>>| clipper2::Paths::<clipper2::Centi>::new(
        rs.iter().map(|ring| clipper2::Path::new(ring.iter().map(|v| clipper2::Point::from_scaled(v.x, v.y)).collect())).collect(),
    );
    match conv(subject).to_clipper_subject().add_clip(conv(clip)).union(clipper2::FillRule::NonZero) {
        Ok(paths) => Ok(paths.iter().map(|path| path.iter().map(|p| Vec2 { x: p.x_scaled(), y: p.y_scaled() }).collect()).collect()),
        Err(_) => Err(InterpretError::UnionFailure),
    }
}

/// The accumulated geometry of one physical board layer: the primitive
/// rings submitted so far, their resolved fill-rule union, and the
/// color the layer is drawn in.
#[derive(Clone, Debug)]
pub struct Layer {
    primitives: Vec<Vec<Vec2>>,
    paths: Vec<Vec<Vec2>>,
    color: Rgba,
}

impl Layer {
    /// The stored primitive rings.
    pub closed spec fn rings(&self) -> Seq<Seq<Vec2>> {
        deep(self.primitives@)
    }

    /// The resolved paths: the boolean union of every merged batch.
    pub closed spec fn resolved(&self) -> Seq<Seq<Vec2>> {
        deep(self.paths@)
    }

    /// The layer's color tag.
    pub closed spec fn color_spec(&self) -> Rgba {
        self.color
    }

    /// Every stored ring — primitive or resolved — has at least three
    /// vertices, all within the vertex bound.
    pub open spec fn wf(&self) -> bool {
        &&& forall|i: int|
            0 <= i < self.rings().len() ==> (#[trigger] self.rings()[i]).len() >= 3
                && ring_wf(self.rings()[i])
        &&& forall|i: int|
            0 <= i < self.resolved().len() ==> (#[trigger] self.resolved()[i]).len() >= 3
                && ring_wf(self.resolved()[i])
    }

    /// A fresh, empty layer with the given color.
    pub fn new(color: Rgba) -> (r: Self)
        ensures
            r.rings() =~= Seq::<Seq<Vec2>>::empty(),
            r.resolved() =~= Seq::<Seq<Vec2>>::empty(),
            r.color_spec() == color,
            r.wf(),
    {
        Layer { primitives: Vec::new(), paths: Vec::new(), color }
    }

    /// True iff no primitive ring is stored.
    ///
    /// This judges the recorded primitives, not the resolved paths; the
    /// two disagree only when every merged batch resolved to nothing
    /// (zero-area geometry, such as a zero-diameter flash), where the
    /// resolved paths stay empty while primitives are on record.
    pub fn empty(&self) -> (b: bool)
        ensures
            b == (self.rings().len() == 0),
    {
        self.primitives.len() == 0
    }

    /// Drops all stored geometry; the color survives.
    pub fn clear(&mut self)
        ensures
            final(self).rings() =~= Seq::<Seq<Vec2>>::empty(),
            final(self).resolved() =~= Seq::<Seq<Vec2>>::empty(),
            final(self).color_spec() == old(self).color_spec(),
            final(self).wf(),
    {
        self.primitives = Vec::new();
        self.paths = Vec::new();
    }

    /// The resolved paths — the fill-rule union of everything merged so
    /// far — for rendering.
    pub fn paths(&self) -> (r: &Vec<Vec<Vec2>>)
        ensures
            deep(r@) == self.resolved(),
    {
        &self.paths
    }

    /// The stored primitive rings, exactly as submitted.
    pub fn primitives(&self) -> (r: &Vec<Vec<Vec2>>)
        ensures
            deep(r@) == self.rings(),
    {
        &self.primitives
    }

    /// The layer's color tag.
    pub fn color(&self) -> (c: Rgba)
        ensures
            c == self.color_spec(),
    {
        self.color
    }

    /// The axis-aligned bounding box of all stored primitive rings.
    ///
    /// An empty layer yields the zero-sized box at the origin; callers
    /// that need a meaningful box must ask [`Layer::empty`] first.  A
    /// non-empty layer yields the unique box that covers every vertex
    /// and touches one on each side.  Like [`Layer::empty`] this judges
    /// the recorded primitives; it can exceed the resolved paths' box
    /// only by the extent of zero-area geometry.
    pub fn get_bounds(&self) -> (b: Bounds)
        requires
            self.wf(),
        ensures
            self.rings().len() == 0 ==> b == (Bounds { x: 0, y: 0, width: 0, height: 0 }),
            self.rings().len() > 0 ==> covers(self.rings(), b) && tight(self.rings(), b),
    {
        let ghost rs = self.rings();
        if self.primitives.len() == 0 {
            return Bounds { x: 0, y: 0, width: 0, height: 0 };
        }
        proof {
            assert(rs[0] == self.primitives@[0]@);
            assert(rs[0].len() >= 3);
        }
        let first = self.primitives[0][0];
        proof {
            assert(first == rs[0][0]);
            assert(rs[0][0].vertex_wf());
        }
        let mut min_x = first.x;
        let mut max_x = first.x;
        let mut min_y = first.y;
        let mut max_y = first.y;
        let mut i: usize = 0;
        while i < self.primitives.len()
            invariant
                self.wf(),
                rs == self.rings(),
                0 < rs.len(),
                i <= rs.len(),
                min_x <= max_x,
                min_y <= max_y,
                -crate::geom::MAX_VERTEX <= min_x,
                max_x <= crate::geom::MAX_VERTEX,
                -crate::geom::MAX_VERTEX <= min_y,
                max_y <= crate::geom::MAX_VERTEX,
                exists|a: int, c: int|
                    0 <= a < rs.len() && 0 <= c < rs[a].len() && (#[trigger] rs[a][c]).x == min_x,
                exists|a: int, c: int|
                    0 <= a < rs.len() && 0 <= c < rs[a].len() && (#[trigger] rs[a][c]).x == max_x,
                exists|a: int, c: int|
                    0 <= a < rs.len() && 0 <= c < rs[a].len() && (#[trigger] rs[a][c]).y == min_y,
                exists|a: int, c: int|
                    0 <= a < rs.len() && 0 <= c < rs[a].len() && (#[trigger] rs[a][c]).y == max_y,
                forall|a: int, c: int|
                    0 <= a < i && 0 <= c < rs[a].len() ==> min_x <= (#[trigger] rs[a][c]).x
                        <= max_x && min_y <= rs[a][c].y <= max_y,
            decreases rs.len() - i,
        {
            let ring = &self.primitives[i];
            proof {
                assert(ring@ == rs[i as int]);
            }
            let mut j: usize = 0;
            while j < ring.len()
                invariant
                    self.wf(),
                    rs == self.rings(),
                    0 < rs.len(),
                    i < rs.len(),
                    ring@ == rs[i as int],
                    j <= rs[i as int].len(),
                    min_x <= max_x,
                    min_y <= max_y,
                    -crate::geom::MAX_VERTEX <= min_x,
                    max_x <= crate::geom::MAX_VERTEX,
                    -crate::geom::MAX_VERTEX <= min_y,
                    max_y <= crate::geom::MAX_VERTEX,
                    exists|a: int, c: int|
                        0 <= a < rs.len() && 0 <= c < rs[a].len() && (#[trigger] rs[a][c]).x
                            == min_x,
                    exists|a: int, c: int|
                        0 <= a < rs.len() && 0 <= c < rs[a].len() && (#[trigger] rs[a][c]).x
                            == max_x,
                    exists|a: int, c: int|
                        0 <= a < rs.len() && 0 <= c < rs[a].len() && (#[trigger] rs[a][c]).y
                            == min_y,
                    exists|a: int, c: int|
                        0 <= a < rs.len() && 0 <= c < rs[a].len() && (#[trigger] rs[a][c]).y
                            == max_y,
                    forall|a: int, c: int|
                        0 <= a < i && 0 <= c < rs[a].len() ==> min_x <= (#[trigger] rs[a][c]).x
                            <= max_x && min_y <= rs[a][c].y <= max_y,
                    forall|c: int|
                        0 <= c < j ==> min_x <= (#[trigger] rs[i as int][c]).x <= max_x && min_y
                            <= rs[i as int][c].y <= max_y,
                decreases rs[i as int].len() - j,
            {
                let v = ring[j];
                proof {
                    assert(v == rs[i as int][j as int]);
                    assert(rs[i as int][j as int].vertex_wf());
                }
                if v.x < min_x {
                    min_x = v.x;
                    proof {
                        assert(rs[i as int][j as int].x == min_x);
                    }
                }
                if v.x > max_x {
                    max_x = v.x;
                    proof {
                        assert(rs[i as int][j as int].x == max_x);
                    }
                }
                if v.y < min_y {
                    min_y = v.y;
                    proof {
                        assert(rs[i as int][j as int].y == min_y);
                    }
                }
                if v.y > max_y {
                    max_y = v.y;
                    proof {
                        assert(rs[i as int][j as int].y == max_y);
                    }
                }
                j = j + 1;
            }
            i = i + 1;
        }
        Bounds { x: min_x, y: min_y, width: max_x - min_x, height: max_y - min_y }
    }

    /// Merges a batch of rings into the layer: the existing resolved
    /// paths are the union's subject, the batch its clip, and the
    /// primitive rings record the batch alongside.
    ///
    /// The merge is atomic.  It is rejected whole — with
    /// [`InterpretError::UnionFailure`], the layer exactly unchanged —
    /// when and only when any ring of the batch is degenerate (one or
    /// two vertices) or out of the vertex bound, the clipping library
    /// rejects the union, or what it returns is no list of closed
    /// in-bound rings: see [`merge_accepted`].  On success the resolved
    /// paths are exactly the union of the old ones with the batch, and
    /// each non-empty ring of the batch not already recorded is
    /// appended to the primitives, in order.
    pub fn union(&mut self, new_shapes: &Vec<Vec<Vec2>>) -> (r: Result<
        (),
        crate::command::InterpretError,
    >)
        requires
            old(self).wf(),
        ensures
            final(self).color_spec() == old(self).color_spec(),
            final(self).wf(),
            r is Ok <==> merge_accepted(old(self).resolved(), deep(new_shapes@)),
            r is Ok ==> final(self).rings() == merge_rings(
                old(self).rings(),
                deep(new_shapes@),
            ) && final(self).resolved() == union_of(old(self).resolved(), deep(new_shapes@)),
            r matches Err(e) ==> {
                &&& e == crate::command::InterpretError::UnionFailure
                &&& *final(self) == *old(self)
            },
    {
        let mut i: usize = 0;
        while i < new_shapes.len()
            invariant
                i <= new_shapes@.len(),
                *self == *old(self),
                old(self).wf(),
                forall|k: int| 0 <= k < i ==> ring_ok(#[trigger] deep(new_shapes@)[k]),
            decreases new_shapes@.len() - i,
        {
            if !ring_ok_check(&new_shapes[i]) {
                proof {
                    assert(!ring_ok(deep(new_shapes@)[i as int]));
                }
                return Err(crate::command::InterpretError::UnionFailure);
            }
            i = i + 1;
        }
        proof {
            assert forall|k: int|
                0 <= k < deep(self.paths@).len() implies ring_wf(
                #[trigger] deep(self.paths@)[k],
            ) by {
                assert(self.resolved()[k].len() >= 3 && ring_wf(self.resolved()[k]));
            }
            assert forall|k: int|
                0 <= k < deep(new_shapes@).len() implies ring_wf(
                #[trigger] deep(new_shapes@)[k],
            ) by {
                assert(ring_ok(deep(new_shapes@)[k]));
            }
        }
        let resolved = match clip_union(&self.paths, new_shapes) {
            Ok(out) => out,
            Err(e) => {
                return Err(e);
            },
        };
        if !closed_rings_check(&resolved) {
            return Err(crate::command::InterpretError::UnionFailure);
        }
        let ghost rv = resolved@;
        self.paths = resolved;
        proof {
            assert(self.paths@ == rv);
            assert(self.primitives@ == old(self).primitives@);
            assert(self.rings() == old(self).rings());
            assert forall|k: int|
                0 <= k < self.rings().len() implies {
                    &&& (#[trigger] self.rings()[k]).len() >= 3
                    &&& ring_wf(self.rings()[k])
                } by {
                assert(old(self).rings()[k].len() >= 3 && ring_wf(old(self).rings()[k]));
            }
            assert forall|k: int|
                0 <= k < self.resolved().len() implies {
                    &&& (#[trigger] self.resolved()[k]).len() >= 3
                    &&& ring_wf(self.resolved()[k])
                } by {
                assert(deep(rv)[k].len() >= 3 && ring_wf(deep(rv)[k]));
            }
            assert(self.wf());
        }
        let mut j: usize = 0;
        while j < new_shapes.len()
            invariant
                j <= new_shapes@.len(),
                shapes_ok(deep(new_shapes@)),
                self.color == old(self).color,
                self.wf(),
                self.resolved() == union_of(old(self).resolved(), deep(new_shapes@)),
                self.rings() == merge_rings(
                    old(self).rings(),
                    deep(new_shapes@).take(j as int),
                ),
            decreases new_shapes@.len() - j,
        {
            proof {
                assert(deep(new_shapes@).take(j + 1).drop_last() =~= deep(
                    new_shapes@,
                ).take(j as int));
                assert(deep(new_shapes@).take(j + 1).last() == deep(new_shapes@)[j as int]);
            }
            self.merge_one(&new_shapes[j]);
            j = j + 1;
        }
        proof {
            assert(deep(new_shapes@).take(new_shapes@.len() as int) =~= deep(new_shapes@));
        }
        Ok(())
    }

    /// Applies one [`merge_step`] to the stored primitive rings; the
    /// resolved paths are untouched.
    fn merge_one(&mut self, ring: &Vec<Vec2>)
        requires
            old(self).wf(),
            ring_ok(ring@),
        ensures
            final(self).rings() == merge_step(old(self).rings(), ring@),
            final(self).resolved() == old(self).resolved(),
            final(self).color_spec() == old(self).color_spec(),
            final(self).wf(),
    {
        if ring.len() < 3 {
            proof {
                assert(merge_step(self.rings(), ring@) =~= self.rings());
            }
            return ;
        }
        if contains_ring(&self.primitives, ring) {
            proof {
                assert(merge_step(self.rings(), ring@) =~= self.rings());
            }
            return ;
        }
        let ghost old_rings = self.rings();
        self.primitives.push(copy_ring(ring));
        proof {
            assert(self.rings() =~= old_rings.push(ring@));
        }
    }
}

impl Default for Layer {
    /// A fresh, empty layer painted black.
    fn default() -> (r: Self)
        ensures
            r.rings() =~= Seq::<Seq<Vec2>>::empty(),
            r.resolved() =~= Seq::<Seq<Vec2>>::empty(),
            r.color_spec() == (Rgba { r: 0, g: 0, b: 0, a: 255 }),
            r.wf(),
    {
        Layer::new(Rgba { r: 0, g: 0, b: 0, a: 255 })
    }
}

/// A fresh vertex vector with the same contents.
fn copy_ring(r: &Vec<Vec2>) -> (c: Vec<Vec2>)
    ensures
        c@ == r@,
{
    let mut c: Vec<Vec2> = Vec::with_capacity(r.len());
    let mut i: usize = 0;
    while i < r.len()
        invariant
            i <= r@.len(),
            c@ == r@.take(i as int),
        decreases r@.len() - i,
    {
        c.push(r[i]);
        proof {
            assert(c@ =~= r@.take(i + 1));
        }
        i = i + 1;
    }
    proof {
        assert(r@.take(r@.len() as int) =~= r@);
    }
    c
}

/// Runtime check for [`ring_ok`].
fn ring_ok_check(ring: &Vec<Vec2>) -> (b: bool)
    ensures
        b == ring_ok(ring@),
{
    if ring.len() == 0 {
        return true;
    }
    if ring.len() < 3 {
        return false;
    }
    let mut i: usize = 0;
    while i < ring.len()
        invariant
            i <= ring@.len(),
            forall|k: int| 0 <= k < i ==> (#[trigger] ring@[k]).vertex_wf(),
        decreases ring@.len() - i,
    {
        let v = ring[i];
        if !(-crate::geom::MAX_VERTEX <= v.x && v.x <= crate::geom::MAX_VERTEX
            && -crate::geom::MAX_VERTEX <= v.y && v.y <= crate::geom::MAX_VERTEX) {
            return false;
        }
        i = i + 1;
    }
    true
}

/// Runtime check for [`closed_rings`].
fn closed_rings_check(paths: &Vec<Vec<Vec2>>) -> (b: bool)
    ensures
        b == closed_rings(deep(paths@)),
{
    let mut i: usize = 0;
    while i < paths.len()
        invariant
            i <= paths@.len(),
            forall|k: int|
                0 <= k < i ==> (#[trigger] deep(paths@)[k]).len() >= 3 && ring_wf(
                    deep(paths@)[k],
                ),
        decreases paths@.len() - i,
    {
        let ring = &paths[i];
        proof {
            assert(deep(paths@)[i as int] == ring@);
        }
        if ring.len() < 3 {
            return false;
        }
        if !ring_ok_check(ring) {
            return false;
        }
        i = i + 1;
    }
    true
}

/// Element-wise ring equality.
fn rings_equal(a: &Vec<Vec2>, b: &Vec<Vec2>) -> (eq: bool)
    ensures
        eq == (a@ == b@),
{
    if a.len() != b.len() {
        proof {
            assert(a@.len() != b@.len());
        }
        return false;
    }
    let mut i: usize = 0;
    while i < a.len()
        invariant
            a@.len() == b@.len(),
            i <= a@.len(),
            forall|k: int| 0 <= k < i ==> a@[k] == b@[k],
        decreases a@.len() - i,
    {
        if !(a[i] == b[i]) {
            return false;
        }
        i = i + 1;
    }
    proof {
        assert(a@ =~= b@);
    }
    true
}

/// Linear scan for a stored ring equal to `r`.
fn contains_ring(paths: &Vec<Vec<Vec2>>, r: &Vec<Vec2>) -> (b: bool)
    ensures
        b == has_ring(deep(paths@), r@),
{
    let mut i: usize = 0;
    while i < paths.len()
        invariant
            i <= paths@.len(),
            forall|k: int| 0 <= k < i ==> deep(paths@)[k] != r@,
        decreases paths@.len() - i,
    {
        if rings_equal(&paths[i], r) {
            proof {
                assert(deep(paths@)[i as int] == r@);
            }
            return true;
        }
        i = i + 1;
    }
    false
}

} // verus!
