//! The laws of the accumulator and interpreter: idempotence of merging,
//! order independence of flashes, monotonicity of bounds, and the
//! degradation rule for unknown apertures, each proved from the same
//! spec functions the executable contracts use.

use vstd::prelude::*;
use vstd::seq_lib::group_to_multiset_ensures;

use crate::aperture::Aperture;
use crate::command::{InterpretError, PlottingCommand};
use crate::geom::{merged, Coord, Vec2};
use crate::interp::{interp_from, istep, no_merge_failure, InterpState};
use crate::layer::{covers, has_ring, merge_rings, merge_step, tight, union_of, Bounds};

verus! {

/// A pushed ring is found exactly where it was pushed or where it
/// already was.
proof fn lemma_has_ring_push(p: Seq<Seq<Vec2>>, x: Seq<Vec2>, r: Seq<Vec2>)
    ensures
        has_ring(p.push(x), r) <==> (has_ring(p, r) || x == r),
{
    if has_ring(p, r) {
        let i = choose|i: int| 0 <= i < p.len() && p[i] == r;
        assert(p.push(x)[i] == r);
    }
    if x == r {
        assert(p.push(x)[p.len() as int] == r);
    }
    if has_ring(p.push(x), r) {
        let i = choose|i: int| 0 <= i < p.push(x).len() && p.push(x)[i] == r;
        if i < p.len() {
            assert(p[i] == r);
        } else {
            assert(x == r);
        }
    }
}

/// Merging never loses a stored ring.
proof fn lemma_step_preserves_has(p: Seq<Seq<Vec2>>, x: Seq<Vec2>, r: Seq<Vec2>)
    requires
        has_ring(p, r),
    ensures
        has_ring(merge_step(p, x), r),
{
    lemma_has_ring_push(p, x, r);
}

/// After merging an acceptable ring, it is stored.
proof fn lemma_step_adds(p: Seq<Seq<Vec2>>, r: Seq<Vec2>)
    requires
        r.len() >= 3,
    ensures
        has_ring(merge_step(p, r), r),
{
    lemma_has_ring_push(p, r, r);
}

/// Merging a batch never loses a stored ring.
proof fn lemma_merge_preserves_has(p: Seq<Seq<Vec2>>, s: Seq<Seq<Vec2>>, r: Seq<Vec2>)
    requires
        has_ring(p, r),
    ensures
        has_ring(merge_rings(p, s), r),
    decreases s.len(),
{
    if s.len() > 0 {
        lemma_merge_preserves_has(p, s.drop_last(), r);
        lemma_step_preserves_has(merge_rings(p, s.drop_last()), s.last(), r);
    }
}

/// After merging a batch, each of its closed rings is stored.
proof fn lemma_merge_all_present(p: Seq<Seq<Vec2>>, s: Seq<Seq<Vec2>>)
    ensures
        forall|i: int|
            0 <= i < s.len() && (#[trigger] s[i]).len() >= 3 ==> has_ring(merge_rings(p, s), s[i]),
    decreases s.len(),
{
    if s.len() > 0 {
        lemma_merge_all_present(p, s.drop_last());
        let q = merge_rings(p, s.drop_last());
        assert forall|i: int|
            0 <= i < s.len() && (#[trigger] s[i]).len() >= 3 implies has_ring(
            merge_rings(p, s),
            s[i],
        ) by {
            if i < s.len() - 1 {
                assert(s.drop_last()[i] == s[i]);
                lemma_step_preserves_has(q, s.last(), s[i]);
            } else {
                assert(s[i] == s.last());
                lemma_step_adds(q, s.last());
            }
        }
    }
}

/// A batch whose closed rings are all already stored merges to nothing.
proof fn lemma_merge_absorbed(q: Seq<Seq<Vec2>>, s: Seq<Seq<Vec2>>)
    requires
        forall|i: int|
            0 <= i < s.len() && (#[trigger] s[i]).len() >= 3 ==> has_ring(q, s[i]),
    ensures
        merge_rings(q, s) == q,
    decreases s.len(),
{
    if s.len() > 0 {
        lemma_merge_absorbed(q, s.drop_last());
        if s.last().len() >= 3 {
            assert(s[s.len() - 1] == s.last());
            assert(has_ring(q, s.last()));
        }
    }
}

/// Idempotence of union: merging the same batch of shapes twice yields
/// exactly the paths that merging it once yields.
pub proof fn lemma_union_idempotent(p: Seq<Seq<Vec2>>, s: Seq<Seq<Vec2>>)
    ensures
        merge_rings(merge_rings(p, s), s) == merge_rings(p, s),
{
    lemma_merge_all_present(p, s);
    lemma_merge_absorbed(merge_rings(p, s), s);
}

/// Merging only appends: the stored paths are a prefix of the result.
pub proof fn lemma_union_extends(p: Seq<Seq<Vec2>>, s: Seq<Seq<Vec2>>)
    ensures
        p.is_prefix_of(merge_rings(p, s)),
    decreases s.len(),
{
    if s.len() == 0 {
        assert(p =~= merge_rings(p, s).subrange(0, p.len() as int));
    } else {
        lemma_union_extends(p, s.drop_last());
        let q = merge_rings(p, s.drop_last());
        let r = merge_rings(p, s);
        assert(forall|i: int| 0 <= i < p.len() ==> q[i] == #[trigger] p[i]);
        assert(forall|i: int| 0 <= i < q.len() ==> r[i] == #[trigger] q[i]);
        assert(p =~= r.subrange(0, p.len() as int));
    }
}

/// Monotonicity of bounds: when the stored paths only grow, the tight
/// covering box only grows — the new box contains the old one entirely.
pub proof fn lemma_bounds_monotonic(
    rs1: Seq<Seq<Vec2>>,
    rs2: Seq<Seq<Vec2>>,
    b1: Bounds,
    b2: Bounds,
)
    requires
        rs1.len() > 0,
        rs1.is_prefix_of(rs2),
        tight(rs1, b1),
        covers(rs2, b2),
    ensures
        b2.x <= b1.x,
        b1.x + b1.width <= b2.x + b2.width,
        b2.y <= b1.y,
        b1.y + b1.height <= b2.y + b2.height,
{
    assert(forall|i: int| 0 <= i < rs1.len() ==> rs2[i] == #[trigger] rs1[i]);
    let (i1, j1) = choose|i: int, j: int|
        0 <= i < rs1.len() && 0 <= j < rs1[i].len() && (#[trigger] rs1[i][j]).x == b1.x;
    assert(rs2[i1][j1].x == b1.x);
    let (i2, j2) = choose|i: int, j: int|
        0 <= i < rs1.len() && 0 <= j < rs1[i].len() && (#[trigger] rs1[i][j]).x == b1.x + b1.width;
    assert(rs2[i2][j2].x == b1.x + b1.width);
    let (i3, j3) = choose|i: int, j: int|
        0 <= i < rs1.len() && 0 <= j < rs1[i].len() && (#[trigger] rs1[i][j]).y == b1.y;
    assert(rs2[i3][j3].y == b1.y);
    let (i4, j4) = choose|i: int, j: int|
        0 <= i < rs1.len() && 0 <= j < rs1[i].len() && (#[trigger] rs1[i][j]).y == b1.y + b1.height;
    assert(rs2[i4][j4].y == b1.y + b1.height);
}

/// Merging a one-ring batch is one merge step.
proof fn lemma_merge_single(p: Seq<Seq<Vec2>>, g: Seq<Vec2>)
    ensures
        merge_rings(p, seq![g]) == merge_step(p, g),
{
    assert(seq![g].drop_last() =~= Seq::<Seq<Vec2>>::empty());
    assert(seq![g].last() == g);
    assert(merge_rings(p, Seq::<Seq<Vec2>>::empty()) == p);
}

/// Two successive single-ring merges commute up to ring order.
proof fn lemma_merge_two_commute(p: Seq<Seq<Vec2>>, r1: Seq<Vec2>, r2: Seq<Vec2>)
    ensures
        merge_step(merge_step(p, r1), r2).to_multiset() == merge_step(
            merge_step(p, r2),
            r1,
        ).to_multiset(),
{
    broadcast use group_to_multiset_ensures;

    lemma_has_ring_push(p, r1, r2);
    lemma_has_ring_push(p, r2, r1);
    if r1 == r2 {
        assert(merge_step(merge_step(p, r1), r2) =~= merge_step(merge_step(p, r2), r1));
    } else if r1.len() < 3 {
        assert(merge_step(p, r1) == p);
        assert(merge_step(merge_step(p, r2), r1) == merge_step(p, r2));
    } else if r2.len() < 3 {
        assert(merge_step(p, r2) == p);
        assert(merge_step(merge_step(p, r1), r2) == merge_step(p, r1));
    } else if has_ring(p, r1) && has_ring(p, r2) {
        assert(merge_step(merge_step(p, r1), r2) == p);
        assert(merge_step(merge_step(p, r2), r1) == p);
    } else if has_ring(p, r1) {
        assert(merge_step(merge_step(p, r1), r2) == p.push(r2));
        assert(merge_step(merge_step(p, r2), r1) == p.push(r2));
    } else if has_ring(p, r2) {
        assert(merge_step(merge_step(p, r1), r2) == p.push(r1));
        assert(merge_step(merge_step(p, r2), r1) == p.push(r1));
    } else {
        assert(merge_step(merge_step(p, r1), r2) == p.push(r1).push(r2));
        assert(merge_step(merge_step(p, r2), r1) == p.push(r2).push(r1));
        assert(p.push(r1).push(r2).to_multiset() =~= p.push(r2).push(r1).to_multiset());
    }
}

/// Order independence: flashing at two fully specified coordinates in
/// either order accumulates the same rings up to order, and reports the
/// same errors — for runs in which the accumulator rejects no merge
/// (which of its merges the clipping library accepts is its own
/// verdict, so runs with a rejected merge are left out).
pub proof fn lemma_flash_order_independent(
    cat: Map<i32, Aperture>,
    s: InterpState,
    c1: Coord,
    c2: Coord,
)
    requires
        c1.is_full(),
        c2.is_full(),
        no_merge_failure(
            s,
            interp_from(cat, s, seq![PlottingCommand::Flash(c1), PlottingCommand::Flash(c2)]),
        ),
        no_merge_failure(
            s,
            interp_from(cat, s, seq![PlottingCommand::Flash(c2), PlottingCommand::Flash(c1)]),
        ),
    ensures
        ({
            let fwd = interp_from(
                cat,
                s,
                seq![PlottingCommand::Flash(c1), PlottingCommand::Flash(c2)],
            );
            let rev = interp_from(
                cat,
                s,
                seq![PlottingCommand::Flash(c2), PlottingCommand::Flash(c1)],
            );
            &&& fwd.rings.to_multiset() == rev.rings.to_multiset()
            &&& fwd.errors == rev.errors
        }),
{
    lemma_interp_two(cat, s, PlottingCommand::Flash(c1), PlottingCommand::Flash(c2));
    lemma_interp_two(cat, s, PlottingCommand::Flash(c2), PlottingCommand::Flash(c1));
    let fwd = istep(cat, istep(cat, s, PlottingCommand::Flash(c1)), PlottingCommand::Flash(c2));
    let rev = istep(cat, istep(cat, s, PlottingCommand::Flash(c2)), PlottingCommand::Flash(c1));
    let t1 = merged(s.pos, c1);
    let t2 = merged(s.pos, c2);
    assert(merged(merged(s.pos, c1), c2) == t2);
    assert(merged(merged(s.pos, c2), c1) == t1);
    match s.aperture {
        Option::None => {
            assert(fwd.rings == s.rings && rev.rings == s.rings);
        },
        Option::Some(a) => match a.ring_at(t1) {
            Option::Some(g1) => {
                let g2 = a.ring_at(t2)->Some_0;
                assert(a.ring_at(t2) is Some);
                lemma_two_flashes_accepted(cat, s, c1, c2, g1, g2, fwd);
                lemma_two_flashes_accepted(cat, s, c2, c1, g2, g1, rev);
                lemma_merge_single(s.rings, g1);
                lemma_merge_single(s.rings, g2);
                lemma_merge_single(merge_step(s.rings, g1), g2);
                lemma_merge_single(merge_step(s.rings, g2), g1);
                lemma_merge_two_commute(s.rings, g1, g2);
            },
            Option::None => {
                assert(a.ring_at(t2) is None);
            },
        },
    }
}

/// In a two-flash run that reported no merge failure, both merges were
/// accepted.
proof fn lemma_two_flashes_accepted(
    cat: Map<i32, Aperture>,
    s: InterpState,
    ca: Coord,
    cb: Coord,
    ga: Seq<Vec2>,
    gb: Seq<Vec2>,
    run: InterpState,
)
    requires
        ca.is_full(),
        cb.is_full(),
        s.aperture matches Some(a) && a.ring_at(merged(s.pos, ca)) == Some(ga) && a.ring_at(
            merged(s.pos, cb),
        ) == Some(gb),
        run == istep(cat, istep(cat, s, PlottingCommand::Flash(ca)), PlottingCommand::Flash(cb)),
        no_merge_failure(s, run),
    ensures
        crate::layer::merge_accepted(s.outlines, seq![ga]),
        crate::layer::merge_accepted(union_of(s.outlines, seq![ga]), seq![gb]),
        run.rings == merge_rings(merge_rings(s.rings, seq![ga]), seq![gb]),
        run.errors == s.errors,
{
    let s1 = istep(cat, s, PlottingCommand::Flash(ca));
    let tb = merged(s1.pos, cb);
    assert(tb == merged(s.pos, cb));
    if !crate::layer::merge_accepted(s.outlines, seq![ga]) {
        assert(s1.errors == s.errors.push(InterpretError::UnionFailure));
        assert(run.errors[s.errors.len() as int] == InterpretError::UnionFailure);
        assert(false);
    }
    assert(s1.errors == s.errors);
    if !crate::layer::merge_accepted(union_of(s.outlines, seq![ga]), seq![gb]) {
        assert(run.errors == s.errors.push(InterpretError::UnionFailure));
        assert(run.errors[s.errors.len() as int] == InterpretError::UnionFailure);
        assert(false);
    }
}

/// Unfolds a two-command interpretation into two steps.
proof fn lemma_interp_two(
    cat: Map<i32, Aperture>,
    s: InterpState,
    a: PlottingCommand,
    b: PlottingCommand,
)
    ensures
        interp_from(cat, s, seq![a, b]) == istep(cat, istep(cat, s, a), b),
{
    let cmds = seq![a, b];
    assert(cmds.drop_last() =~= seq![a]);
    assert(cmds.last() == b);
    assert(seq![a].drop_last() =~= Seq::<PlottingCommand>::empty());
    assert(seq![a].last() == a);
    assert(interp_from(cat, s, Seq::empty()) == s);
    assert(interp_from(cat, s, seq![a]) == istep(cat, s, a));
}

/// Degenerate-aperture fallback: selecting an unknown aperture id and
/// then flashing produces no geometry, reports the unknown id and the
/// missing aperture, and still advances the position to the flash
/// coordinate.
pub proof fn lemma_unknown_select_then_flash(
    cat: Map<i32, Aperture>,
    s: InterpState,
    id: i32,
    c: Coord,
)
    requires
        !cat.contains_key(id),
    ensures
        ({
            let r = interp_from(
                cat,
                s,
                seq![PlottingCommand::SelectAperture(id), PlottingCommand::Flash(c)],
            );
            &&& r.rings == s.rings
            &&& r.outlines == s.outlines
            &&& r.pos == merged(s.pos, c)
            &&& r.errors == s.errors.push(InterpretError::UnknownApertureId(id)).push(
                InterpretError::NoApertureSelected,
            )
        }),
{
    lemma_interp_two(cat, s, PlottingCommand::SelectAperture(id), PlottingCommand::Flash(c));
}

} // verus!
