//! The command interpreter: a state machine that walks a plotting
//! command stream, carrying the current position, the selected aperture
//! and the interpolation mode, and accumulates the produced geometry in
//! a [`Layer`].
//!
//! The whole pass is specified by the pure transition function
//! [`istep`] folded over the stream by [`interp`], and the executable
//! interpreter computes exactly that fold.  Whether a geometry merge
//! succeeds is the clipping library's verdict, itself a function of the
//! geometry (see `union_accepts`), so the fold models it: an accepted
//! batch lands in the layer, a rejected one is dropped whole and
//! reported as [`InterpretError::UnionFailure`] in its place, and
//! interpretation continues.
//!
//! Error policy: every failure is recorded and interpretation continues
//! with the next command — a partially unsupported stream still renders
//! whatever geometry it can.  Operations (move, flash, interpolate)
//! always advance the current position to their target, whether or not
//! they produced geometry.  One deliberate asymmetry: an unsupported
//! aperture cannot be rasterized at all (no flash outline, no stroke
//! end caps), but a stroke through it is still drawn, with the fallback
//! thickness of one drawing unit.

use vstd::prelude::*;

use crate::aperture::Aperture;
use crate::command::{CommandDoc, InterpolationMode, InterpretError, PlottingCommand};
use crate::geom::{merged, Vec2, MAX_COORD, SCALE};
use crate::layer::{merge_accepted, merge_rings, union_of, Layer, Rgba};
use crate::rasterize::{
    create_circle_path, create_rect_path, line_to_rect_path, ring_wf, stroke_ring,
};

verus! {

/// The interpreter's state between two commands: the carried plotting
/// state together with everything produced so far.
pub struct InterpState {
    /// The current position.
    pub pos: Vec2,
    /// The selected aperture, if a valid select has happened.
    pub aperture: Option<Aperture>,
    /// The current interpolation mode.
    pub mode: InterpolationMode,
    /// The primitive rings merged into the layer so far.
    pub rings: Seq<Seq<Vec2>>,
    /// The resolved paths: the running boolean union of the same
    /// batches.
    pub outlines: Seq<Seq<Vec2>>,
    /// The errors reported so far, in order.
    pub errors: Seq<InterpretError>,
}

/// The state a pass starts from: the origin, no aperture, linear mode,
/// nothing produced.
pub open spec fn init_state() -> InterpState {
    InterpState {
        pos: Vec2 { x: 0, y: 0 },
        aperture: None,
        mode: InterpolationMode::Linear,
        rings: Seq::empty(),
        outlines: Seq::empty(),
        errors: Seq::empty(),
    }
}

/// One geometry batch offered to the accumulator.  A batch the merge
/// accepts (see [`merge_accepted`]) lands in both forms: the primitive
/// rings take it ring by ring, the outlines take its boolean union.  A
/// batch it rejects is dropped whole and reported as a merge failure in
/// its place in the error list.
pub open spec fn try_merge(s: InterpState, batch: Seq<Seq<Vec2>>) -> InterpState {
    if batch.len() == 0 {
        s
    } else if merge_accepted(s.outlines, batch) {
        InterpState {
            rings: merge_rings(s.rings, batch),
            outlines: union_of(s.outlines, batch),
            ..s
        }
    } else {
        InterpState { errors: s.errors.push(InterpretError::UnionFailure), ..s }
    }
}

/// Between two states of one run, no merge failure was reported: the
/// error list grew without a `UnionFailure` entry.
pub open spec fn no_merge_failure(s0: InterpState, s1: InterpState) -> bool {
    &&& s0.errors.is_prefix_of(s1.errors)
    &&& forall|i: int|
        s0.errors.len() <= i < s1.errors.len() ==> s1.errors[i]
            != InterpretError::UnionFailure
}

/// The effect of one command on the interpreter state.
pub open spec fn istep(cat: Map<i32, Aperture>, s: InterpState, cmd: PlottingCommand) -> InterpState {
    match cmd {
        PlottingCommand::SelectAperture(id) => {
            if cat.contains_key(id) {
                InterpState { aperture: Some(cat[id]), ..s }
            } else {
                InterpState {
                    aperture: None,
                    errors: s.errors.push(InterpretError::UnknownApertureId(id)),
                    ..s
                }
            }
        },
        PlottingCommand::Move(c) => InterpState { pos: merged(s.pos, c), ..s },
        PlottingCommand::SetInterpolationMode(m) => InterpState { mode: m, ..s },
        PlottingCommand::Flash(c) => {
            let target = merged(s.pos, c);
            match s.aperture {
                Option::None => InterpState {
                    pos: target,
                    errors: s.errors.push(InterpretError::NoApertureSelected),
                    ..s
                },
                Option::Some(a) => match a.ring_at(target) {
                    Option::Some(ring) => InterpState {
                        pos: target,
                        ..try_merge(s, seq![ring])
                    },
                    Option::None => InterpState {
                        pos: target,
                        errors: s.errors.push(InterpretError::UnsupportedAperture),
                        ..s
                    },
                },
            }
        },
        PlottingCommand::Interpolate(c, _off) => match s.mode {
            InterpolationMode::Linear => {
                let target = merged(s.pos, c);
                match s.aperture {
                    Option::None => InterpState {
                        pos: target,
                        errors: s.errors.push(InterpretError::NoApertureSelected),
                        ..s
                    },
                    Option::Some(a) => {
                        let errs1 = if a.thickness_defined() {
                            s.errors
                        } else {
                            s.errors.push(InterpretError::UnsupportedAperture)
                        };
                        let stroke = stroke_ring(s.pos, target, a.stroke_thickness());
                        match (a.ring_at(s.pos), a.ring_at(target)) {
                            (Option::Some(c1), Option::Some(c2)) => {
                                let batch = if stroke.len() == 0 {
                                    seq![c1, c2]
                                } else {
                                    seq![stroke, c1, c2]
                                };
                                InterpState {
                                    pos: target,
                                    ..try_merge(InterpState { errors: errs1, ..s }, batch)
                                }
                            },
                            _ => {
                                let batch = if stroke.len() == 0 {
                                    Seq::empty()
                                } else {
                                    seq![stroke]
                                };
                                let merged_state = try_merge(
                                    InterpState { errors: errs1, ..s },
                                    batch,
                                );
                                InterpState {
                                    pos: target,
                                    errors: merged_state.errors.push(
                                        InterpretError::UnsupportedAperture,
                                    ),
                                    ..merged_state
                                }
                            },
                        }
                    },
                }
            },
            _ => InterpState {
                pos: merged(s.pos, c),
                errors: s.errors.push(InterpretError::UnsupportedInterpolationMode),
                ..s
            },
        },
        PlottingCommand::RegionMode => InterpState {
            errors: s.errors.push(InterpretError::UnsupportedCommand),
            ..s
        },
        PlottingCommand::QuadrantMode => InterpState {
            errors: s.errors.push(InterpretError::UnsupportedCommand),
            ..s
        },
        PlottingCommand::Extended => InterpState {
            errors: s.errors.push(InterpretError::UnsupportedCommand),
            ..s
        },
        PlottingCommand::Comment => s,
        PlottingCommand::EndOfFile => s,
    }
}

/// [`istep`] folded over a command sequence, from an arbitrary state.
pub open spec fn interp_from(
    cat: Map<i32, Aperture>,
    s: InterpState,
    cmds: Seq<PlottingCommand>,
) -> InterpState
    decreases cmds.len(),
{
    if cmds.len() == 0 {
        s
    } else {
        istep(cat, interp_from(cat, s, cmds.drop_last()), cmds.last())
    }
}

/// One whole interpretation pass over a command stream.
pub open spec fn interp(cat: Map<i32, Aperture>, cmds: Seq<PlottingCommand>) -> InterpState {
    interp_from(cat, init_state(), cmds)
}

impl Layer {
    /// Interprets a whole command stream into a fresh layer of the given
    /// color, returning the layer together with every error met along
    /// the way, in order.
    ///
    /// Each pass is stateless across calls: it starts from
    /// [`init_state`] and an empty layer, and its result — primitive
    /// rings, resolved union and error list — is exactly [`interp`] of
    /// the stream.  A merge the clipping library rejects is dropped
    /// whole and reported as a failure in its place in the list, as
    /// [`try_merge`] describes.
    #[verifier::rlimit(100)]
    pub fn from_gerber(doc: &CommandDoc, color: Rgba) -> (out: (Layer, Vec<InterpretError>))
        requires
            doc.wf(),
        ensures
            out.0.color_spec() == color,
            out.0.wf(),
            ({
                let st = interp(doc.apertures@, doc.commands@);
                &&& out.0.rings() == st.rings
                &&& out.0.resolved() == st.outlines
                &&& out.1@ == st.errors
            }),
    {
        let ghost cat = doc.apertures@;
        let ghost cmds = doc.commands@;
        let mut layer = Layer::new(color);
        let mut errors: Vec<InterpretError> = Vec::new();
        let mut pos = Vec2 { x: 0, y: 0 };
        let mut aperture: Option<Aperture> = None;
        let mut mode = InterpolationMode::Linear;
        let mut i: usize = 0;
        while i < doc.commands.len()
            invariant
                doc.wf(),
                cat == doc.apertures@,
                cmds == doc.commands@,
                i <= cmds.len(),
                ({
                    let st = interp_from(cat, init_state(), cmds.take(i as int));
                    &&& pos == st.pos
                    &&& aperture == st.aperture
                    &&& mode == st.mode
                    &&& layer.rings() == st.rings
                    &&& layer.resolved() == st.outlines
                    &&& errors@ == st.errors
                }),
                layer.wf(),
                layer.color_spec() == color,
                pos.wf(),
                match aperture {
                    Some(a) => a.wf(),
                    None => true,
                },
            decreases cmds.len() - i,
        {
            proof {
                assert(cmds.take(i + 1).drop_last() =~= cmds.take(i as int));
                assert(cmds.take(i + 1).last() == cmds[i as int]);
                assert(cmds[i as int].wf());
                assert(interp_from(cat, init_state(), cmds.take(i + 1)) == istep(
                    cat,
                    interp_from(cat, init_state(), cmds.take(i as int)),
                    cmds[i as int],
                ));
            }
            let cmd = doc.commands[i];
            match cmd {
                PlottingCommand::SelectAperture(id) => {
                    match doc.apertures.get(id) {
                        Some(ap) => {
                            aperture = Some(*ap);
                        },
                        None => {
                            errors.push(InterpretError::UnknownApertureId(id));
                            aperture = None;
                        },
                    }
                },
                PlottingCommand::Move(c) => {
                    pos.set(&c);
                },
                PlottingCommand::SetInterpolationMode(m) => {
                    mode = m;
                },
                PlottingCommand::Flash(c) => {
                    let mut target = pos;
                    target.set(&c);
                    match aperture {
                        Some(a) => {
                            match Self::aperture_path(&a, target) {
                                Ok(ring) => {
                                    let mut batch: Vec<Vec<Vec2>> = Vec::new();
                                    batch.push(ring);
                                    proof {
                                        assert(crate::layer::deep(batch@) =~= seq![ring@]);
                                    }
                                    Self::merge_op(&mut layer, &mut errors, &batch);
                                },
                                Err(e) => {
                                    errors.push(e);
                                },
                            }
                        },
                        None => {
                            errors.push(InterpretError::NoApertureSelected);
                        },
                    }
                    pos = target;
                },
                PlottingCommand::Interpolate(c, _off) => {
                    match mode {
                        InterpolationMode::Linear => {
                            let mut target = pos;
                            target.set(&c);
                            match aperture {
                                Some(a) => {
                                    let thickness = Self::thickness_aperture(&aperture);
                                    if !Self::thickness_defined_check(&a) {
                                        errors.push(InterpretError::UnsupportedAperture);
                                    }
                                    let stroke = line_to_rect_path(pos, target, thickness);
                                    match Self::aperture_path(&a, pos) {
                                        Ok(cap1) => {
                                            match Self::aperture_path(&a, target) {
                                                Ok(cap2) => {
                                                    let mut batch: Vec<Vec<Vec2>> = Vec::new();
                                                    let no_stroke = stroke.len() == 0;
                                                    if stroke.len() > 0 {
                                                        batch.push(stroke);
                                                    }
                                                    batch.push(cap1);
                                                    batch.push(cap2);
                                                    proof {
                                                        if no_stroke {
                                                            assert(crate::layer::deep(batch@)
                                                                =~= seq![cap1@, cap2@]);
                                                        } else {
                                                            assert(crate::layer::deep(batch@)
                                                                =~= seq![stroke@, cap1@, cap2@]);
                                                        }
                                                    }
                                                    Self::merge_op(&mut layer, &mut errors, &batch);
                                                },
                                                Err(_) => {
                                                    // support depends on the shape alone,
                                                    // never on the centre
                                                    proof {
                                                        assert(false);
                                                    }
                                                },
                                            }
                                        },
                                        Err(e) => {
                                            let mut batch: Vec<Vec<Vec2>> = Vec::new();
                                            let no_stroke = stroke.len() == 0;
                                            if stroke.len() > 0 {
                                                batch.push(stroke);
                                            }
                                            proof {
                                                if no_stroke {
                                                    assert(crate::layer::deep(batch@)
                                                        =~= Seq::<Seq<Vec2>>::empty());
                                                } else {
                                                    assert(crate::layer::deep(batch@)
                                                        =~= seq![stroke@]);
                                                }
                                            }
                                            Self::merge_op(&mut layer, &mut errors, &batch);
                                            errors.push(e);
                                        },
                                    }
                                },
                                None => {
                                    errors.push(InterpretError::NoApertureSelected);
                                },
                            }
                            pos = target;
                        },
                        _ => {
                            let mut target = pos;
                            target.set(&c);
                            errors.push(InterpretError::UnsupportedInterpolationMode);
                            pos = target;
                        },
                    }
                },
                PlottingCommand::RegionMode => {
                    errors.push(InterpretError::UnsupportedCommand);
                },
                PlottingCommand::QuadrantMode => {
                    errors.push(InterpretError::UnsupportedCommand);
                },
                PlottingCommand::Extended => {
                    errors.push(InterpretError::UnsupportedCommand);
                },
                PlottingCommand::Comment => {},
                PlottingCommand::EndOfFile => {},
            }
            i = i + 1;
        }
        proof {
            assert(cmds.take(cmds.len() as int) =~= cmds);
        }
        (layer, errors)
    }

    /// Merges one operation's batch of rings into the layer, exactly as
    /// [`try_merge`] describes: an accepted batch lands in both forms, a
    /// rejected one is dropped whole and reported as a merge failure.
    fn merge_op(layer: &mut Layer, errors: &mut Vec<InterpretError>, batch: &Vec<Vec<Vec2>>)
        requires
            old(layer).wf(),
        ensures
            final(layer).wf(),
            final(layer).color_spec() == old(layer).color_spec(),
            ({
                let b = crate::layer::deep(batch@);
                if b.len() == 0 {
                    *final(layer) == *old(layer) && final(errors)@ == old(errors)@
                } else if merge_accepted(old(layer).resolved(), b) {
                    &&& final(layer).rings() == merge_rings(old(layer).rings(), b)
                    &&& final(layer).resolved() == union_of(old(layer).resolved(), b)
                    &&& final(errors)@ == old(errors)@
                } else {
                    &&& *final(layer) == *old(layer)
                    &&& final(errors)@ == old(errors)@.push(InterpretError::UnionFailure)
                }
            }),
    {
        if batch.len() == 0 {
            return ;
        }
        match layer.union(batch) {
            Ok(()) => {},
            Err(e) => {
                errors.push(e);
            },
        }
    }

    /// The stroke width of the selected aperture: a circle's diameter, a
    /// rectangle's or obround's larger side.  An unsupported shape — or
    /// no selection at all — falls back to one drawing unit.
    fn thickness_aperture(aperture: &Option<Aperture>) -> (t: i64)
        requires
            match aperture {
                Some(a) => a.wf(),
                None => true,
            },
        ensures
            match aperture {
                Some(a) => t as int == a.stroke_thickness(),
                None => t == SCALE,
            },
            0 <= t <= MAX_COORD,
    {
        match aperture {
            Some(a) => match a {
                Aperture::Circle { diameter } => *diameter,
                Aperture::Rectangle { x, y } => if *x >= *y {
                    *x
                } else {
                    *y
                },
                Aperture::Obround { x, y } => if *x >= *y {
                    *x
                } else {
                    *y
                },
                Aperture::Polygon => SCALE,
                Aperture::Other => SCALE,
            },
            None => SCALE,
        }
    }

    /// Runtime check for [`Aperture::thickness_defined`].
    fn thickness_defined_check(a: &Aperture) -> (b: bool)
        ensures
            b == a.thickness_defined(),
    {
        match a {
            Aperture::Polygon => false,
            Aperture::Other => false,
            _ => true,
        }
    }

    /// The outline the aperture stamps at `center`, or the error for a
    /// shape that cannot be rasterized.
    fn aperture_path(aperture: &Aperture, center: Vec2) -> (r: Result<Vec<Vec2>, InterpretError>)
        requires
            aperture.wf(),
            center.wf(),
        ensures
            match r {
                Ok(ring) => aperture.ring_at(center) == Some(ring@) && ring@.len() >= 3
                    && ring_wf(ring@),
                Err(e) => aperture.ring_at(center) is None && e
                    == InterpretError::UnsupportedAperture,
            },
    {
        match aperture {
            Aperture::Circle { diameter } => {
                let radius = ((*diameter as u64) / 2) as i64;
                Ok(create_circle_path(center, radius))
            },
            Aperture::Rectangle { x, y } => Ok(create_rect_path(center, *x, *y)),
            Aperture::Obround { x, y } => {
                if *x == *y {
                    let radius = ((*x as u64) / 2) as i64;
                    Ok(create_circle_path(center, radius))
                } else {
                    Err(InterpretError::UnsupportedAperture)
                }
            },
            Aperture::Polygon => Err(InterpretError::UnsupportedAperture),
            Aperture::Other => Err(InterpretError::UnsupportedAperture),
        }
    }
}

} // verus!
