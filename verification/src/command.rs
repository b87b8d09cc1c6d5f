//! The plotting command stream: the parsed commands the interpreter
//! consumes, and the errors it reports while doing so.

use vstd::prelude::*;

use crate::aperture::ApertureCatalog;
use crate::geom::Coord;

verus! {

/// How an interpolate operation moves between two points.  Only `Linear`
/// is implemented; the circular modes are reported as unsupported rather
/// than silently misrendered.
#[derive(Clone, Copy, Debug, PartialEq, Eq)]
pub enum InterpolationMode {
    Linear,
    ClockwiseCircular,
    CounterclockwiseCircular,
}

/// One parsed plotting command.
///
/// `Interpolate` carries the arc-offset pair that circular modes would
/// use; linear interpolation ignores it.  `RegionMode`, `QuadrantMode`
/// and `Extended` stand for commands whose geometry-affecting semantics
/// are not implemented; `Comment` and `EndOfFile` have none.
#[derive(Clone, Copy, Debug, PartialEq, Eq)]
pub enum PlottingCommand {
    SelectAperture(i32),
    Move(Coord),
    Interpolate(Coord, Option<Coord>),
    Flash(Coord),
    SetInterpolationMode(InterpolationMode),
    RegionMode,
    QuadrantMode,
    Comment,
    EndOfFile,
    Extended,
}

impl PlottingCommand {
    /// Every coordinate the command carries is within the machine bound.
    pub open spec fn wf(self) -> bool {
        match self {
            PlottingCommand::Move(c) => c.wf(),
            PlottingCommand::Interpolate(c, _off) => c.wf(),
            PlottingCommand::Flash(c) => c.wf(),
            _ => true,
        }
    }

    /// Runtime check for [`PlottingCommand::wf`].
    pub fn wf_check(&self) -> (b: bool)
        ensures
            b == self.wf(),
    {
        match self {
            PlottingCommand::Move(c) => coord_check(c),
            PlottingCommand::Interpolate(c, _off) => coord_check(c),
            PlottingCommand::Flash(c) => coord_check(c),
            _ => true,
        }
    }
}

fn coord_check(c: &Coord) -> (b: bool)
    ensures
        b == c.wf(),
{
    let x_ok = match c.x {
        Some(v) => -crate::geom::MAX_COORD <= v && v <= crate::geom::MAX_COORD,
        None => true,
    };
    let y_ok = match c.y {
        Some(v) => -crate::geom::MAX_COORD <= v && v <= crate::geom::MAX_COORD,
        None => true,
    };
    x_ok && y_ok
}

/// An error met while interpreting a command stream or merging geometry.
/// All of them are reported and interpretation continues with the next
/// command; none aborts the pass.
#[derive(Clone, Copy, Debug, PartialEq, Eq, Structural)]
pub enum InterpretError {
    /// An aperture select named an id absent from the catalog; the
    /// current aperture degrades to none.
    UnknownApertureId(i32),
    /// A flash or interpolate was attempted with no aperture selected;
    /// the operation emits no geometry but still advances the position.
    NoApertureSelected,
    /// A polygon aperture, an `Other` aperture, or an obround that is no
    /// circle cannot be rasterized.
    UnsupportedAperture,
    /// Circular interpolation is not implemented.
    UnsupportedInterpolationMode,
    /// Region mode, quadrant mode and extended codes are ignored.
    UnsupportedCommand,
    /// A geometry merge rejected its input; the layer is unchanged.
    UnionFailure,
}

/// A parsed command stream with its aperture catalog: everything one
/// interpretation pass consumes.
#[derive(Debug)]
pub struct CommandDoc {
    pub apertures: ApertureCatalog,
    pub commands: Vec<PlottingCommand>,
}

impl CommandDoc {
    /// The catalog holds well-formed apertures and every command's
    /// coordinates are within the machine bound.
    pub open spec fn wf(&self) -> bool {
        &&& self.apertures.wf()
        &&& forall|i: int|
            0 <= i < self.commands@.len() ==> (#[trigger] self.commands@[i]).wf()
    }

    pub fn new(apertures: ApertureCatalog) -> (r: Self)
        ensures
            r.apertures == apertures,
            r.commands@ =~= Seq::<PlottingCommand>::empty(),
    {
        CommandDoc { apertures, commands: Vec::new() }
    }

    /// Appends one command to the stream.
    pub fn push(&mut self, cmd: PlottingCommand)
        ensures
            final(self).apertures == old(self).apertures,
            final(self).commands@ == old(self).commands@.push(cmd),
    {
        self.commands.push(cmd);
    }

    /// Runtime check for the command-stream half of [`CommandDoc::wf`]:
    /// the catalog half holds for every catalog built through
    /// [`ApertureCatalog::insert`].
    pub fn commands_wf_check(&self) -> (b: bool)
        ensures
            b == forall|i: int|
                0 <= i < self.commands@.len() ==> (#[trigger] self.commands@[i]).wf(),
    {
        let mut i: usize = 0;
        while i < self.commands.len()
            invariant
                i <= self.commands@.len(),
                forall|k: int| 0 <= k < i ==> (#[trigger] self.commands@[k]).wf(),
            decreases self.commands@.len() - i,
        {
            if !self.commands[i].wf_check() {
                return false;
            }
            i = i + 1;
        }
        true
    }
}

} // verus!
