//! Interpreter and polygon-accumulation engine for Gerber photoplotter
//! command streams.
//!
//! The crate consumes an already-parsed stream of plotting commands
//! (move, interpolate, flash, aperture select) together with an aperture
//! catalog, and produces a [`layer::Layer`]: the accumulated set of closed
//! polygon rings for one physical board layer, with bounds and emptiness
//! queries.
//!
//! All geometry is carried in fixed-point integer coordinates with
//! [`geom::SCALE`] steps per drawing unit, the same resolution that Gerber
//! coordinate numbers use natively; converting to and from floating point
//! is left to callers at the edge of the system.

pub mod aperture;
pub mod command;
pub mod console;
pub mod geom;
pub mod picker;
pub mod rasterize;

pub mod interp;
pub mod laws;
pub mod layer;

pub mod ui;

pub use geom::Vec2;
