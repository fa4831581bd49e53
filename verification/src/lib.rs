//! Live-coding animation engine core.
//!
//! A script edited in an external editor is compiled and re-executed once per
//! rendering frame.  While it runs, the script calls a small host function
//! surface that appends primitive draw commands to an ordered queue; after the
//! run, a transform-stack interpreter drains the queue and produces concrete
//! render calls.  New source text replaces the active program only when the
//! candidate compiles and runs cleanly, so the engine is never left without a
//! runnable program.
//!
//! The compiled program itself is an opaque value produced by an external
//! script interpreter; this crate owns everything around it: the engine state
//! and its swap rules, the host function surface, the draw-command queue, and
//! the transform-stack interpreter.

pub mod bridge;
pub mod color;
pub mod draw;
pub mod environment;
pub mod fx;
pub mod geom;
pub mod lang;
pub mod models;
