//! Forge — the verified core of a 2D CAD application.
//!
//! The library holds the drawing's bookkeeping and decisions: layers and
//! their references in the entity world, block definitions, the undo/redo
//! journal, the command-line grammar and its dispatch, the state machines
//! of the interactive commands, grip layouts and the input mapper's button
//! and key handling.  Geometry (which works on floating-point coordinates)
//! lives outside the library: commands are generic over the point and
//! scalar types they carry, and values typed on the command line travel as
//! IEEE-754 bit patterns that the library stores and hands back without
//! computing on them.

pub mod util;
pub mod layer;
pub mod commands;
pub mod ecs;
pub mod history;
pub mod block;
pub mod grip;
pub mod input;
