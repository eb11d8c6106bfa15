//! Typed handles over a native graphics API.
//!
//! The library keeps the bookkeeping of every native object (shaders,
//! programs, buffers, vertex arrays, textures) and decides, for each
//! operation, which native calls are issued and in which order. Those calls
//! are handed back as [`command::GlCommand`] values, for a thin executor that
//! owns the rendering context to perform.
use vstd::prelude::*;

pub mod buffer;
pub mod command;
pub mod error;
pub mod rendering;
pub mod shaders;
pub mod text;
pub mod textures;
pub mod vao;

pub use error::Error;

use command::GlCommand;

verus! {

/// Draw everything as lines instead of filled faces.
pub fn enable_wireframe_rendering() -> (r: Vec<GlCommand>)
    ensures
        r@ == seq![GlCommand::PolygonMode { lines: true }],
{
    vec![GlCommand::PolygonMode { lines: true }]
}

/// Draw everything with faces filled in.
pub fn disable_wireframe_rendering() -> (r: Vec<GlCommand>)
    ensures
        r@ == seq![GlCommand::PolygonMode { lines: false }],
{
    vec![GlCommand::PolygonMode { lines: false }]
}

} // verus!
