//! A CPU-only rendering backend for an immediate-mode GUI: it owns a
//! store of textures kept up to date by incremental deltas, and paints
//! an ordered list of clipped triangle meshes into a pixel buffer,
//! sampling textures, interpolating vertex attributes, clipping writes
//! by per-item scissor rectangles, and compositing fragments with the
//! premultiplied-alpha "over" operator.
//!
//! All geometry is carried in fixed-point coordinates (see [`fx`]), so
//! every stage of the pipeline has an exact, machine-checked contract.

pub mod color;
pub mod error;
pub mod fx;
pub mod painter;
pub mod pipeline;
pub mod sampler;
pub mod scissor;
pub mod texture;

use vstd::prelude::*;

verus! {

} // verus!
