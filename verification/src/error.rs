//! The fatal conditions of a paint call.
//!
//! Each one is a protocol violation by the caller: the delta stream or
//! the draw list disagrees with the set of textures the store holds.
//! A paint call aborts with one of these before producing any output,
//! rather than compositing undefined pixels into a visible frame.

use vstd::prelude::*;

verus! {

/// Why a paint call was aborted.
#[derive(Clone, Copy, Debug, PartialEq, Eq, Structural)]
pub enum PaintError {
    /// A patch delta named a texture the store does not hold.
    PatchAbsentTexture,
    /// A patch delta reached outside the stored texture's bounds.
    PatchOutOfBounds,
    /// A mesh referenced a texture the store does not hold.
    MeshAbsentTexture,
}

impl PaintError {
    /// A short description of the violation.
    pub fn message(&self) -> &'static str {
        match self {
            PaintError::PatchAbsentTexture => "Attempted partial update on absent texture",
            PaintError::PatchOutOfBounds => "Patch reached outside the texture bounds",
            PaintError::MeshAbsentTexture => "Mesh referenced absent texture",
        }
    }
}

} // verus!
