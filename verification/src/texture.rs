//! Handles of textures.

use vstd::prelude::*;

verus! {

/// Opaque handle of a texture that lives on the GPU.
///
/// The renderer that uploaded the texture owns it. A handle only names it:
/// this crate never creates or frees a texture and never looks behind the
/// number.
#[derive(Clone, Copy, Debug, PartialEq, Eq, Structural)]
pub struct TextureId {
    id: usize,
}

impl View for TextureId {
    type V = usize;

    closed spec fn view(&self) -> usize {
        self.id
    }
}

impl TextureId {
    /// The handle with the given number.
    pub fn new(id: usize) -> (t: TextureId)
        ensures
            t@ == id,
    {
        TextureId { id }
    }

    /// The number of this handle.
    pub fn id(self) -> (id: usize)
        ensures
            id == self@,
    {
        self.id
    }
}

} // verus!
