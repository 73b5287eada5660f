//! Texture

use vstd::prelude::*;

verus! {

/// Name of a GL texture object, to be deleted when its owner goes.
#[derive(Debug, Clone, Copy, PartialEq, Eq, Structural)]
pub struct TextureDrop {
    id: u32,
}

impl TextureDrop {
    /// Takes over a texture object that the caller has generated.
    pub fn new(id: u32) -> (texture: Self)
        ensures
            texture.spec_id() == id,
    {
        Self { id }
    }

    /// Name of the texture object.
    pub closed spec fn spec_id(&self) -> u32 {
        self.id
    }

    /// Name of the texture object.
    pub fn id(&self) -> (id: u32)
        ensures
            id == self.spec_id(),
    {
        self.id
    }
}

/// A GL texture.
#[derive(Debug, Clone, Copy, PartialEq, Eq, Structural)]
pub struct Texture {
    own: TextureDrop,
}

impl Texture {
    /// Wraps a texture object that the caller has generated and filled.
    pub fn new(id: u32) -> (texture: Self)
        ensures
            texture.spec_id() == id,
    {
        let own = TextureDrop::new(id);
        Self { own }
    }

    /// Name of the texture object.
    pub closed spec fn spec_id(&self) -> u32 {
        self.own.spec_id()
    }

    /// Name of the texture object.
    pub fn id(&self) -> (id: u32)
        ensures
            id == self.spec_id(),
    {
        self.own.id
    }
}

} // verus!
