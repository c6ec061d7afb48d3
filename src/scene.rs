//! Keyed records for the entity and model registries. The keys are the
//! registries' own keys in their 64-bit form (slot version in the upper
//! half, slot index in the lower half).
use vstd::prelude::*;

verus! {

#[derive(Clone, Copy, Debug, PartialEq, Eq, Structural)]
pub struct EntityKey(pub u64);

#[derive(Clone, Copy, Debug, PartialEq, Eq, Structural)]
pub struct TextureElementKey(pub u64);

#[derive(Clone, Copy, Debug, PartialEq, Eq, Structural)]
pub struct VertexArrayKey(pub u64);

#[derive(Clone, Copy, Debug, PartialEq, Eq, Structural)]
pub struct ModelKey(pub u64);

/// A placed instance of a model: grid position and facing direction.
#[derive(Clone, Copy, Debug, PartialEq, Eq)]
pub struct RenderElement {
    pub model: ModelKey,
    pub pos: [i32; 2],
    pub facing: [i32; 2],
}

/// A game entity; further components will hang off its key.
#[derive(Clone, Copy, Debug, PartialEq, Eq, Structural)]
pub struct Entity {
    pub key: EntityKey,
}

/// A textured shape drawn as a billboard.
#[derive(Clone, Copy, Debug, PartialEq, Eq, Structural)]
pub struct Sprite {
    pub texture: TextureElementKey,
    pub shape: VertexArrayKey,
}

#[derive(Clone, Copy, Debug, PartialEq, Eq, Structural)]
pub struct Tile {}

/// A renderable model for objects other than the world grid.
#[derive(Clone, Copy, Debug, PartialEq, Eq, Structural)]
pub enum Model {
    Sprite(Sprite),
    Tile(Tile),
}

} // verus!
