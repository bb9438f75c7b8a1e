//! A single voxel and its material.

use vstd::prelude::*;

verus! {

/// The material of a voxel. `Inactive` is empty space.
#[derive(Debug, Copy, Clone, PartialEq, Eq, Structural)]
pub enum Type {
    Inactive,
    Water,
    Sand,
    Grass,
    Rock,
    Ice,
}

/// A colour with its opacity, each channel in hundredths of full intensity.
#[derive(Debug, Copy, Clone, PartialEq, Eq, Structural)]
pub struct Color {
    pub r: u8,
    pub g: u8,
    pub b: u8,
    pub a: u8,
}

impl Type {
    /// The colour a material is drawn in. Empty space has none: it is fully
    /// transparent, and every material is fully opaque.
    pub open spec fn color_spec(self) -> Color {
        match self {
            Type::Ice => Color { r: 100, g: 100, b: 100, a: 100 },
            Type::Rock => Color { r: 20, g: 20, b: 20, a: 100 },
            Type::Grass => Color { r: 0, g: 100, b: 0, a: 100 },
            Type::Sand => Color { r: 50, g: 80, b: 16, a: 100 },
            Type::Water => Color { r: 0, g: 0, b: 100, a: 100 },
            Type::Inactive => Color { r: 0, g: 0, b: 0, a: 0 },
        }
    }

    /// The colour a material is drawn in.
    #[verifier::when_used_as_spec(color_spec)]
    pub fn color(self) -> (color: Color)
        ensures
            color == self.color_spec(),
            color.a == (if self == Type::Inactive { 0u8 } else { 100u8 }),
    {
        match self {
            Type::Ice => Color { r: 100, g: 100, b: 100, a: 100 },
            Type::Rock => Color { r: 20, g: 20, b: 20, a: 100 },
            Type::Grass => Color { r: 0, g: 100, b: 0, a: 100 },
            Type::Sand => Color { r: 50, g: 80, b: 16, a: 100 },
            Type::Water => Color { r: 0, g: 0, b: 100, a: 100 },
            Type::Inactive => Color { r: 0, g: 0, b: 0, a: 0 },
        }
    }
}

/// One cell of a chunk.
#[derive(Debug, Copy, Clone)]
pub struct Block {
    ty: Type,
}

impl Block {
    /// The material of this block.
    pub closed spec fn view(&self) -> Type {
        self.ty
    }

    /// An empty block.
    pub fn new() -> (block: Self)
        ensures
            block@ == Type::Inactive,
    {
        Self { ty: Type::Inactive }
    }

    /// Replaces the material.
    pub fn set_type(&mut self, ty: Type)
        ensures
            final(self)@ == ty,
    {
        self.ty = ty;
    }

    /// The material of this block.
    pub fn ty(&self) -> (ty: Type)
        ensures
            ty == self@,
    {
        self.ty
    }

    /// The colour the block is drawn in; fully transparent for an empty
    /// block.
    pub fn color(&self) -> (color: Color)
        ensures
            color == self@.color_spec(),
            color.a == (if self@ == Type::Inactive { 0u8 } else { 100u8 }),
    {
        self.ty.color()
    }

    /// Whether the block holds any material, that is, whether it is drawn.
    pub fn is_active(&self) -> (active: bool)
        ensures
            active == (self@ != Type::Inactive),
    {
        !matches!(self.ty, Type::Inactive)
    }
}

/// A block is nothing but its material: two blocks of the same material are
/// the same block.
pub proof fn lemma_block_is_its_material(a: Block, b: Block)
    requires
        a@ == b@,
    ensures
        a == b,
{
}

} // verus!
