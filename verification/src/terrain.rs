//! The material policy of the terrain and the height field a column is
//! generated from.
//!
//! Heights are whole numbers of block layers: a column of blocks whose
//! height is `h` has ground in the layers `0..h` and none above.

use vstd::prelude::*;
use crate::block::Type;

verus! {

/// Edge length of a chunk, in blocks.
pub const CHUNK_SIZE: u32 = 16;

/// Number of chunks stacked in one column.
pub const COLUMN_CHUNKS: u32 = 8;

/// Number of block layers in a column.
pub const WORLD_HEIGHT: u32 = 128;

/// Layers below this one are flooded wherever the ground does not reach them.
pub const SEA_LEVEL: u32 = 32;

/// Topmost layer of the sand band.
pub const SAND_TOP: u32 = 35;

/// Topmost layer of the grass band.
pub const GRASS_TOP: u32 = 48;

/// Topmost layer of the rock band. Everything above is ice.
pub const ROCK_TOP: u32 = 55;

/// The ground material of layer `y`. The bands are contiguous and the last
/// one has no upper end.
pub open spec fn ground_band(y: int) -> Type {
    if y <= SAND_TOP {
        Type::Sand
    } else if y <= GRASS_TOP {
        Type::Grass
    } else if y <= ROCK_TOP {
        Type::Rock
    } else {
        Type::Ice
    }
}

/// The material of the block in layer `y` of a column of blocks whose ground
/// is `height` layers high: ground where the layer lies below the surface,
/// else water below sea level, else nothing.
pub open spec fn material_at(y: int, height: int) -> Type {
    if y < height {
        ground_band(y)
    } else if y < SEA_LEVEL {
        Type::Water
    } else {
        Type::Inactive
    }
}

/// The ground material of layer `y`.
pub fn band(y: u32) -> (ty: Type)
    ensures
        ty == ground_band(y as int),
        ty == Type::Sand || ty == Type::Grass || ty == Type::Rock || ty == Type::Ice,
{
    if y <= SAND_TOP {
        Type::Sand
    } else if y <= GRASS_TOP {
        Type::Grass
    } else if y <= ROCK_TOP {
        Type::Rock
    } else {
        Type::Ice
    }
}

/// The material of the block in layer `y` of a column of blocks whose ground
/// is `height` layers high.
///
/// Water is assigned first, to every layer below sea level, and the ground
/// band then replaces it wherever the layer lies below the surface.
pub fn material(y: u32, height: u32) -> (ty: Type)
    ensures
        ty == material_at(y as int, height as int),
{
    let mut ty = Type::Inactive;
    if y < SEA_LEVEL {
        ty = Type::Water;
    }
    if y < height {
        ty = band(y);
    }
    ty
}

/// Every layer gets a ground material, however high it lies: the bands cover
/// the layers without a gap and the ice band is open at the top.
pub proof fn lemma_band_coverage(y: int)
    ensures
        ground_band(y) == Type::Sand || ground_band(y) == Type::Grass || ground_band(y)
            == Type::Rock || ground_band(y) == Type::Ice,
        0 <= y <= SAND_TOP ==> ground_band(y) == Type::Sand,
        SAND_TOP < y <= GRASS_TOP ==> ground_band(y) == Type::Grass,
        GRASS_TOP < y <= ROCK_TOP ==> ground_band(y) == Type::Rock,
        ROCK_TOP < y ==> ground_band(y) == Type::Ice,
{
}

/// A block is left empty exactly where it lies neither below the surface nor
/// below sea level; everywhere else it is water or one of the ground
/// materials.
pub proof fn lemma_material_coverage(y: int, height: int)
    ensures
        material_at(y, height) == Type::Inactive <==> y >= height && y >= SEA_LEVEL,
        material_at(y, height) == Type::Water <==> height <= y < SEA_LEVEL,
        y < height ==> material_at(y, height) == ground_band(y),
{
}

/// The height of the ground over the 16 by 16 footprint of one chunk column.
pub struct HeightMap {
    heights: [[u32; 16]; 16],
}

impl HeightMap {
    /// The height at the local coordinates `(x, z)`.
    pub closed spec fn at(&self, x: int, z: int) -> u32 {
        self.heights[x][z]
    }

    /// A flat field of height zero.
    pub fn new() -> (map: Self)
        ensures
            forall|x: int, z: int| 0 <= x < 16 && 0 <= z < 16 ==> map.at(x, z) == 0,
    {
        HeightMap { heights: [[0u32; 16]; 16] }
    }

    /// The height at the local coordinates `(x, z)`.
    pub fn get(&self, x: usize, z: usize) -> (height: u32)
        requires
            x < 16,
            z < 16,
        ensures
            height == self.at(x as int, z as int),
    {
        self.heights[x][z]
    }

    /// Sets the height at the local coordinates `(x, z)` and leaves every
    /// other height as it was.
    pub fn set(&mut self, x: usize, z: usize, height: u32)
        requires
            x < 16,
            z < 16,
        ensures
            final(self).at(x as int, z as int) == height,
            forall|a: int, b: int|
                0 <= a < 16 && 0 <= b < 16 && !(a == x && b == z) ==> final(self).at(a, b) == old(
                    self,
                ).at(a, b),
    {
        self.heights[x][z] = height;
    }
}

} // verus!
