//! A chunk, the blocks to draw from it, and the generation of a column of
//! chunks from the height of the ground.

use vstd::prelude::*;
use crate::block::{lemma_block_is_its_material, Block, Type};
use crate::coords::{world_coordinate, ChunkKey, MAX_CHUNK_INDEX};
use crate::terrain::{material, material_at, HeightMap};

verus! {

/// A cube of 16 by 16 by 16 blocks and the world position of its lowest
/// corner.
#[derive(Debug)]
pub struct Chunk {
    blocks: [[[Block; 16]; 16]; 16],
    start: (u32, u32, u32),
}

impl Chunk {
    #[verifier::type_invariant]
    spec fn aligned(&self) -> bool {
        &&& self.start.0 % 16 == 0
        &&& self.start.1 % 16 == 0
        &&& self.start.2 % 16 == 0
    }

    /// The material of the block at the local coordinates `(x, y, z)`.
    pub closed spec fn material(&self, x: int, y: int, z: int) -> Type {
        self.blocks[x][y][z]@
    }

    /// The world position of the block at the local coordinates `(0, 0, 0)`.
    pub closed spec fn origin(&self) -> (u32, u32, u32) {
        self.start
    }

    /// The blocks, indexed by `x`, then `y`, then `z`.
    pub fn blocks(&self) -> (blocks: &[[[Block; 16]; 16]; 16])
        ensures
            forall|x: int, y: int, z: int|
                0 <= x < 16 && 0 <= y < 16 && 0 <= z < 16 ==> #[trigger] blocks[x][y][z]@
                    == self.material(x, y, z),
    {
        &self.blocks
    }

    /// The world position of the block at the local coordinates `(0, 0, 0)`.
    /// Each coordinate is a multiple of 16.
    pub fn start(&self) -> (start: (u32, u32, u32))
        ensures
            start == self.origin(),
            start.0 % 16 == 0,
            start.1 % 16 == 0,
            start.2 % 16 == 0,
    {
        proof {
            use_type_invariant(self);
        }
        self.start
    }
}

/// A block that holds material, and where in the world it lies.
#[derive(Debug, Copy, Clone, PartialEq, Eq, Structural)]
pub struct Voxel {
    pub x: u32,
    pub y: u32,
    pub z: u32,
    pub ty: Type,
}

/// Whether a voxel holds material.
pub open spec fn is_visible(voxel: Voxel) -> bool {
    voxel.ty != Type::Inactive
}

impl Chunk {
    /// The block that comes at `index` when the chunk is walked by `x`,
    /// then `y`, then `z`, together with its position in the world.
    pub open spec fn cell(&self, index: int) -> Voxel {
        let x = index / 256;
        let y = (index / 16) % 16;
        let z = index % 16;
        Voxel {
            x: (self.origin().0 + x) as u32,
            y: (self.origin().1 + y) as u32,
            z: (self.origin().2 + z) as u32,
            ty: self.material(x, y, z),
        }
    }

    /// All 4096 blocks of the chunk in the order of the walk.
    pub open spec fn cells(&self) -> Seq<Voxel> {
        Seq::new(4096, |index: int| self.cell(index))
    }

    /// The blocks of the chunk that hold material, in the order of the walk.
    pub open spec fn visible(&self) -> Seq<Voxel> {
        self.cells().filter(|voxel: Voxel| is_visible(voxel))
    }

    /// The blocks to draw: those that hold material, each with its position
    /// in the world, in the order of a walk over the chunk by `x`, then
    /// `y`, then `z`.
    pub fn voxels(&self) -> (voxels: Vec<Voxel>)
        ensures
            voxels@ == self.visible(),
            forall|i: int| 0 <= i < voxels@.len() ==> (#[trigger] voxels@[i]).ty != Type::Inactive,
    {
        proof {
            use_type_invariant(self);
            assert forall|i: int| 0 <= i < self.visible().len() implies is_visible(
                #[trigger] self.visible()[i],
            ) by {
                self.cells().lemma_filter_pred(|voxel: Voxel| is_visible(voxel), i);
            }
        }
        let ghost cells = self.cells();
        let ghost keep = |voxel: Voxel| is_visible(voxel);
        let mut voxels: Vec<Voxel> = Vec::new();
        proof {
            reveal(Seq::filter);
        }
        let mut x: usize = 0;
        while x < 16
            invariant
                x <= 16,
                cells == self.cells(),
                keep == |voxel: Voxel| is_visible(voxel),
                self.start.0 % 16 == 0 && self.start.1 % 16 == 0 && self.start.2 % 16 == 0,
                voxels@ == cells.take(256 * x).filter(keep),
            decreases 16 - x,
        {
            let mut y: usize = 0;
            while y < 16
                invariant
                    x < 16,
                    y <= 16,
                    cells == self.cells(),
                    keep == |voxel: Voxel| is_visible(voxel),
                    self.start.0 % 16 == 0 && self.start.1 % 16 == 0 && self.start.2 % 16 == 0,
                    voxels@ == cells.take(256 * x + 16 * y).filter(keep),
                decreases 16 - y,
            {
                let mut z: usize = 0;
                while z < 16
                    invariant
                        x < 16,
                        y < 16,
                        z <= 16,
                        cells == self.cells(),
                        keep == |voxel: Voxel| is_visible(voxel),
                        self.start.0 % 16 == 0 && self.start.1 % 16 == 0 && self.start.2 % 16
                            == 0,
                        voxels@ == cells.take(256 * x + 16 * y + z).filter(keep),
                    decreases 16 - z,
                {
                    let ty = self.blocks[x][y][z].ty();
                    proof {
                        let index = 256 * x + 16 * y + z;
                        lemma_filter_next(cells, keep, index);
                    }
                    if self.blocks[x][y][z].is_active() {
                        voxels.push(
                            Voxel {
                                x: self.start.0 + x as u32,
                                y: self.start.1 + y as u32,
                                z: self.start.2 + z as u32,
                                ty,
                            },
                        );
                    }
                    z += 1;
                }
                y += 1;
            }
            x += 1;
        }
        assert(cells.take(4096) =~= cells);
        voxels
    }
}

/// Filtering one element more keeps what was kept and adds the element
/// where it passes.
proof fn lemma_filter_next<A>(items: Seq<A>, keep: spec_fn(A) -> bool, n: int)
    requires
        0 <= n < items.len(),
    ensures
        items.take(n + 1).filter(keep) == if keep(items[n]) {
            items.take(n).filter(keep).push(items[n])
        } else {
            items.take(n).filter(keep)
        },
{
    reveal(Seq::filter);
    assert(items.take(n + 1).drop_last() =~= items.take(n));
}

impl Chunk {
    /// Whether the chunk lies where the chunk with index `slot`, counted
    /// from the bottom, of the column at `key` belongs.
    pub open spec fn lies_at(&self, key: ChunkKey, slot: int) -> bool {
        &&& self.origin().0 == 16 * key.x
        &&& self.origin().1 == 16 * slot
        &&& self.origin().2 == 16 * key.z
    }
}

/// Whether `column` has the shape of the column at `key`: eight chunks from
/// the bottom up, each at its place in the world.
pub open spec fn stands_at(column: Seq<Chunk>, key: ChunkKey) -> bool {
    &&& column.len() == 8
    &&& forall|slot: int| 0 <= slot < 8 ==> (#[trigger] column[slot]).lies_at(key, slot)
}

/// Whether `column` is the column of chunks at `key` over ground of the
/// given heights: it has the shape of the column at `key`, and each block
/// is of the material that its layer and the height of the ground under it
/// call for.
pub open spec fn is_column(column: Seq<Chunk>, key: ChunkKey, heights: HeightMap) -> bool {
    &&& stands_at(column, key)
    &&& forall|slot: int, x: int, y: int, z: int|
        0 <= slot < 8 && 0 <= x < 16 && 0 <= y < 16 && 0 <= z < 16
            ==> #[trigger] column[slot].material(x, y, z) == material_at(
            16 * slot + y,
            heights.at(x, z) as int,
        )
}

/// Whether `column` has the shape of the column at `key`.
pub fn is_column_at(column: &Vec<Chunk>, key: ChunkKey) -> (placed: bool)
    ensures
        placed == stands_at(column@, key),
{
    if column.len() != 8 {
        return false;
    }
    let mut slot: usize = 0;
    while slot < 8
        invariant
            slot <= 8,
            column@.len() == 8,
            forall|below: int| 0 <= below < slot ==> (#[trigger] column@[below]).lies_at(key, below),
        decreases 8 - slot,
    {
        let start = column[slot].start;
        if start.0 as u64 != 16 * (key.x as u64) || start.1 as u64 != 16 * (slot as u64)
            || start.2 as u64 != 16 * (key.z as u64) {
            return false;
        }
        slot += 1;
    }
    true
}

/// One chunk of a column: the chunk with index `slot`, counted from the
/// bottom, of the column at `key`.
fn load_chunk(heights: &HeightMap, key: ChunkKey, slot: u32) -> (chunk: Chunk)
    requires
        key.x <= MAX_CHUNK_INDEX,
        key.z <= MAX_CHUNK_INDEX,
        slot < 8,
    ensures
        chunk.lies_at(key, slot as int),
        forall|x: int, y: int, z: int|
            0 <= x < 16 && 0 <= y < 16 && 0 <= z < 16 ==> #[trigger] chunk.material(x, y, z)
                == material_at(16 * slot + y, heights.at(x, z) as int),
{
    let mut blocks = [[[Block::new(); 16]; 16]; 16];
    let mut x: usize = 0;
    while x < 16
        invariant
            x <= 16,
            slot < 8,
            forall|a: int, b: int, c: int|
                0 <= a < x && 0 <= b < 16 && 0 <= c < 16 ==> #[trigger] blocks[a][b][c]@
                    == material_at(16 * slot + b, heights.at(a, c) as int),
        decreases 16 - x,
    {
        let mut y: usize = 0;
        while y < 16
            invariant
                x < 16,
                y <= 16,
                slot < 8,
                forall|a: int, b: int, c: int|
                    0 <= a < x && 0 <= b < 16 && 0 <= c < 16 ==> #[trigger] blocks[a][b][c]@
                        == material_at(16 * slot + b, heights.at(a, c) as int),
                forall|b: int, c: int|
                    0 <= b < y && 0 <= c < 16 ==> #[trigger] blocks[x as int][b][c]@
                        == material_at(16 * slot + b, heights.at(x as int, c) as int),
            decreases 16 - y,
        {
            let layer: u32 = world_coordinate(slot, y as u32);
            let mut z: usize = 0;
            while z < 16
                invariant
                    x < 16,
                    y < 16,
                    z <= 16,
                    slot < 8,
                    layer == 16 * slot + y,
                    forall|a: int, b: int, c: int|
                        0 <= a < x && 0 <= b < 16 && 0 <= c < 16 ==> #[trigger] blocks[a][b][c]@
                            == material_at(16 * slot + b, heights.at(a, c) as int),
                    forall|b: int, c: int|
                        0 <= b < y && 0 <= c < 16 ==> #[trigger] blocks[x as int][b][c]@
                            == material_at(16 * slot + b, heights.at(x as int, c) as int),
                    forall|c: int|
                        0 <= c < z ==> #[trigger] blocks[x as int][y as int][c]@ == material_at(
                            16 * slot + y,
                            heights.at(x as int, c) as int,
                        ),
                decreases 16 - z,
            {
                blocks[x][y][z].set_type(material(layer, heights.get(x, z)));
                z += 1;
            }
            y += 1;
        }
        x += 1;
    }
    Chunk {
        blocks,
        start: (world_coordinate(key.x, 0), world_coordinate(slot, 0), world_coordinate(key.z, 0)),
    }
}

/// Generates the column of chunks at `key` over ground of the given
/// heights.
pub fn load_chunks(heights: &HeightMap, key: ChunkKey) -> (chunks: Vec<Chunk>)
    requires
        key.x <= MAX_CHUNK_INDEX,
        key.z <= MAX_CHUNK_INDEX,
    ensures
        is_column(chunks@, key, *heights),
{
    let mut chunks: Vec<Chunk> = Vec::new();
    let mut slot: u32 = 0;
    while slot < 8
        invariant
            slot <= 8,
            key.x <= MAX_CHUNK_INDEX,
            key.z <= MAX_CHUNK_INDEX,
            chunks@.len() == slot,
            forall|c: int| 0 <= c < slot ==> (#[trigger] chunks@[c]).lies_at(key, c),
            forall|c: int, x: int, y: int, z: int|
                0 <= c < slot && 0 <= x < 16 && 0 <= y < 16 && 0 <= z < 16
                    ==> #[trigger] chunks@[c].material(x, y, z) == material_at(
                    16 * c + y,
                    heights.at(x, z) as int,
                ),
        decreases 8 - slot,
    {
        let chunk = load_chunk(heights, key, slot);
        chunks.push(chunk);
        slot += 1;
    }
    chunks
}

/// Generation is a function of the key and the heights: two columns
/// generated for the same key over the same ground are equal, block for
/// block.
pub proof fn lemma_generation_is_deterministic(
    first: Seq<Chunk>,
    second: Seq<Chunk>,
    key: ChunkKey,
    heights: HeightMap,
)
    requires
        is_column(first, key, heights),
        is_column(second, key, heights),
    ensures
        first == second,
{
    assert forall|c: int| 0 <= c < 8 implies first[c] == second[c] by {
        let a = first[c];
        let b = second[c];
        assert forall|x: int| 0 <= x < 16 implies a.blocks[x] == b.blocks[x] by {
            assert forall|y: int| 0 <= y < 16 implies a.blocks[x][y] == b.blocks[x][y] by {
                assert forall|z: int| 0 <= z < 16 implies a.blocks[x][y][z]
                    == b.blocks[x][y][z] by {
                    assert(a.material(x, y, z) == b.material(x, y, z));
                    lemma_block_is_its_material(a.blocks[x][y][z], b.blocks[x][y][z]);
                }
            }
        }
        assert(a.blocks =~= b.blocks);
    }
}

} // verus!
