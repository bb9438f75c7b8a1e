//! Coordinates on the ground plane: block columns, chunk columns and the
//! square of chunk columns that is kept around the player.

use vstd::prelude::*;

verus! {

/// The largest chunk index whose blocks still have `u32` world coordinates.
pub const MAX_CHUNK_INDEX: u32 = 0x0FFF_FFFF;

/// Number of keys that share one `x` in the packed form of a key.
pub const KEY_STRIDE: u64 = 0x1_0000_0000;

/// The world coordinate of the block with the local coordinate `local` in
/// the chunk with the index `chunk` on the same axis.
pub fn world_coordinate(chunk: u32, local: u32) -> (coordinate: u32)
    requires
        chunk <= MAX_CHUNK_INDEX,
        local < 16,
    ensures
        coordinate == 16 * chunk + local,
{
    local + 16 * chunk
}

/// `v`, or zero where `v` is negative.
pub open spec fn clamped(v: int) -> int {
    if v < 0 {
        0
    } else {
        v
    }
}

/// A position on the ground plane, in blocks or in chunks.
#[derive(Debug, Copy, Clone, PartialEq, Eq, Structural)]
pub struct Position {
    pub x: i32,
    pub z: i32,
}

impl Position {
    /// The block column under a player who stands at `(x, z)`, both rounded
    /// down to whole blocks. The world is the quadrant of non-negative
    /// coordinates; a player outside it counts as standing on its edge.
    pub open spec fn of_player_spec(x: i32, z: i32) -> Position {
        Position { x: clamped(x as int) as i32, z: clamped(z as int) as i32 }
    }

    /// The chunk column that holds this block column.
    pub open spec fn chunk_spec(self) -> Position {
        Position {
            x: (clamped(self.x as int) / 16) as i32,
            z: (clamped(self.z as int) / 16) as i32,
        }
    }

    /// The block column under a player who stands at `(x, z)`, both rounded
    /// down to whole blocks.
    #[verifier::when_used_as_spec(of_player_spec)]
    pub fn of_player(x: i32, z: i32) -> (block: Position)
        ensures
            block == Position::of_player_spec(x, z),
            block.x == clamped(x as int),
            block.z == clamped(z as int),
    {
        Position { x: if x < 0 { 0 } else { x }, z: if z < 0 { 0 } else { z } }
    }

    /// The chunk column that holds this block column.
    #[verifier::when_used_as_spec(chunk_spec)]
    pub fn chunk(self) -> (chunk: Position)
        ensures
            chunk == self.chunk_spec(),
            chunk.x == clamped(self.x as int) / 16,
            chunk.z == clamped(self.z as int) / 16,
            0 <= chunk.x <= i32::MAX / 16,
            0 <= chunk.z <= i32::MAX / 16,
    {
        Position {
            x: if self.x < 0 { 0 } else { self.x / 16 },
            z: if self.z < 0 { 0 } else { self.z / 16 },
        }
    }
}

/// The coordinate of one column of chunks.
#[derive(Debug, Copy, Clone, PartialEq, Eq, Hash, Structural)]
pub struct ChunkKey {
    pub x: u32,
    pub z: u32,
}

impl ChunkKey {
    /// The key as one number: `x` in the upper half, `z` in the lower.
    pub open spec fn packed_spec(self) -> u64 {
        (self.x * KEY_STRIDE + self.z) as u64
    }

    /// The key that `packed` stands for.
    pub open spec fn unpack_spec(packed: u64) -> ChunkKey {
        ChunkKey { x: (packed / KEY_STRIDE) as u32, z: (packed % KEY_STRIDE) as u32 }
    }

    /// Whether `self` comes before `other` in the order in which keys are
    /// walked: by `x`, and by `z` among keys with the same `x`.
    pub open spec fn precedes(self, other: ChunkKey) -> bool {
        self.x < other.x || (self.x == other.x && self.z < other.z)
    }

    pub fn new(x: u32, z: u32) -> (key: ChunkKey)
        ensures
            key == (ChunkKey { x, z }),
    {
        ChunkKey { x, z }
    }

    /// The key as one number.
    #[verifier::when_used_as_spec(packed_spec)]
    pub fn packed(self) -> (packed: u64)
        ensures
            packed == self.packed_spec(),
            ChunkKey::unpack_spec(packed) == self,
    {
        (self.x as u64) * KEY_STRIDE + (self.z as u64)
    }

    /// The key that `packed` stands for.
    #[verifier::when_used_as_spec(unpack_spec)]
    pub fn unpack(packed: u64) -> (key: ChunkKey)
        ensures
            key == ChunkKey::unpack_spec(packed),
            key.packed_spec() == packed,
    {
        ChunkKey { x: (packed / KEY_STRIDE) as u32, z: (packed % KEY_STRIDE) as u32 }
    }
}

/// Packing loses nothing: every key is the one its packed form stands for,
/// and every number is the packed form of the key it stands for.
pub proof fn lemma_packing_is_bijective(key: ChunkKey, packed: u64)
    ensures
        ChunkKey::unpack_spec(key.packed_spec()) == key,
        ChunkKey::unpack_spec(packed).packed_spec() == packed,
{
}

/// Different keys have different packed forms.
pub proof fn lemma_packing_is_injective(a: ChunkKey, b: ChunkKey)
    requires
        a.packed_spec() == b.packed_spec(),
    ensures
        a == b,
{
}

/// A square of chunk columns, both corners included.
#[derive(Debug, Copy, Clone, PartialEq, Eq, Structural)]
pub struct Window {
    pub start: ChunkKey,
    pub end: ChunkKey,
}

impl Window {
    /// The window of the given radius around a chunk column, cut off at the
    /// edge of the world.
    pub open spec fn around_spec(chunk: Position, radius: u16) -> Window {
        Window {
            start: ChunkKey {
                x: clamped(chunk.x - radius) as u32,
                z: clamped(chunk.z - radius) as u32,
            },
            end: ChunkKey {
                x: clamped(chunk.x + radius) as u32,
                z: clamped(chunk.z + radius) as u32,
            },
        }
    }

    /// The number of chunk columns in the window.
    pub open spec fn area(self) -> int {
        (self.end.x - self.start.x + 1) * (self.end.z - self.start.z + 1)
    }

    /// Whether `key` lies in the window.
    pub open spec fn contains_spec(&self, key: ChunkKey) -> bool {
        &&& self.start.x <= key.x <= self.end.x
        &&& self.start.z <= key.z <= self.end.z
    }

    /// The window of the given radius around a chunk column, cut off at the
    /// edge of the world.
    #[verifier::when_used_as_spec(around_spec)]
    pub fn around(chunk: Position, radius: u16) -> (window: Window)
        ensures
            window == Window::around_spec(chunk, radius),
            window.start.x == clamped(chunk.x - radius),
            window.start.z == clamped(chunk.z - radius),
            window.end.x == clamped(chunk.x + radius),
            window.end.z == clamped(chunk.z + radius),
            window.start.x <= window.end.x,
            window.start.z <= window.end.z,
    {
        Window {
            start: ChunkKey { x: offset(chunk.x, -(radius as i64)), z: offset(chunk.z, -(radius as i64)) },
            end: ChunkKey { x: offset(chunk.x, radius as i64), z: offset(chunk.z, radius as i64) },
        }
    }

    /// Whether `key` lies in the window.
    #[verifier::when_used_as_spec(contains_spec)]
    pub fn contains(&self, key: ChunkKey) -> (inside: bool)
        ensures
            inside == self.contains_spec(key),
    {
        self.start.x <= key.x && key.x <= self.end.x && self.start.z <= key.z && key.z
            <= self.end.z
    }
}

/// `index + by`, or zero where that is negative.
fn offset(index: i32, by: i64) -> (moved: u32)
    requires
        -0x1_0000 < by < 0x1_0000,
    ensures
        moved == clamped(index + by),
{
    let sum: i64 = index as i64 + by;
    if sum < 0 {
        0
    } else {
        sum as u32
    }
}

/// A window holds at most as many chunk columns as the square of twice its
/// radius and one.
pub proof fn lemma_window_area_is_bounded(chunk: Position, radius: u16)
    ensures
        0 < Window::around_spec(chunk, radius).area() <= (2 * radius + 1) * (2 * radius + 1),
{
    let window = Window::around_spec(chunk, radius);
    let side = 2 * radius + 1;
    let width = window.end.x - window.start.x + 1;
    let depth = window.end.z - window.start.z + 1;
    assert(0 < width * depth <= side * side) by (nonlinear_arith)
        requires
            0 < width <= side,
            0 < depth <= side,
    ;
}

/// Where the player stands at or beyond the lower edge of the world on an
/// axis, the block and chunk positions on that axis are zero and the window
/// starts at zero and ends at the radius.
pub proof fn lemma_window_clamps_at_origin(x: i32, z: i32, radius: u16)
    ensures
        ({
            let block = Position::of_player_spec(x, z);
            let chunk = block.chunk_spec();
            let window = Window::around_spec(chunk, radius);
            &&& window.start.x >= 0 && window.start.z >= 0
            &&& x <= 0 ==> block.x == 0 && chunk.x == 0 && window.start.x == 0 && window.end.x
                == radius
            &&& z <= 0 ==> block.z == 0 && chunk.z == 0 && window.start.z == 0 && window.end.z
                == radius
        }),
{
}

} // verus!
