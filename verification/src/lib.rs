//! Chunked voxel terrain: block materials, the generation of chunk columns
//! from the height of the ground, and the bookkeeping that decides which
//! columns are kept around the player.
//!
//! The world is the quadrant of non-negative coordinates. It is cut into
//! chunks of 16 by 16 by 16 blocks; eight chunks stacked on each other make
//! a column, and a column is what is generated, kept and dropped as one.
//!
//! - [`block`]: a block and its material.
//! - [`terrain`]: which material a block gets, and the heights a column is
//!   generated from.
//! - [`coords`]: block and chunk coordinates and the retention window.
//! - [`chunk`]: a chunk, the blocks to draw from it, and the generation of a
//!   column.
//! - [`residency`]: the states a column goes through, as a mathematical
//!   model with the laws that hold of it.
//! - [`chunks`]: the store that follows that model.
//!
//! Nothing here samples noise, starts a thread or waits: the store hands out
//! the keys of the columns it wants and takes the generated columns in, and
//! whoever drives it does the rest.

pub mod block;
pub mod chunk;
pub mod chunks;
pub mod coords;
pub mod residency;
pub mod terrain;
