//! A voxel world of cubic blocks, kept in chunks that are loaded, meshed
//! and unloaded as players move through it.
//!
//! The library holds the rules of the world and proves them: the
//! conversions between positions, blocks and chunks; the greedy mesher that
//! turns the blocks of a chunk into quads with ambient occlusion; the tasks
//! that generate, mesh and unload chunks, with the queues that carry them;
//! the bookkeeping of load jobs; the render zones that collect what has
//! changed; and the ray that finds the block a player looks at.
//!
//! Every operation takes the world by reference and runs to its end. A
//! program that works on the world from several threads shares it behind a
//! lock, and lets each worker thread call [`world::run_next_task`].

pub mod types;
pub mod block;
pub mod chunk_map;
pub mod chunk;
pub mod slice;
pub mod render_zone;
pub mod chunk_box;
pub mod parallel;
pub mod player;
pub mod chunk_store;
pub mod world;
pub mod completion;
pub mod raycast;
pub mod worldgen;
