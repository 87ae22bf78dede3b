//! Verified core logic of the hypercubed client: subchunk connectivity and cave culling,
//! GPU buffer area management, PS2 graphics-synthesiser register encodings and video memory
//! allocation, input translation tables and assorted small pieces of game logic.

pub mod direction;
pub mod connectivity;
pub mod bitset;
pub mod cave_cull;
pub mod visibility;
pub mod input;
pub mod world;
pub mod physics;
pub mod subchunk_tracker;
pub mod graphics;
pub mod meshing;
pub mod laws;
pub mod lazy;
pub mod daylight;
pub mod buffer_pool;
pub mod bitfield;
pub mod ps2;
