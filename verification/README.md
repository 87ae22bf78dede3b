# hypercubed

The verified core of a Minecraft-compatible voxel game client.

- `src/` is the library, verified with Verus: subchunk face connectivity and cave culling
  (`connectivity`, `cave_cull`, `visibility`), GPU buffer-area management (`buffer_pool`),
  tracking of in-flight mesh updates (`subchunk_tracker`), block meshing (`meshing`), draw lists
  for visible subchunks (`graphics`),
  world coordinates (`world`), input translation tables and events (`input`), the PlayStation 2
  graphics-synthesiser registers, GIF packets, DMA channel words and video memory allocation
  (`ps2`), and small pieces of game logic (`physics`, `daylight`, `lazy`). Cross-function laws
  live in `laws` and beside the functions they speak of.
- `bitset` is the one place that calls an outside crate (`fixedbitset`), behind trusted
  wrappers whose contracts state what that crate's source shows.
- `tests/` runs the library on concrete values.
- `app/` is a small command-line driver plus the floating-point parts of the client
  (bounding boxes and player motion, the lightmap), which Verus cannot reason about.
