//! Meshing of subchunk blocks: whether a subchunk is meshed, which faces are hidden by their
//! neighbours, where a face's neighbour lies, which face instances a block model gives, and how
//! a face is packed for the GPU.
use vstd::prelude::*;
use crate::world::{MIN_HEIGHT_I32, MAX_HEIGHT_I32};

verus! {

/// How much a block hides what is behind it.
#[derive(Clone, Copy, Debug, PartialEq, Eq, Structural)]
pub enum BlockOpacity {
    Opaque,
    Glass,
    GlassPane,
    /// Any other block: air, plants, and the like.
    Transparent,
}

/// A face of a block is hidden when the neighbour behind it is opaque, or when both are glass
/// or both are glass panes.
pub open spec fn spec_face_culled(block: BlockOpacity, neighbour: BlockOpacity) -> bool {
    neighbour == BlockOpacity::Opaque || (block == BlockOpacity::Glass && neighbour
        == BlockOpacity::Glass) || (block == BlockOpacity::GlassPane && neighbour
        == BlockOpacity::GlassPane)
}

pub fn face_culled(block: BlockOpacity, neighbour: BlockOpacity) -> (r: bool)
    ensures
        r == spec_face_culled(block, neighbour),
{
    match (block, neighbour) {
        (_, BlockOpacity::Opaque) => true,
        (BlockOpacity::Glass, BlockOpacity::Glass) => true,
        (BlockOpacity::GlassPane, BlockOpacity::GlassPane) => true,
        _ => false,
    }
}

/// The tint of foliage: spruce leaves have their own.
pub fn tint_colour(is_spruce_leaves: bool) -> (c: [u8; 4])
    ensures
        c@ == if is_spruce_leaves {
            seq![0x61u8, 0x99u8, 0x61u8, 0xFFu8]
        } else {
            seq![0x91u8, 0xBDu8, 0x59u8, 0xFFu8]
        },
{
    if is_spruce_leaves {
        [0x61, 0x99, 0x61, 0xFF]
    } else {
        [0x91, 0xBD, 0x59, 0xFF]
    }
}

/// The offset to the neighbour behind face `face_i`, in the face order the mesher uses: up,
/// down, north, south, east, west.
pub open spec fn face_offset(face_i: int) -> (int, int, int) {
    if face_i == 0 {
        (0, 1, 0)
    } else if face_i == 1 {
        (0, -1, 0)
    } else if face_i == 2 {
        (0, 0, -1)
    } else if face_i == 3 {
        (0, 0, 1)
    } else if face_i == 4 {
        (1, 0, 0)
    } else {
        (-1, 0, 0)
    }
}

/// The chunk column a neighbouring block lies in, relative to the block's own.
#[derive(Clone, Copy, Debug, PartialEq, Eq, Structural)]
pub enum NeighbourColumn {
    Same,
    West,
    East,
    North,
    South,
}

/// Where the neighbour of a block lies: its column, its section, and its position there.
#[derive(Clone, Copy, Debug, PartialEq, Eq, Structural)]
pub struct NeighbourLocation {
    pub column: NeighbourColumn,
    pub section: usize,
    pub x: usize,
    pub y: usize,
    pub z: usize,
}

/// The column of a neighbour at local `nx`, `nz` (one of them may step one outside 0..16).
pub open spec fn spec_neighbour_column(nx: int, nz: int) -> NeighbourColumn {
    if nx == -1 {
        NeighbourColumn::West
    } else if nx == 16 {
        NeighbourColumn::East
    } else if nz == -1 {
        NeighbourColumn::North
    } else if nz == 16 {
        NeighbourColumn::South
    } else {
        NeighbourColumn::Same
    }
}

/// Where the neighbour behind face `face_i` of block `x`, `y`, `z` of section `section` lies, or
/// `None` when it is outside the height of the world (such a face is never hidden).
pub fn neighbour_location(section: usize, x: usize, y: usize, z: usize, face_i: usize) -> (r:
    Option<NeighbourLocation>)
    requires
        section < 24,
        x < 16,
        y < 16,
        z < 16,
        face_i < 6,
    ensures
        ({
            let (dx, dy, dz) = face_offset(face_i as int);
            let (nx, ny, nz) = (x + dx, y + dy, z + dz);
            let global_y = 16 * section + ny + MIN_HEIGHT_I32;
            match r {
                None => !(MIN_HEIGHT_I32 <= global_y <= MAX_HEIGHT_I32),
                Some(l) => {
                    &&& MIN_HEIGHT_I32 <= global_y <= MAX_HEIGHT_I32
                    &&& l.column == spec_neighbour_column(nx, nz)
                    &&& l.section == (16 * section + ny) / 16
                    &&& l.x == nx % 16
                    &&& l.y == ny % 16
                    &&& l.z == nz % 16
                },
            }
        }),
{
    let (dx, dy, dz): (i32, i32, i32) = if face_i == 0 {
        (0, 1, 0)
    } else if face_i == 1 {
        (0, -1, 0)
    } else if face_i == 2 {
        (0, 0, -1)
    } else if face_i == 3 {
        (0, 0, 1)
    } else if face_i == 4 {
        (1, 0, 0)
    } else {
        (-1, 0, 0)
    };
    let nx = x as i32 + dx;
    let ny = y as i32 + dy;
    let nz = z as i32 + dz;
    let rel_y = 16 * section as i32 + ny;
    let global_y = rel_y + MIN_HEIGHT_I32;
    if global_y < MIN_HEIGHT_I32 || global_y > MAX_HEIGHT_I32 {
        return None;
    }
    let column = if nx == -1 {
        NeighbourColumn::West
    } else if nx == 16 {
        NeighbourColumn::East
    } else if nz == -1 {
        NeighbourColumn::North
    } else if nz == 16 {
        NeighbourColumn::South
    } else {
        NeighbourColumn::Same
    };
    Some(
        NeighbourLocation {
            column,
            section: (rel_y / 16) as usize,
            x: ((nx + 16) % 16) as usize,
            y: ((ny + 16) % 16) as usize,
            z: ((nz + 16) % 16) as usize,
        },
    )
}

/// A quarter-turn rotation of a face's texture.
#[derive(Clone, Copy, Debug, PartialEq, Eq, Structural)]
pub enum RightAngleRotation {
    Zero,
    Ninety,
    OneEighty,
    TwoSeventy,
}

impl RightAngleRotation {
    /// The number of quarter turns.
    pub open spec fn spec_quarter_turns(self) -> u8 {
        match self {
            RightAngleRotation::Zero => 0,
            RightAngleRotation::Ninety => 1,
            RightAngleRotation::OneEighty => 2,
            RightAngleRotation::TwoSeventy => 3,
        }
    }

    pub fn quarter_turns(&self) -> (n: u8)
        ensures
            n == self.spec_quarter_turns(),
            n < 4,
    {
        match self {
            RightAngleRotation::Zero => 0,
            RightAngleRotation::Ninety => 1,
            RightAngleRotation::OneEighty => 2,
            RightAngleRotation::TwoSeventy => 3,
        }
    }
}

/// The packed position of a block in its subchunk: x in bits 0-3, y in 4-7, z in 8-11.
pub open spec fn spec_packed_xyz(x: u8, y: u8, z: u8) -> u16 {
    (x + y * 16 + z * 256) as u16
}

/// The packed light levels: sky light in the low four bits, block light in the high four.
pub open spec fn spec_packed_light(sky: u8, block: u8) -> u8 {
    (sky + block * 16) as u8
}

/// One face of a full block, as the GPU reads it.
#[derive(Clone, Copy, Debug, PartialEq, Eq)]
pub struct BlockFaceInstance {
    pub uvs: [u16; 4],
    pub packed_xyz: u16,
    /// The UV rotation, then the packed light levels.
    pub uv_rotation_and_light_levels: [u8; 2],
}

fn pack_xyz(subchunk_xyz: [u8; 3]) -> (p: u16)
    requires
        subchunk_xyz[0] < 16,
        subchunk_xyz[1] < 16,
        subchunk_xyz[2] < 16,
    ensures
        p == spec_packed_xyz(subchunk_xyz[0], subchunk_xyz[1], subchunk_xyz[2]),
{
    subchunk_xyz[0] as u16 + subchunk_xyz[1] as u16 * 16 + subchunk_xyz[2] as u16 * 256
}

fn pack_light(light_levels: [u8; 2]) -> (p: u8)
    requires
        light_levels[0] < 16,
        light_levels[1] < 16,
    ensures
        p == spec_packed_light(light_levels[0], light_levels[1]),
{
    light_levels[0] + light_levels[1] * 16
}

impl BlockFaceInstance {
    pub fn new(
        subchunk_xyz: [u8; 3],
        uvs: [u16; 4],
        uv_rotation: RightAngleRotation,
        light_levels: [u8; 2],
    ) -> (i: Self)
        requires
            subchunk_xyz[0] < 16,
            subchunk_xyz[1] < 16,
            subchunk_xyz[2] < 16,
            light_levels[0] < 16,
            light_levels[1] < 16,
        ensures
            i.uvs == uvs,
            i.packed_xyz == spec_packed_xyz(subchunk_xyz[0], subchunk_xyz[1], subchunk_xyz[2]),
            i.uv_rotation_and_light_levels[0] == uv_rotation.spec_quarter_turns(),
            i.uv_rotation_and_light_levels[1] == spec_packed_light(light_levels[0], light_levels[1]),
    {
        BlockFaceInstance {
            uvs,
            packed_xyz: pack_xyz(subchunk_xyz),
            uv_rotation_and_light_levels: [uv_rotation.quarter_turns(), pack_light(light_levels)],
        }
    }
}

/// One tinted face of a full block, as the GPU reads it.
#[derive(Clone, Copy, Debug, PartialEq, Eq)]
pub struct TintedBlockFaceInstance {
    pub uvs: [u16; 4],
    pub tint_color: [u8; 4],
    pub packed_xyz: u16,
    /// The UV rotation, then the packed light levels.
    pub uv_rotation_and_light_levels: [u8; 2],
}

impl TintedBlockFaceInstance {
    pub fn new(
        subchunk_xyz: [u8; 3],
        uvs: [u16; 4],
        uv_rotation: RightAngleRotation,
        light_levels: [u8; 2],
        tint_color: [u8; 4],
    ) -> (i: Self)
        requires
            subchunk_xyz[0] < 16,
            subchunk_xyz[1] < 16,
            subchunk_xyz[2] < 16,
            light_levels[0] < 16,
            light_levels[1] < 16,
        ensures
            i.uvs == uvs,
            i.tint_color == tint_color,
            i.packed_xyz == spec_packed_xyz(subchunk_xyz[0], subchunk_xyz[1], subchunk_xyz[2]),
            i.uv_rotation_and_light_levels[0] == uv_rotation.spec_quarter_turns(),
            i.uv_rotation_and_light_levels[1] == spec_packed_light(light_levels[0], light_levels[1]),
    {
        TintedBlockFaceInstance {
            uvs,
            tint_color,
            packed_xyz: pack_xyz(subchunk_xyz),
            uv_rotation_and_light_levels: [uv_rotation.quarter_turns(), pack_light(light_levels)],
        }
    }
}

/// Packing a position or light levels loses nothing: each part can be read back.
pub proof fn lemma_packing_round_trip(x: u8, y: u8, z: u8, sky: u8, block: u8)
    requires
        x < 16,
        y < 16,
        z < 16,
        sky < 16,
        block < 16,
    ensures
        spec_packed_xyz(x, y, z) % 16 == x,
        (spec_packed_xyz(x, y, z) / 16) % 16 == y,
        spec_packed_xyz(x, y, z) / 256 == z,
        spec_packed_light(sky, block) % 16 == sky,
        spec_packed_light(sky, block) / 16 == block,
{
    let p = x + y * 16 + z * 256;
    vstd::arithmetic::div_mod::lemma_fundamental_div_mod_converse(p, 16, y + z * 16, x as int);
    vstd::arithmetic::div_mod::lemma_fundamental_div_mod_converse(y + z * 16, 16, z as int, y as int);
    vstd::arithmetic::div_mod::lemma_fundamental_div_mod_converse(p, 256, z as int, x + y * 16);
    vstd::arithmetic::div_mod::lemma_fundamental_div_mod_converse(sky + block * 16, 16, block as int, sky as int);
}


/// Whether a subchunk is meshed at all: its chunk column is loaded, its section holds some
/// block, and the four neighbouring columns (west, east, north, south) are loaded, so that every
/// face on its border can be decided.
pub fn subchunk_is_meshed(column_loaded: bool, block_count: u16, neighbours_loaded: [bool; 4]) -> (r: bool)
    ensures
        r == (column_loaded && block_count != 0 && neighbours_loaded[0] && neighbours_loaded[1]
            && neighbours_loaded[2] && neighbours_loaded[3]),
{
    if !column_loaded || block_count == 0 {
        return false;
    }
    let mut i: usize = 0;
    while i < 4
        invariant
            i <= 4,
            forall|j: int| 0 <= j < i ==> #[trigger] neighbours_loaded[j],
        decreases 4 - i,
    {
        if !neighbours_loaded[i] {
            return false;
        }
        i = i + 1;
    }
    true
}

/// Side of the neighbourhood of a subchunk: the subchunk and one block all round.
pub const PADDED_AXIS_LEN: usize = 18;

/// Index in a subchunk's neighbourhood (18 blocks a side, y major, then z, then x) of the block
/// at `x`, `y`, `z` in subchunk coordinates, each from -1 to 16.
pub open spec fn padded_index(x: int, y: int, z: int) -> int {
    (y + 1) * 324 + (z + 1) * 18 + (x + 1)
}

/// Whether face `face_i` (up, down, north, south, east, west) of the block at `x`, `y`, `z` is
/// hidden, given the opacity of each block of the neighbourhood, `None` above or below the
/// world. A face towards a position outside the world is never hidden.
pub open spec fn spec_face_hidden(
    padded: Seq<Option<BlockOpacity>>,
    x: int,
    y: int,
    z: int,
    face_i: int,
) -> bool {
    let (dx, dy, dz) = face_offset(face_i);
    match (padded[padded_index(x, y, z)], padded[padded_index(x + dx, y + dy, z + dz)]) {
        (Some(block), Some(neighbour)) => spec_face_culled(block, neighbour),
        _ => false,
    }
}

fn face_hidden_between(padded: &Vec<Option<BlockOpacity>>, at: usize, behind: usize) -> (r: bool)
    requires
        at < padded@.len(),
        behind < padded@.len(),
    ensures
        r == match (padded@[at as int], padded@[behind as int]) {
            (Some(block), Some(neighbour)) => spec_face_culled(block, neighbour),
            _ => false,
        },
{
    match (padded[at], padded[behind]) {
        (Some(block), Some(neighbour)) => face_culled(block, neighbour),
        _ => false,
    }
}

/// The hidden faces of every block of a subchunk, in block order (y major, then z, then x),
/// from the opacities of its neighbourhood (`padded`, 18 blocks a side, indexed by
/// `padded_index`).
pub fn subchunk_face_cull_maps(padded: &Vec<Option<BlockOpacity>>) -> (r: Vec<[bool; 6]>)
    requires
        padded@.len() == 5832,
    ensures
        r@.len() == 4096,
        forall|i: int, f: int|
            0 <= i < 4096 && 0 <= f < 6 ==> #[trigger] r@[i][f] == spec_face_hidden(
                padded@,
                i % 16,
                i / 256,
                (i / 16) % 16,
                f,
            ),
{
    let mut maps: Vec<[bool; 6]> = Vec::new();
    let mut i: usize = 0;
    while i < 4096
        invariant
            i <= 4096,
            padded@.len() == 5832,
            maps@.len() == i,
            forall|j: int, f: int|
                0 <= j < i && 0 <= f < 6 ==> #[trigger] maps@[j][f] == spec_face_hidden(
                    padded@,
                    j % 16,
                    j / 256,
                    (j / 16) % 16,
                    f,
                ),
        decreases 4096 - i,
    {
        let x = i % 16;
        let y = i / 256;
        let z = (i / 16) % 16;
        let at = (y + 1) * 324 + (z + 1) * 18 + (x + 1);
        let map = [
            face_hidden_between(padded, at, at + 324),
            face_hidden_between(padded, at, at - 324),
            face_hidden_between(padded, at, at - 18),
            face_hidden_between(padded, at, at + 18),
            face_hidden_between(padded, at, at + 1),
            face_hidden_between(padded, at, at - 1),
        ];
        proof {
            assert(at == padded_index(x as int, y as int, z as int));
            assert forall|f: int| 0 <= f < 6 implies #[trigger] map[f] == spec_face_hidden(
                padded@,
                x as int,
                y as int,
                z as int,
                f,
            ) by {
                let (dx, dy, dz) = face_offset(f);
                assert(padded_index(x + dx, y + dy, z + dz) == at + dy * 324 + dz * 18 + dx);
            }
        }
        maps.push(map);
        i = i + 1;
    }
    maps
}


/// The texture of one face of a block model: its atlas UVs and how far they are turned.
#[derive(Clone, Copy, Debug)]
pub struct FaceTexture {
    pub atlas_uvs: [u16; 4],
    pub uv_rotation: RightAngleRotation,
}

/// One face of an overlayed block model (such as grass with its tinted side overlay): which
/// face it is (up, down, north, south, east, west), its texture, and whether it takes the
/// biome tint.
#[derive(Clone, Copy, Debug)]
pub struct OverlayFace {
    pub face_i: u8,
    pub texture: FaceTexture,
    pub biome_tinted: bool,
}

/// What the mesher knows of a block model.
#[derive(Clone, Debug)]
pub enum BlockModel {
    /// Nothing is drawn (air).
    NoModel,
    /// A full cube, one texture a face; tinted faces (with no tint) unless the block is opaque.
    Block([FaceTexture; 6]),
    /// A full cube whose faces all take the biome tint.
    TintedBlock([FaceTexture; 6]),
    /// A list of faces, each tinted or not.
    OverlayedBlock(Vec<OverlayFace>),
    /// A liquid; not meshed yet.
    Liquid,
    /// A custom-shaped model, drawn as an instance of the model with this id.
    Other(u32),
}

/// The face instance of face texture `t` of the block at `xyz` with light levels `light`.
pub open spec fn spec_block_face(xyz: [u8; 3], t: FaceTexture, light: [u8; 2]) -> BlockFaceInstance {
    BlockFaceInstance {
        uvs: t.atlas_uvs,
        packed_xyz: spec_packed_xyz(xyz[0], xyz[1], xyz[2]),
        uv_rotation_and_light_levels: [t.uv_rotation.spec_quarter_turns(), spec_packed_light(light[0], light[1])],
    }
}

/// The tinted face instance of face texture `t` of the block at `xyz`.
pub open spec fn spec_tinted_face(xyz: [u8; 3], t: FaceTexture, light: [u8; 2], tint: [u8; 4]) -> TintedBlockFaceInstance {
    TintedBlockFaceInstance {
        uvs: t.atlas_uvs,
        tint_color: tint,
        packed_xyz: spec_packed_xyz(xyz[0], xyz[1], xyz[2]),
        uv_rotation_and_light_levels: [t.uv_rotation.spec_quarter_turns(), spec_packed_light(light[0], light[1])],
    }
}

/// Opaque white: the tint of faces that take none.
pub open spec fn no_tint() -> [u8; 4] {
    [0xFFu8, 0xFFu8, 0xFFu8, 0xFFu8]
}

/// The untinted instances that the first `n` overlay faces give face `i`, in order.
pub open spec fn overlay_plain(faces: Seq<OverlayFace>, n: int, i: int, xyz: [u8; 3], light: [u8; 2]) -> Seq<BlockFaceInstance>
    decreases n,
{
    if n <= 0 {
        seq![]
    } else {
        let f = faces[n - 1];
        overlay_plain(faces, n - 1, i, xyz, light) + if f.face_i == i && !f.biome_tinted {
            seq![spec_block_face(xyz, f.texture, light)]
        } else {
            seq![]
        }
    }
}

/// The tinted instances that the first `n` overlay faces give face `i`, in order.
pub open spec fn overlay_tinted(
    faces: Seq<OverlayFace>,
    n: int,
    i: int,
    xyz: [u8; 3],
    light: [u8; 2],
    tint: [u8; 4],
) -> Seq<TintedBlockFaceInstance>
    decreases n,
{
    if n <= 0 {
        seq![]
    } else {
        let f = faces[n - 1];
        overlay_tinted(faces, n - 1, i, xyz, light, tint) + if f.face_i == i && f.biome_tinted {
            seq![spec_tinted_face(xyz, f.texture, light, tint)]
        } else {
            seq![]
        }
    }
}

/// The untinted instances one model gives face `i` of the block at `xyz`; a hidden face gets
/// none.
pub open spec fn model_plain(
    m: BlockModel,
    opacity: BlockOpacity,
    cull: [bool; 6],
    light: [[u8; 2]; 6],
    xyz: [u8; 3],
    i: int,
) -> Seq<BlockFaceInstance> {
    if cull[i] {
        seq![]
    } else {
        match m {
            BlockModel::Block(ts) => if opacity == BlockOpacity::Opaque {
                seq![spec_block_face(xyz, ts[i], light[i])]
            } else {
                seq![]
            },
            BlockModel::OverlayedBlock(fs) => overlay_plain(fs@, fs@.len() as int, i, xyz, light[i]),
            _ => seq![],
        }
    }
}

/// The tinted instances one model gives face `i` of the block at `xyz`, with the biome tint
/// `tint`; a hidden face gets none.
pub open spec fn model_tinted(
    m: BlockModel,
    opacity: BlockOpacity,
    cull: [bool; 6],
    light: [[u8; 2]; 6],
    tint: [u8; 4],
    xyz: [u8; 3],
    i: int,
) -> Seq<TintedBlockFaceInstance> {
    if cull[i] {
        seq![]
    } else {
        match m {
            BlockModel::Block(ts) => if opacity == BlockOpacity::Opaque {
                seq![]
            } else {
                seq![spec_tinted_face(xyz, ts[i], light[i], no_tint())]
            },
            BlockModel::TintedBlock(ts) => seq![spec_tinted_face(xyz, ts[i], light[i], tint)],
            BlockModel::OverlayedBlock(fs) => overlay_tinted(fs@, fs@.len() as int, i, xyz, light[i], tint),
            _ => seq![],
        }
    }
}

/// The untinted instances the first `n` parts give face `i`, part after part.
pub open spec fn parts_plain(
    parts: Seq<BlockModel>,
    n: int,
    opacity: BlockOpacity,
    cull: [bool; 6],
    light: [[u8; 2]; 6],
    xyz: [u8; 3],
    i: int,
) -> Seq<BlockFaceInstance>
    decreases n,
{
    if n <= 0 {
        seq![]
    } else {
        parts_plain(parts, n - 1, opacity, cull, light, xyz, i) + model_plain(parts[n - 1], opacity, cull, light, xyz, i)
    }
}

/// The tinted instances the first `n` parts give face `i`, part after part.
pub open spec fn parts_tinted(
    parts: Seq<BlockModel>,
    n: int,
    opacity: BlockOpacity,
    cull: [bool; 6],
    light: [[u8; 2]; 6],
    tint: [u8; 4],
    xyz: [u8; 3],
    i: int,
) -> Seq<TintedBlockFaceInstance>
    decreases n,
{
    if n <= 0 {
        seq![]
    } else {
        parts_tinted(parts, n - 1, opacity, cull, light, tint, xyz, i) + model_tinted(parts[n - 1], opacity, cull, light, tint, xyz, i)
    }
}

/// One custom-shaped model drawn at a block: the model, the block's position in its subchunk,
/// the tint, and the packed light levels of the block itself (first), then of its neighbours
/// up, down, north, south, east and west, then an unused zero.
#[derive(Clone, Copy, Debug, PartialEq, Eq)]
pub struct CustomBlockInstance {
    pub model_id: u32,
    pub xyz: [u8; 3],
    pub tint_color: [u8; 4],
    pub light_level_pairs: [u8; 8],
}

/// The instance of custom-shaped model `id` at the block at `xyz`.
pub open spec fn spec_custom_instance(
    id: u32,
    xyz: [u8; 3],
    tint: [u8; 4],
    centre_light: [u8; 2],
    light: [[u8; 2]; 6],
) -> CustomBlockInstance {
    CustomBlockInstance {
        model_id: id,
        xyz,
        tint_color: tint,
        light_level_pairs: [
            spec_packed_light(centre_light[0], centre_light[1]),
            spec_packed_light(light[0][0], light[0][1]),
            spec_packed_light(light[1][0], light[1][1]),
            spec_packed_light(light[2][0], light[2][1]),
            spec_packed_light(light[3][0], light[3][1]),
            spec_packed_light(light[4][0], light[4][1]),
            spec_packed_light(light[5][0], light[5][1]),
            0u8,
        ],
    }
}

/// The instances of the custom-shaped models among the first `n` parts, in order.
pub open spec fn parts_custom(
    parts: Seq<BlockModel>,
    n: int,
    xyz: [u8; 3],
    tint: [u8; 4],
    centre_light: [u8; 2],
    light: [[u8; 2]; 6],
) -> Seq<CustomBlockInstance>
    decreases n,
{
    if n <= 0 {
        seq![]
    } else {
        parts_custom(parts, n - 1, xyz, tint, centre_light, light) + match parts[n - 1] {
            BlockModel::Other(id) => seq![spec_custom_instance(id, xyz, tint, centre_light, light)],
            _ => seq![],
        }
    }
}

fn custom_instance(
    id: u32,
    xyz: [u8; 3],
    tint: [u8; 4],
    centre_light: [u8; 2],
    light: [[u8; 2]; 6],
) -> (c: CustomBlockInstance)
    requires
        centre_light[0] < 16,
        centre_light[1] < 16,
        forall|f: int| 0 <= f < 6 ==> #[trigger] light[f][0] < 16 && light[f][1] < 16,
    ensures
        c == spec_custom_instance(id, xyz, tint, centre_light, light),
{
    assert(light[0][0] < 16 && light[0][1] < 16);
    assert(light[1][0] < 16 && light[1][1] < 16);
    assert(light[2][0] < 16 && light[2][1] < 16);
    assert(light[3][0] < 16 && light[3][1] < 16);
    assert(light[4][0] < 16 && light[4][1] < 16);
    assert(light[5][0] < 16 && light[5][1] < 16);
    let pairs = [
        pack_light(centre_light),
        pack_light(light[0]),
        pack_light(light[1]),
        pack_light(light[2]),
        pack_light(light[3]),
        pack_light(light[4]),
        pack_light(light[5]),
        0u8,
    ];
    let c = CustomBlockInstance { model_id: id, xyz, tint_color: tint, light_level_pairs: pairs };
    assert(c.light_level_pairs =~= spec_custom_instance(id, xyz, tint, centre_light, light).light_level_pairs);
    c
}

/// What meshing one block adds: the untinted and the tinted face instances of each face (up,
/// down, north, south, east, west), and the instances of the custom-shaped models to draw at the
/// block.
pub struct ModelMesh {
    pub block_faces: Vec<Vec<BlockFaceInstance>>,
    pub tinted_block_faces: Vec<Vec<TintedBlockFaceInstance>>,
    pub custom_blocks: Vec<CustomBlockInstance>,
}

/// Whether the overlay faces of every part name one of the six faces.
pub open spec fn overlay_faces_valid(parts: Seq<BlockModel>) -> bool {
    forall|k: int, j: int|
        #![trigger parts[k], parts[k]->OverlayedBlock_0@[j]]
        0 <= k < parts.len() && parts[k] is OverlayedBlock && 0 <= j < parts[k]->OverlayedBlock_0@.len()
            ==> parts[k]->OverlayedBlock_0@[j].face_i < 6
}

fn overlay_face_instances(
    faces: &Vec<OverlayFace>,
    i: usize,
    xyz: [u8; 3],
    light: [u8; 2],
    tint: [u8; 4],
    plain: &mut Vec<BlockFaceInstance>,
    tinted: &mut Vec<TintedBlockFaceInstance>,
)
    requires
        xyz[0] < 16,
        xyz[1] < 16,
        xyz[2] < 16,
        light[0] < 16,
        light[1] < 16,
    ensures
        final(plain)@ == old(plain)@ + overlay_plain(faces@, faces@.len() as int, i as int, xyz, light),
        final(tinted)@ == old(tinted)@ + overlay_tinted(faces@, faces@.len() as int, i as int, xyz, light, tint),
{
    let ghost p0 = plain@;
    let ghost t0 = tinted@;
    let mut k: usize = 0;
    while k < faces.len()
        invariant
            k <= faces@.len(),
            xyz[0] < 16,
            xyz[1] < 16,
            xyz[2] < 16,
            light[0] < 16,
            light[1] < 16,
            plain@ == p0 + overlay_plain(faces@, k as int, i as int, xyz, light),
            tinted@ == t0 + overlay_tinted(faces@, k as int, i as int, xyz, light, tint),
        decreases faces@.len() - k,
    {
        let f = faces[k];
        if f.face_i as usize == i {
            if f.biome_tinted {
                let inst = TintedBlockFaceInstance::new(xyz, f.texture.atlas_uvs, f.texture.uv_rotation, light, tint);
                assert(inst.uv_rotation_and_light_levels =~= spec_tinted_face(xyz, f.texture, light, tint).uv_rotation_and_light_levels);
                tinted.push(inst);
            } else {
                let inst = BlockFaceInstance::new(xyz, f.texture.atlas_uvs, f.texture.uv_rotation, light);
                assert(inst.uv_rotation_and_light_levels =~= spec_block_face(xyz, f.texture, light).uv_rotation_and_light_levels);
                plain.push(inst);
            }
        }
        proof {
            assert(plain@ =~= p0 + overlay_plain(faces@, k + 1, i as int, xyz, light));
            assert(tinted@ =~= t0 + overlay_tinted(faces@, k + 1, i as int, xyz, light, tint));
        }
        k = k + 1;
    }
}

fn model_face_instances(
    m: &BlockModel,
    opacity: BlockOpacity,
    cull: [bool; 6],
    light: [[u8; 2]; 6],
    tint: [u8; 4],
    xyz: [u8; 3],
    i: usize,
    plain: &mut Vec<BlockFaceInstance>,
    tinted: &mut Vec<TintedBlockFaceInstance>,
)
    requires
        i < 6,
        xyz[0] < 16,
        xyz[1] < 16,
        xyz[2] < 16,
        forall|f: int| 0 <= f < 6 ==> #[trigger] light[f][0] < 16 && light[f][1] < 16,
    ensures
        final(plain)@ == old(plain)@ + model_plain(*m, opacity, cull, light, xyz, i as int),
        final(tinted)@ == old(tinted)@ + model_tinted(*m, opacity, cull, light, tint, xyz, i as int),
{
    assert(light[i as int][0] < 16 && light[i as int][1] < 16);
    if cull[i] {
        assert(plain@ =~= old(plain)@ + model_plain(*m, opacity, cull, light, xyz, i as int));
        assert(tinted@ =~= old(tinted)@ + model_tinted(*m, opacity, cull, light, tint, xyz, i as int));
        return;
    }
    match m {
        BlockModel::Block(ts) => {
            let t = ts[i];
            match opacity {
                BlockOpacity::Opaque => {
                    let inst = BlockFaceInstance::new(xyz, t.atlas_uvs, t.uv_rotation, light[i]);
                    assert(inst.uv_rotation_and_light_levels =~= spec_block_face(xyz, t, light[i as int]).uv_rotation_and_light_levels);
                    plain.push(inst);
                    assert(tinted@ =~= old(tinted)@ + model_tinted(*m, opacity, cull, light, tint, xyz, i as int));
                },
                _ => {
                    let inst = TintedBlockFaceInstance::new(xyz, t.atlas_uvs, t.uv_rotation, light[i], [0xFF, 0xFF, 0xFF, 0xFF]);
                    assert(inst.uv_rotation_and_light_levels =~= spec_tinted_face(xyz, t, light[i as int], no_tint()).uv_rotation_and_light_levels);
                    assert(inst.tint_color =~= no_tint());
                    tinted.push(inst);
                    assert(plain@ =~= old(plain)@ + model_plain(*m, opacity, cull, light, xyz, i as int));
                },
            }
        },
        BlockModel::TintedBlock(ts) => {
            let t = ts[i];
            let inst = TintedBlockFaceInstance::new(xyz, t.atlas_uvs, t.uv_rotation, light[i], tint);
            assert(inst.uv_rotation_and_light_levels =~= spec_tinted_face(xyz, t, light[i as int], tint).uv_rotation_and_light_levels);
            tinted.push(inst);
            assert(plain@ =~= old(plain)@ + model_plain(*m, opacity, cull, light, xyz, i as int));
        },
        BlockModel::OverlayedBlock(fs) => {
            overlay_face_instances(fs, i, xyz, light[i], tint, plain, tinted);
        },
        _ => {
            assert(plain@ =~= old(plain)@ + model_plain(*m, opacity, cull, light, xyz, i as int));
            assert(tinted@ =~= old(tinted)@ + model_tinted(*m, opacity, cull, light, tint, xyz, i as int));
        },
    }
}

/// Meshes one block whose model is made of `parts` (a single model is a one-part list; a
/// composite model's parts, flattened in order): for each face, the instances each part adds,
/// part after part, and the custom-shaped models to draw. `opacity` is the block's opacity,
/// `cull` which of its faces are hidden, `light` the light levels (sky, block) each face sees,
/// `tint` the biome tint, `xyz` the block's position in its subchunk and `centre_light` the
/// light levels at the block itself.
pub fn mesh_block_models(
    parts: &Vec<BlockModel>,
    opacity: BlockOpacity,
    cull: [bool; 6],
    light: [[u8; 2]; 6],
    tint: [u8; 4],
    xyz: [u8; 3],
    centre_light: [u8; 2],
) -> (r: ModelMesh)
    requires
        overlay_faces_valid(parts@),
        centre_light[0] < 16,
        centre_light[1] < 16,
        xyz[0] < 16,
        xyz[1] < 16,
        xyz[2] < 16,
        forall|f: int| 0 <= f < 6 ==> #[trigger] light[f][0] < 16 && light[f][1] < 16,
    ensures
        r.block_faces@.len() == 6,
        r.tinted_block_faces@.len() == 6,
        forall|i: int| 0 <= i < 6 ==> #[trigger] r.block_faces@[i]@ == parts_plain(
            parts@,
            parts@.len() as int,
            opacity,
            cull,
            light,
            xyz,
            i,
        ),
        forall|i: int| 0 <= i < 6 ==> #[trigger] r.tinted_block_faces@[i]@ == parts_tinted(
            parts@,
            parts@.len() as int,
            opacity,
            cull,
            light,
            tint,
            xyz,
            i,
        ),
        r.custom_blocks@ == parts_custom(parts@, parts@.len() as int, xyz, tint, centre_light, light),
{
    let mut block_faces: Vec<Vec<BlockFaceInstance>> = Vec::new();
    let mut tinted_block_faces: Vec<Vec<TintedBlockFaceInstance>> = Vec::new();
    let mut i: usize = 0;
    while i < 6
        invariant
            i <= 6,
            xyz[0] < 16,
            xyz[1] < 16,
            xyz[2] < 16,
            forall|f: int| 0 <= f < 6 ==> #[trigger] light[f][0] < 16 && light[f][1] < 16,
            block_faces@.len() == i,
            tinted_block_faces@.len() == i,
            forall|j: int| 0 <= j < i ==> #[trigger] block_faces@[j]@ == parts_plain(
                parts@,
                parts@.len() as int,
                opacity,
                cull,
                light,
                xyz,
                j,
            ),
            forall|j: int| 0 <= j < i ==> #[trigger] tinted_block_faces@[j]@ == parts_tinted(
                parts@,
                parts@.len() as int,
                opacity,
                cull,
                light,
                tint,
                xyz,
                j,
            ),
        decreases 6 - i,
    {
        let mut plain: Vec<BlockFaceInstance> = Vec::new();
        let mut tinted: Vec<TintedBlockFaceInstance> = Vec::new();
        let mut k: usize = 0;
        while k < parts.len()
            invariant
                i < 6,
                k <= parts@.len(),
                xyz[0] < 16,
                xyz[1] < 16,
                xyz[2] < 16,
                forall|f: int| 0 <= f < 6 ==> #[trigger] light[f][0] < 16 && light[f][1] < 16,
                plain@ == parts_plain(parts@, k as int, opacity, cull, light, xyz, i as int),
                tinted@ == parts_tinted(parts@, k as int, opacity, cull, light, tint, xyz, i as int),
            decreases parts@.len() - k,
        {
            model_face_instances(&parts[k], opacity, cull, light, tint, xyz, i, &mut plain, &mut tinted);
            k = k + 1;
        }
        block_faces.push(plain);
        tinted_block_faces.push(tinted);
        i = i + 1;
    }
    let mut custom_blocks: Vec<CustomBlockInstance> = Vec::new();
    let mut k: usize = 0;
    while k < parts.len()
        invariant
            k <= parts@.len(),
            centre_light[0] < 16,
            centre_light[1] < 16,
            forall|f: int| 0 <= f < 6 ==> #[trigger] light[f][0] < 16 && light[f][1] < 16,
            custom_blocks@ == parts_custom(parts@, k as int, xyz, tint, centre_light, light),
        decreases parts@.len() - k,
    {
        match &parts[k] {
            BlockModel::Other(id) => {
                custom_blocks.push(custom_instance(*id, xyz, tint, centre_light, light));
            },
            _ => {},
        }
        assert(custom_blocks@ =~= parts_custom(parts@, k + 1, xyz, tint, centre_light, light));
        k = k + 1;
    }
    ModelMesh { block_faces, tinted_block_faces, custom_blocks }
}


/// Position in its subchunk of the block with index `b` (y major, then z, then x).
pub open spec fn block_xyz(b: int) -> [u8; 3] {
    [(b % 16) as u8, (b / 256) as u8, ((b / 16) % 16) as u8]
}

/// Which faces of block `b` its neighbourhood hides.
pub open spec fn block_cull_map(padded: Seq<Option<BlockOpacity>>, b: int) -> [bool; 6] {
    [
        spec_face_hidden(padded, b % 16, b / 256, (b / 16) % 16, 0),
        spec_face_hidden(padded, b % 16, b / 256, (b / 16) % 16, 1),
        spec_face_hidden(padded, b % 16, b / 256, (b / 16) % 16, 2),
        spec_face_hidden(padded, b % 16, b / 256, (b / 16) % 16, 3),
        spec_face_hidden(padded, b % 16, b / 256, (b / 16) % 16, 4),
        spec_face_hidden(padded, b % 16, b / 256, (b / 16) % 16, 5),
    ]
}

/// The opacity of block `b`, read from the middle of its neighbourhood.
pub open spec fn block_opacity(padded: Seq<Option<BlockOpacity>>, b: int) -> BlockOpacity {
    match padded[padded_index(b % 16, b / 256, (b / 16) % 16)] {
        Some(o) => o,
        None => BlockOpacity::Transparent,
    }
}

/// The untinted instances of face `f` the first `n` blocks of a subchunk give, block after block.
pub open spec fn subchunk_plain(
    padded: Seq<Option<BlockOpacity>>,
    models: Seq<Vec<BlockModel>>,
    lights: Seq<[[u8; 2]; 6]>,
    n: int,
    f: int,
) -> Seq<BlockFaceInstance>
    decreases n,
{
    if n <= 0 {
        seq![]
    } else {
        subchunk_plain(padded, models, lights, n - 1, f) + parts_plain(
            models[n - 1]@,
            models[n - 1]@.len() as int,
            block_opacity(padded, n - 1),
            block_cull_map(padded, n - 1),
            lights[n - 1],
            block_xyz(n - 1),
            f,
        )
    }
}

/// The tinted instances of face `f` the first `n` blocks of a subchunk give, block after block.
pub open spec fn subchunk_tinted(
    padded: Seq<Option<BlockOpacity>>,
    models: Seq<Vec<BlockModel>>,
    lights: Seq<[[u8; 2]; 6]>,
    tints: Seq<[u8; 4]>,
    n: int,
    f: int,
) -> Seq<TintedBlockFaceInstance>
    decreases n,
{
    if n <= 0 {
        seq![]
    } else {
        subchunk_tinted(padded, models, lights, tints, n - 1, f) + parts_tinted(
            models[n - 1]@,
            models[n - 1]@.len() as int,
            block_opacity(padded, n - 1),
            block_cull_map(padded, n - 1),
            lights[n - 1],
            tints[n - 1],
            block_xyz(n - 1),
            f,
        )
    }
}

/// The custom-shaped model instances of the first `n` blocks of a subchunk, block after block.
pub open spec fn subchunk_custom(
    models: Seq<Vec<BlockModel>>,
    lights: Seq<[[u8; 2]; 6]>,
    tints: Seq<[u8; 4]>,
    centre_lights: Seq<[u8; 2]>,
    n: int,
) -> Seq<CustomBlockInstance>
    decreases n,
{
    if n <= 0 {
        seq![]
    } else {
        subchunk_custom(models, lights, tints, centre_lights, n - 1) + parts_custom(
            models[n - 1]@,
            models[n - 1]@.len() as int,
            block_xyz(n - 1),
            tints[n - 1],
            centre_lights[n - 1],
            lights[n - 1],
        )
    }
}

fn append_to_group<T: Copy>(groups: &mut Vec<Vec<T>>, f: usize, items: &Vec<T>)
    requires
        f < old(groups)@.len(),
    ensures
        final(groups)@.len() == old(groups)@.len(),
        forall|g: int| 0 <= g < old(groups)@.len() && g != f ==> #[trigger] final(groups)@[g]@ == old(groups)@[g]@,
        final(groups)@[f as int]@ == old(groups)@[f as int]@ + items@,
{
    let ghost g0 = groups@;
    let mut v = groups.remove(f);
    let ghost v0 = v@;
    let mut k: usize = 0;
    while k < items.len()
        invariant
            k <= items@.len(),
            v@ == v0 + items@.subrange(0, k as int),
        decreases items@.len() - k,
    {
        v.push(items[k]);
        assert(v@ =~= v0 + items@.subrange(0, k + 1));
        k = k + 1;
    }
    assert(items@.subrange(0, items@.len() as int) =~= items@);
    groups.insert(f, v);
    assert forall|g: int| 0 <= g < g0.len() && g != f implies #[trigger] groups@[g]@ == g0[g]@ by {
        if g < f {
            assert(groups@[g] == g0[g]);
        } else {
            assert(groups@[g] == g0[g]);
        }
    }
}

/// Meshes every block of a subchunk: the hidden faces of each block come from its
/// neighbourhood of opacities `padded` (18 blocks a side, see `padded_index`), and each block
/// `b` (y major, then z, then x) is meshed with its model parts `models[b]`, face light levels
/// `lights[b]`, tint `tints[b]` and own light levels `centre_lights[b]`. The face instances of
/// each face direction are gathered block after block, as are the custom-shaped models.
pub fn mesh_subchunk_blocks(
    padded: &Vec<Option<BlockOpacity>>,
    models: &Vec<Vec<BlockModel>>,
    lights: &Vec<[[u8; 2]; 6]>,
    tints: &Vec<[u8; 4]>,
    centre_lights: &Vec<[u8; 2]>,
) -> (r: ModelMesh)
    requires
        padded@.len() == 5832,
        models@.len() == 4096,
        lights@.len() == 4096,
        tints@.len() == 4096,
        centre_lights@.len() == 4096,
        forall|b: int|
            0 <= b < 4096 ==> #[trigger] padded@[padded_index(b % 16, b / 256, (b / 16) % 16)]
                is Some,
        forall|b: int| 0 <= b < 4096 ==> overlay_faces_valid(#[trigger] models@[b]@),
        forall|b: int, f: int|
            0 <= b < 4096 && 0 <= f < 6 ==> #[trigger] lights@[b][f][0] < 16 && lights@[b][f][1] < 16,
        forall|b: int|
            0 <= b < 4096 ==> #[trigger] centre_lights@[b][0] < 16 && centre_lights@[b][1] < 16,
    ensures
        r.block_faces@.len() == 6,
        r.tinted_block_faces@.len() == 6,
        forall|f: int|
            0 <= f < 6 ==> #[trigger] r.block_faces@[f]@ == subchunk_plain(
                padded@,
                models@,
                lights@,
                4096,
                f,
            ),
        forall|f: int|
            0 <= f < 6 ==> #[trigger] r.tinted_block_faces@[f]@ == subchunk_tinted(
                padded@,
                models@,
                lights@,
                tints@,
                4096,
                f,
            ),
        r.custom_blocks@ == subchunk_custom(models@, lights@, tints@, centre_lights@, 4096),
{
    let maps = subchunk_face_cull_maps(padded);
    let mut block_faces: Vec<Vec<BlockFaceInstance>> = Vec::new();
    let mut tinted_block_faces: Vec<Vec<TintedBlockFaceInstance>> = Vec::new();
    let mut f: usize = 0;
    while f < 6
        invariant
            f <= 6,
            block_faces@.len() == f,
            tinted_block_faces@.len() == f,
            forall|g: int| 0 <= g < f ==> #[trigger] block_faces@[g]@ == Seq::<BlockFaceInstance>::empty(),
            forall|g: int| 0 <= g < f ==> #[trigger] tinted_block_faces@[g]@ == Seq::<TintedBlockFaceInstance>::empty(),
        decreases 6 - f,
    {
        block_faces.push(Vec::new());
        tinted_block_faces.push(Vec::new());
        f = f + 1;
    }
    let mut custom_blocks: Vec<CustomBlockInstance> = Vec::new();
    let mut b: usize = 0;
    while b < 4096
        invariant
            b <= 4096,
            padded@.len() == 5832,
            models@.len() == 4096,
            lights@.len() == 4096,
            tints@.len() == 4096,
            centre_lights@.len() == 4096,
            maps@.len() == 4096,
            forall|i: int, g: int|
                0 <= i < 4096 && 0 <= g < 6 ==> #[trigger] maps@[i][g] == spec_face_hidden(
                    padded@,
                    i % 16,
                    i / 256,
                    (i / 16) % 16,
                    g,
                ),
            forall|i: int|
                0 <= i < 4096 ==> #[trigger] padded@[padded_index(i % 16, i / 256, (i / 16) % 16)]
                    is Some,
            forall|i: int| 0 <= i < 4096 ==> overlay_faces_valid(#[trigger] models@[i]@),
            forall|i: int, g: int|
                0 <= i < 4096 && 0 <= g < 6 ==> #[trigger] lights@[i][g][0] < 16 && lights@[i][g][1] < 16,
            forall|i: int|
                0 <= i < 4096 ==> #[trigger] centre_lights@[i][0] < 16 && centre_lights@[i][1] < 16,
            block_faces@.len() == 6,
            tinted_block_faces@.len() == 6,
            forall|g: int|
                0 <= g < 6 ==> #[trigger] block_faces@[g]@ == subchunk_plain(padded@, models@, lights@, b as int, g),
            forall|g: int|
                0 <= g < 6 ==> #[trigger] tinted_block_faces@[g]@ == subchunk_tinted(
                    padded@,
                    models@,
                    lights@,
                    tints@,
                    b as int,
                    g,
                ),
            custom_blocks@ == subchunk_custom(models@, lights@, tints@, centre_lights@, b as int),
        decreases 4096 - b,
    {
        let x = (b % 16) as u8;
        let y = (b / 256) as u8;
        let z = ((b / 16) % 16) as u8;
        let at = (b / 256 + 1) * 324 + ((b / 16) % 16 + 1) * 18 + (b % 16 + 1);
        proof {
            assert(at == padded_index(b as int % 16, b as int / 256, (b as int / 16) % 16));
            assert(padded@[at as int] is Some);
        }
        let opacity = padded[at].unwrap();
        let cull = maps[b];
        let xyz = [x, y, z];
        let light = lights[b];
        proof {
            assert(cull =~= block_cull_map(padded@, b as int));
            assert(xyz =~= block_xyz(b as int));
            assert(opacity == block_opacity(padded@, b as int));
            assert forall|g: int| 0 <= g < 6 implies #[trigger] light[g][0] < 16 && light[g][1] < 16 by {
                assert(lights@[b as int][g][0] < 16 && lights@[b as int][g][1] < 16);
            }
            assert(centre_lights@[b as int][0] < 16 && centre_lights@[b as int][1] < 16);
            assert(overlay_faces_valid(models@[b as int]@));
        }
        let mesh = mesh_block_models(&models[b], opacity, cull, light, tints[b], xyz, centre_lights[b]);
        let mut g: usize = 0;
        while g < 6
            invariant
                g <= 6,
                block_faces@.len() == 6,
                tinted_block_faces@.len() == 6,
                mesh.block_faces@.len() == 6,
                mesh.tinted_block_faces@.len() == 6,
                forall|h: int|
                    0 <= h < g ==> #[trigger] block_faces@[h]@ == subchunk_plain(padded@, models@, lights@, b as int, h)
                        + mesh.block_faces@[h]@,
                forall|h: int|
                    g <= h < 6 ==> #[trigger] block_faces@[h]@ == subchunk_plain(padded@, models@, lights@, b as int, h),
                forall|h: int|
                    0 <= h < g ==> #[trigger] tinted_block_faces@[h]@ == subchunk_tinted(
                        padded@,
                        models@,
                        lights@,
                        tints@,
                        b as int,
                        h,
                    ) + mesh.tinted_block_faces@[h]@,
                forall|h: int|
                    g <= h < 6 ==> #[trigger] tinted_block_faces@[h]@ == subchunk_tinted(
                        padded@,
                        models@,
                        lights@,
                        tints@,
                        b as int,
                        h,
                    ),
            decreases 6 - g,
        {
            append_to_group(&mut block_faces, g, &mesh.block_faces[g]);
            append_to_group(&mut tinted_block_faces, g, &mesh.tinted_block_faces[g]);
            g = g + 1;
        }
        let mut k: usize = 0;
        let ghost c0 = custom_blocks@;
        while k < mesh.custom_blocks.len()
            invariant
                k <= mesh.custom_blocks@.len(),
                custom_blocks@ == c0 + mesh.custom_blocks@.subrange(0, k as int),
            decreases mesh.custom_blocks@.len() - k,
        {
            custom_blocks.push(mesh.custom_blocks[k]);
            assert(custom_blocks@ =~= c0 + mesh.custom_blocks@.subrange(0, k + 1));
            k = k + 1;
        }
        proof {
            assert(mesh.custom_blocks@.subrange(0, mesh.custom_blocks@.len() as int) =~= mesh.custom_blocks@);
            assert(custom_blocks@ =~= subchunk_custom(models@, lights@, tints@, centre_lights@, b + 1));
            assert forall|h: int| 0 <= h < 6 implies #[trigger] block_faces@[h]@ == subchunk_plain(
                padded@,
                models@,
                lights@,
                b + 1,
                h,
            ) by {}
            assert forall|h: int| 0 <= h < 6 implies #[trigger] tinted_block_faces@[h]@ == subchunk_tinted(
                padded@,
                models@,
                lights@,
                tints@,
                b + 1,
                h,
            ) by {}
        }
        b = b + 1;
    }
    ModelMesh { block_faces, tinted_block_faces, custom_blocks }
}


/// The face-culling rules: an opaque neighbour hides every face; an opaque block's face is
/// hidden by nothing but an opaque neighbour (a stone face behind glass is drawn); a see-through
/// neighbour hides a face only of a block of the same kind (glass by glass, pane by pane); and
/// a transparent neighbour, or a face of a transparent block behind anything but an opaque
/// neighbour, is never hidden.
pub proof fn lemma_face_culling_rules()
    ensures
        forall|b: BlockOpacity| #[trigger] spec_face_culled(b, BlockOpacity::Opaque),
        forall|n: BlockOpacity| #[trigger] spec_face_culled(BlockOpacity::Opaque, n) == (n
            == BlockOpacity::Opaque),
        forall|b: BlockOpacity, n: BlockOpacity|
            n != BlockOpacity::Opaque ==> (#[trigger] spec_face_culled(b, n) == (b == n && b
                != BlockOpacity::Transparent)),
        forall|b: BlockOpacity| !#[trigger] spec_face_culled(b, BlockOpacity::Transparent),
{
}

} // verus!
