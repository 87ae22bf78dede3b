//! Small pieces of the renderer: which backend draws, debug-drawing flags, entity textures, the
//! dummy lightmap, how meshed face instances are laid out in one buffer, and which draws a
//! visible subchunk gets.
use vstd::prelude::*;

verus! {

/// The graphics API the client draws with.
#[derive(Clone, Copy, Debug, PartialEq, Eq, Structural)]
pub enum SelectedGraphicsBackend {
    OpenGL,
    Vulkan,
    Wgpu,
}

impl SelectedGraphicsBackend {
    /// The name shown for the backend.
    pub fn name(&self) -> (s: &'static str)
        ensures
            s@ == match *self {
                SelectedGraphicsBackend::OpenGL => "OpenGL"@,
                SelectedGraphicsBackend::Vulkan => "Vulkan"@,
                SelectedGraphicsBackend::Wgpu => "wgpu"@,
            },
    {
        match self {
            SelectedGraphicsBackend::OpenGL => "OpenGL",
            SelectedGraphicsBackend::Vulkan => "Vulkan",
            SelectedGraphicsBackend::Wgpu => "wgpu",
        }
    }
}

impl Default for SelectedGraphicsBackend {
    /// Vulkan is preferred, then OpenGL, then wgpu; with all three built, Vulkan.
    fn default() -> (b: SelectedGraphicsBackend)
        ensures
            b == SelectedGraphicsBackend::Vulkan,
    {
        SelectedGraphicsBackend::Vulkan
    }
}

/// How debug shapes are drawn.
#[derive(Clone, Copy, Debug, PartialEq, Eq, Structural)]
pub enum DebugVisualisationDrawMethod {
    Egui,
    Gpu,
}

impl Default for DebugVisualisationDrawMethod {
    fn default() -> (m: DebugVisualisationDrawMethod)
        ensures
            m == DebugVisualisationDrawMethod::Egui,
    {
        DebugVisualisationDrawMethod::Egui
    }
}

impl DebugVisualisationDrawMethod {
    /// The label of the method in the debug window.
    pub fn label_text(&self) -> (s: &'static str)
        ensures
            s@ == match *self {
                DebugVisualisationDrawMethod::Egui => "Use egui for debug visualisation"@,
                DebugVisualisationDrawMethod::Gpu => "Use the GPU directly for debug visualisation"@,
            },
    {
        match self {
            DebugVisualisationDrawMethod::Egui => "Use egui for debug visualisation",
            DebugVisualisationDrawMethod::Gpu => "Use the GPU directly for debug visualisation",
        }
    }
}

/// Flags of a debug shape: bit 0 says to draw it over everything, ignoring depth.
#[derive(Clone, Copy, Debug, PartialEq, Eq, Structural)]
pub struct PackedFlags(pub u32);

impl PackedFlags {
    /// No flag set.
    pub fn none() -> (f: Self)
        ensures
            f.0 == 0,
    {
        PackedFlags(0)
    }

    /// Only the flag to draw over everything, ignoring depth.
    pub fn ignoring_depth() -> (f: Self)
        ensures
            f.0 == 1,
    {
        PackedFlags(1)
    }

    pub fn new(ignore_depth: bool) -> (f: Self)
        ensures
            f.0 == if ignore_depth {
                1u32
            } else {
                0u32
            },
    {
        PackedFlags(
            if ignore_depth {
                1
            } else {
                0
            },
        )
    }

    pub fn ignore_depth(&self) -> (r: bool)
        ensures
            r == (self.0 % 2 == 1),
    {
        self.0 % 2 == 1
    }
}

/// Something in the world that is drawn as an entity.
pub trait RenderEntity {}

/// The wood a boat is made of.
#[derive(Clone, Copy, Debug, PartialEq, Eq, Structural)]
pub enum BoatVariant {
    Acacia,
    BambooRaft,
    Birch,
    Cherry,
    DarkOak,
    Jungle,
    Mangrove,
    Oak,
    PaleOak,
    Spruce,
}

impl BoatVariant {
    /// The resource path of the boat's texture.
    pub fn texture_identifier(self) -> (s: &'static str)
        ensures
            s@ == match self {
                BoatVariant::Acacia => "entity/boat/acacia"@,
                BoatVariant::BambooRaft => "entity/boat/bamboo"@,
                BoatVariant::Birch => "entity/boat/birch"@,
                BoatVariant::Cherry => "entity/boat/cherry"@,
                BoatVariant::DarkOak => "entity/boat/dark_oak"@,
                BoatVariant::Jungle => "entity/boat/jungle"@,
                BoatVariant::Mangrove => "entity/boat/mangrove"@,
                BoatVariant::Oak => "entity/boat/oak"@,
                BoatVariant::PaleOak => "entity/boat/pale_oak"@,
                BoatVariant::Spruce => "entity/boat/spruce"@,
            },
    {
        match self {
            BoatVariant::Acacia => "entity/boat/acacia",
            BoatVariant::BambooRaft => "entity/boat/bamboo",
            BoatVariant::Birch => "entity/boat/birch",
            BoatVariant::Cherry => "entity/boat/cherry",
            BoatVariant::DarkOak => "entity/boat/dark_oak",
            BoatVariant::Jungle => "entity/boat/jungle",
            BoatVariant::Mangrove => "entity/boat/mangrove",
            BoatVariant::Oak => "entity/boat/oak",
            BoatVariant::PaleOak => "entity/boat/pale_oak",
            BoatVariant::Spruce => "entity/boat/spruce",
        }
    }
}

/// The side of the lightmap: one row per sky light level, one column per block light level.
pub const LIGHTMAP_SIZE: usize = 16;

/// A lightmap of black, opaque texels, as RGBA8 rows.
pub fn generate_dummy_lightmap_texture() -> (t: Vec<Vec<[u8; 4]>>)
    ensures
        t@.len() == LIGHTMAP_SIZE,
        forall|i: int| 0 <= i < LIGHTMAP_SIZE ==> #[trigger] t@[i]@.len() == LIGHTMAP_SIZE,
        forall|i: int, j: int|
            0 <= i < LIGHTMAP_SIZE && 0 <= j < LIGHTMAP_SIZE ==> #[trigger] t@[i]@[j] == [
                0u8,
                0u8,
                0u8,
                0xFFu8,
            ],
{
    let mut rows: Vec<Vec<[u8; 4]>> = Vec::new();
    let mut i: usize = 0;
    while i < LIGHTMAP_SIZE
        invariant
            i <= LIGHTMAP_SIZE,
            rows@.len() == i,
            forall|a: int| 0 <= a < i ==> #[trigger] rows@[a]@.len() == LIGHTMAP_SIZE,
            forall|a: int, b: int|
                0 <= a < i && 0 <= b < LIGHTMAP_SIZE ==> #[trigger] rows@[a]@[b] == [
                    0u8,
                    0u8,
                    0u8,
                    0xFFu8,
                ],
        decreases LIGHTMAP_SIZE - i,
    {
        let mut row: Vec<[u8; 4]> = Vec::new();
        let mut j: usize = 0;
        while j < LIGHTMAP_SIZE
            invariant
                j <= LIGHTMAP_SIZE,
                row@.len() == j,
                forall|b: int| 0 <= b < j ==> #[trigger] row@[b] == [0u8, 0u8, 0u8, 0xFFu8],
            decreases LIGHTMAP_SIZE - j,
        {
            row.push([0x00, 0x00, 0x00, 0xFF]);
            j = j + 1;
        }
        rows.push(row);
        i = i + 1;
    }
    rows
}

/// The total length of the first `n` groups.
pub open spec fn groups_len<T>(groups: Seq<Vec<T>>, n: int) -> int
    decreases n,
{
    if n <= 0 {
        0
    } else {
        groups_len(groups, n - 1) + groups[n - 1]@.len()
    }
}

proof fn lemma_groups_len_monotone<T>(groups: Seq<Vec<T>>, a: int, b: int)
    requires
        0 <= a <= b,
    ensures
        groups_len(groups, a) <= groups_len(groups, b),
    decreases b - a,
{
    if a < b {
        lemma_groups_len_monotone(groups, a, b - 1);
    }
}

/// Lays the face-instance groups one after another in one list, and gives each group's start
/// and length in it; an empty group gets `(0, 0)`.
pub fn concatenate_instance_groups<T: Copy>(groups: Vec<Vec<T>>) -> (r: (Vec<T>, Vec<(u32, u32)>))
    requires
        groups_len(groups@, groups@.len() as int) <= u32::MAX,
    ensures
        r.0@.len() == groups_len(groups@, groups@.len() as int),
        r.1@.len() == groups@.len(),
        forall|g: int|
            0 <= g < groups@.len() ==> #[trigger] r.1@[g] == if groups@[g]@.len() == 0 {
                (0u32, 0u32)
            } else {
                (groups_len(groups@, g) as u32, groups@[g]@.len() as u32)
            },
        forall|g: int, k: int|
            0 <= g < groups@.len() && 0 <= k < groups@[g]@.len() ==> r.0@[groups_len(groups@, g)
                + k] == #[trigger] groups@[g]@[k],
{
    let mut all: Vec<T> = Vec::new();
    let mut ranges: Vec<(u32, u32)> = Vec::new();
    let mut g: usize = 0;
    while g < groups.len()
        invariant
            g <= groups@.len(),
            groups_len(groups@, groups@.len() as int) <= u32::MAX,
            all@.len() == groups_len(groups@, g as int),
            ranges@.len() == g,
            forall|h: int|
                0 <= h < g ==> #[trigger] ranges@[h] == if groups@[h]@.len() == 0 {
                    (0u32, 0u32)
                } else {
                    (groups_len(groups@, h) as u32, groups@[h]@.len() as u32)
                },
            forall|h: int, k: int|
                0 <= h < g && 0 <= k < groups@[h]@.len() ==> all@[groups_len(groups@, h) + k]
                    == #[trigger] groups@[h]@[k],
        decreases groups@.len() - g,
    {
        proof {
            lemma_groups_len_monotone(groups@, g as int + 1, groups@.len() as int);
        }
        let group = &groups[g];
        let start = all.len() as u32;
        let len = group.len() as u32;
        let ghost before = all@;
        let mut k: usize = 0;
        while k < group.len()
            invariant
                k <= group@.len(),
                all@.len() == before.len() + k,
                forall|m: int| 0 <= m < before.len() ==> all@[m] == before[m],
                forall|m: int| 0 <= m < k ==> #[trigger] all@[before.len() + m] == group@[m],
                before.len() + group@.len() <= u32::MAX,
            decreases group@.len() - k,
        {
            all.push(group[k]);
            k = k + 1;
        }
        if len == 0 {
            ranges.push((0, 0));
        } else {
            ranges.push((start, len));
        }
        proof {
            assert forall|h: int, kk: int|
                0 <= h < g + 1 && 0 <= kk < groups@[h]@.len() implies all@[groups_len(groups@, h) + kk]
                    == #[trigger] groups@[h]@[kk] by {
                if h < g {
                    lemma_groups_len_monotone(groups@, h + 1, g as int);
                    assert(groups_len(groups@, h + 1) == groups_len(groups@, h) + groups@[h]@.len());
                    let m = groups_len(groups@, h) + kk;
                    assert(0 <= m < before.len()) by {
                        lemma_groups_len_monotone(groups@, 0, h);
                    }
                    assert(all@[m] == before[m]);
                } else {
                    assert(all@[before.len() + kk] == group@[kk]);
                }
            }
        }
        g = g + 1;
    }
    (all, ranges)
}


/// Whether the faces of a subchunk that point along face direction `face` (in the order up,
/// down, north, south, east, west) can be seen from the camera's subchunk `camera`: they cannot
/// when the whole subchunk lies beyond the camera in the direction they point.
pub open spec fn spec_faces_camera(face: int, subchunk: [i32; 3], camera: [i32; 3]) -> bool {
    if face == 0 {
        !(subchunk[1] > camera[1])
    } else if face == 1 {
        !(subchunk[1] < camera[1])
    } else if face == 2 {
        !(subchunk[2] < camera[2])
    } else if face == 3 {
        !(subchunk[2] > camera[2])
    } else if face == 4 {
        !(subchunk[0] > camera[0])
    } else {
        !(subchunk[0] < camera[0])
    }
}

pub fn faces_camera(face: usize, subchunk: [i32; 3], camera: [i32; 3]) -> (r: bool)
    requires
        face < 6,
    ensures
        r == spec_faces_camera(face as int, subchunk, camera),
{
    let skip = if face == 0 {
        subchunk[1] > camera[1]
    } else if face == 1 {
        subchunk[1] < camera[1]
    } else if face == 2 {
        subchunk[2] < camera[2]
    } else if face == 3 {
        subchunk[2] > camera[2]
    } else if face == 4 {
        subchunk[0] > camera[0]
    } else {
        subchunk[0] < camera[0]
    };
    !skip
}

/// One indirect draw of a group of face instances of a subchunk: the face's rotation matrix,
/// the number of instances, and where the first lies in the instance buffer, in bytes.
#[derive(Clone, Copy, Debug, PartialEq, Eq, Structural)]
pub struct FaceGroupDraw {
    pub face_matrix_index: u32,
    pub instance_count: u32,
    pub byte_offset: u64,
}

/// The draws for face directions `0..n` of a subchunk whose face groups are `groups` (start
/// instance and length each): one per direction whose faces can be seen from the camera and
/// whose group is not empty, in direction order.
pub open spec fn face_group_draws_upto(
    groups: [(u32, u32); 6],
    subchunk: [i32; 3],
    camera: [i32; 3],
    instance_size: u64,
    n: int,
) -> Seq<FaceGroupDraw>
    decreases n,
{
    if n <= 0 {
        seq![]
    } else {
        let before = face_group_draws_upto(groups, subchunk, camera, instance_size, n - 1);
        let i = n - 1;
        if spec_faces_camera(i, subchunk, camera) && groups[i].1 != 0 {
            before.push(
                FaceGroupDraw {
                    face_matrix_index: i as u32,
                    instance_count: groups[i].1,
                    byte_offset: (groups[i].0 * instance_size) as u64,
                },
            )
        } else {
            before
        }
    }
}

/// The draws of a subchunk's face groups as the renderer issues them for a camera in subchunk
/// `camera`; `instance_size` is the size of one instance in bytes.
pub fn face_group_draws(
    groups: [(u32, u32); 6],
    subchunk: [i32; 3],
    camera: [i32; 3],
    instance_size: u64,
) -> (r: Vec<FaceGroupDraw>)
    requires
        forall|i: int| 0 <= i < 6 ==> #[trigger] groups[i].0 * instance_size <= u64::MAX,
    ensures
        r@ == face_group_draws_upto(groups, subchunk, camera, instance_size, 6),
{
    let mut draws: Vec<FaceGroupDraw> = Vec::new();
    let mut i: usize = 0;
    while i < 6
        invariant
            i <= 6,
            forall|j: int| 0 <= j < 6 ==> #[trigger] groups[j].0 * instance_size <= u64::MAX,
            draws@ == face_group_draws_upto(groups, subchunk, camera, instance_size, i as int),
        decreases 6 - i,
    {
        let (start, count) = groups[i];
        if faces_camera(i, subchunk, camera) && count != 0 {
            assert(groups[i as int].0 * instance_size <= u64::MAX);
            draws.push(
                FaceGroupDraw {
                    face_matrix_index: i as u32,
                    instance_count: count,
                    byte_offset: start as u64 * instance_size,
                },
            );
        }
        i = i + 1;
    }
    draws
}

/// The faces and instances of one custom-shaped block model in a subchunk: the first face and
/// number of faces of the model, the first instance and number of instances.
#[derive(Clone, Copy, Debug)]
pub struct CustomBlockGroup {
    pub start_face_and_len: [u32; 2],
    pub start_instance_and_len: [u32; 2],
}

/// The arguments of one indirect draw.
#[derive(Clone, Copy, Debug, PartialEq, Eq, Structural)]
pub struct DrawIndirectCommand {
    pub vertex_count: u32,
    pub instance_count: u32,
    pub first_vertex: u32,
    pub first_instance: u32,
}

/// The draw of a custom block group: six vertices a face, and the byte offset of its first
/// instance in the instance buffer.
pub open spec fn custom_block_draw(g: CustomBlockGroup, instance_size: u64) -> (DrawIndirectCommand, u64) {
    (
        DrawIndirectCommand {
            vertex_count: (g.start_face_and_len[1] * 6) as u32,
            instance_count: g.start_instance_and_len[1],
            first_vertex: (g.start_face_and_len[0] * 6) as u32,
            first_instance: 0,
        },
        (g.start_instance_and_len[0] * instance_size) as u64,
    )
}

/// The draws of a subchunk's custom block groups, one per group, in order.
pub fn custom_block_draws(groups: &Vec<CustomBlockGroup>, instance_size: u64) -> (r: Vec<
    (DrawIndirectCommand, u64),
>)
    requires
        forall|k: int|
            0 <= k < groups@.len() ==> {
                &&& #[trigger] groups@[k].start_face_and_len[0] * 6 <= u32::MAX
                &&& groups@[k].start_face_and_len[1] * 6 <= u32::MAX
                &&& groups@[k].start_instance_and_len[0] * instance_size <= u64::MAX
            },
    ensures
        r@.len() == groups@.len(),
        forall|k: int| 0 <= k < groups@.len() ==> #[trigger] r@[k] == custom_block_draw(groups@[k], instance_size),
{
    let mut draws: Vec<(DrawIndirectCommand, u64)> = Vec::new();
    let mut k: usize = 0;
    while k < groups.len()
        invariant
            k <= groups@.len(),
            forall|m: int|
                0 <= m < groups@.len() ==> {
                    &&& #[trigger] groups@[m].start_face_and_len[0] * 6 <= u32::MAX
                    &&& groups@[m].start_face_and_len[1] * 6 <= u32::MAX
                    &&& groups@[m].start_instance_and_len[0] * instance_size <= u64::MAX
                },
            draws@.len() == k,
            forall|m: int| 0 <= m < k ==> #[trigger] draws@[m] == custom_block_draw(groups@[m], instance_size),
        decreases groups@.len() - k,
    {
        let g = groups[k];
        assert(g.start_face_and_len[0] * 6 <= u32::MAX);
        let command = DrawIndirectCommand {
            vertex_count: g.start_face_and_len[1] * 6,
            instance_count: g.start_instance_and_len[1],
            first_vertex: g.start_face_and_len[0] * 6,
            first_instance: 0,
        };
        draws.push((command, g.start_instance_and_len[0] as u64 * instance_size));
        k = k + 1;
    }
    draws
}


/// Which faces of a subchunk the renderer draws: the face group pointing along face direction
/// `face` (whose outward normal is `face_offset(face)`) is skipped exactly when the subchunk
/// lies strictly beyond the camera's subchunk along that normal; so of two opposite face groups
/// at least one is always drawn, and both are drawn when the subchunk is level with the camera
/// on their axis.
pub proof fn lemma_faces_camera_by_normal(face: int, subchunk: [i32; 3], camera: [i32; 3])
    requires
        0 <= face < 6,
    ensures
        spec_faces_camera(face, subchunk, camera) == !({
            let (dx, dy, dz) = crate::meshing::face_offset(face);
            ||| dx * (subchunk[0] - camera[0]) > 0
            ||| dy * (subchunk[1] - camera[1]) > 0
            ||| dz * (subchunk[2] - camera[2]) > 0
        }),
        spec_faces_camera(0, subchunk, camera) || spec_faces_camera(1, subchunk, camera),
        spec_faces_camera(2, subchunk, camera) || spec_faces_camera(3, subchunk, camera),
        spec_faces_camera(4, subchunk, camera) || spec_faces_camera(5, subchunk, camera),
        subchunk[1] == camera[1] ==> spec_faces_camera(0, subchunk, camera) && spec_faces_camera(1, subchunk, camera),
        subchunk[2] == camera[2] ==> spec_faces_camera(2, subchunk, camera) && spec_faces_camera(3, subchunk, camera),
        subchunk[0] == camera[0] ==> spec_faces_camera(4, subchunk, camera) && spec_faces_camera(5, subchunk, camera),
{
    let (dx, dy, dz) = crate::meshing::face_offset(face);
    let (sx, sy, sz) = (subchunk[0] - camera[0], subchunk[1] - camera[1], subchunk[2] - camera[2]);
    if face == 0 {
        assert(dx == 0 && dy == 1 && dz == 0);
    } else if face == 1 {
        assert(dx == 0 && dy == -1 && dz == 0);
        assert(dy * sy == -sy);
    } else if face == 2 {
        assert(dx == 0 && dy == 0 && dz == -1);
        assert(dz * sz == -sz);
    } else if face == 3 {
        assert(dx == 0 && dy == 0 && dz == 1);
    } else if face == 4 {
        assert(dx == 1 && dy == 0 && dz == 0);
    } else {
        assert(dx == -1 && dy == 0 && dz == 0);
        assert(dx * sx == -sx);
    }
}

} // verus!
