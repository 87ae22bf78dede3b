use hypercubed::graphics::{
    concatenate_instance_groups, custom_block_draws, face_group_draws, faces_camera,
    generate_dummy_lightmap_texture, BoatVariant, CustomBlockGroup, DebugVisualisationDrawMethod,
    DrawIndirectCommand, FaceGroupDraw, PackedFlags, SelectedGraphicsBackend,
};
use hypercubed::meshing::{
    face_culled, mesh_block_models, mesh_subchunk_blocks, neighbour_location, subchunk_face_cull_maps,
    subchunk_is_meshed, tint_colour, BlockFaceInstance, BlockModel, BlockOpacity, CustomBlockInstance,
    FaceTexture,
    NeighbourColumn, OverlayFace, RightAngleRotation, TintedBlockFaceInstance,
};
use hypercubed::physics::{jump_tick, movement_directions, JumpState, PlayerInput};
use hypercubed::subchunk_tracker::SubchunkTracker;
use hypercubed::visibility::SubchunkPos;
use hypercubed::world::{
    div_euclid_16, get_section_info_and_inner_pos, rem_euclid_16, subchunk_containing,
    subchunk_start_coords,
};

#[test]
fn euclidean_division_by_sixteen() {
    assert_eq!(div_euclid_16(17), 1);
    assert_eq!(div_euclid_16(-1), -1);
    assert_eq!(div_euclid_16(-16), -1);
    assert_eq!(div_euclid_16(-17), -2);
    assert_eq!(rem_euclid_16(-1), 15);
    assert_eq!(rem_euclid_16(33), 1);
    assert_eq!(div_euclid_16(i32::MIN), i32::MIN / 16);
    assert_eq!(div_euclid_16(i32::MAX), i32::MAX / 16);
}

#[test]
fn subchunk_of_a_block() {
    assert_eq!(subchunk_containing([-1, -64, 17]), [-1, 0, 1]);
    assert_eq!(subchunk_containing([15, 255, -16]), [0, 19, -1]);
    assert_eq!(subchunk_containing([16, -65, -17]), [1, -1, -2]);
    // The start corner of the subchunk found holds the block's column and section.
    assert_eq!(subchunk_start_coords(subchunk_containing([37, 70, -5])), [32, 64, -16]);
}

#[test]
fn block_locations() {
    let l = get_section_info_and_inner_pos([-1, -64, 35]).unwrap();
    assert_eq!((l.chunk_x, l.chunk_z, l.section), (-1, 2, 0));
    assert_eq!((l.x, l.y, l.z), (15, 0, 3));
    let l = get_section_info_and_inner_pos([16, 70, -16]).unwrap();
    assert_eq!((l.chunk_x, l.chunk_z, l.section), (1, -1, 8));
    assert_eq!((l.x, l.y, l.z), (0, 6, 0));
    assert_eq!(get_section_info_and_inner_pos([0, -65, 0]), None);
    assert_eq!(subchunk_start_coords([2, 0, -1]), [32, -64, -16]);
}

#[test]
fn controls_and_jumping() {
    let input = PlayerInput { forward: true, backward: false, left: true, right: true, jump: false, sneak: false, sprint: false };
    assert_eq!(movement_directions(&input), (1, 0));
    let back = PlayerInput { forward: false, backward: true, left: true, right: false, ..input };
    assert_eq!(movement_directions(&back), (-1, -1));
    let mut s = JumpState { on_ground: true, jump_queued: false, jump_ticks: 0 };
    assert!(jump_tick(&mut s, true));
    assert_eq!(s.jump_ticks, 10);
    for _ in 0..9 {
        assert!(!jump_tick(&mut s, true));
    }
    assert_eq!(s.jump_ticks, 1);
    assert!(jump_tick(&mut s, true));
    assert!(!jump_tick(&mut s, false));
    assert_eq!(s.jump_ticks, 0);
    let mut air = JumpState { on_ground: false, jump_queued: true, jump_ticks: 0 };
    assert!(!jump_tick(&mut air, false));
    assert!(!air.jump_queued);
}

#[test]
fn face_culling_rules() {
    assert!(face_culled(BlockOpacity::Transparent, BlockOpacity::Opaque));
    assert!(face_culled(BlockOpacity::Glass, BlockOpacity::Glass));
    assert!(face_culled(BlockOpacity::GlassPane, BlockOpacity::GlassPane));
    assert!(!face_culled(BlockOpacity::Glass, BlockOpacity::GlassPane));
    assert!(!face_culled(BlockOpacity::Opaque, BlockOpacity::Transparent));
    assert_eq!(tint_colour(true), [0x61, 0x99, 0x61, 0xFF]);
    assert_eq!(tint_colour(false), [0x91, 0xBD, 0x59, 0xFF]);
}

#[test]
fn neighbour_locations() {
    // Above the top block of a section: the next section up.
    let up = neighbour_location(3, 4, 15, 4, 0).unwrap();
    assert_eq!(up.column, NeighbourColumn::Same);
    assert_eq!((up.section, up.x, up.y, up.z), (4, 4, 0, 4));
    // West of x = 0: the west column.
    let west = neighbour_location(3, 0, 5, 9, 5).unwrap();
    assert_eq!(west.column, NeighbourColumn::West);
    assert_eq!((west.section, west.x, west.y, west.z), (3, 15, 5, 9));
    // North of z = 0.
    let north = neighbour_location(0, 7, 7, 0, 2).unwrap();
    assert_eq!(north.column, NeighbourColumn::North);
    assert_eq!(north.z, 15);
    // Below the world and above it.
    assert_eq!(neighbour_location(0, 1, 0, 1, 1), None);
    assert_eq!(neighbour_location(23, 1, 15, 1, 0), None);
    let below = neighbour_location(1, 1, 0, 1, 1).unwrap();
    assert_eq!((below.section, below.y), (0, 15));
}

#[test]
fn face_instances_pack_position_and_light() {
    let i = BlockFaceInstance::new([1, 2, 3], [10, 20, 30, 40], RightAngleRotation::OneEighty, [5, 12]);
    assert_eq!(i.packed_xyz, 1 | (2 << 4) | (3 << 8));
    assert_eq!(i.uv_rotation_and_light_levels, [2, 5 | (12 << 4)]);
    assert_eq!(i.uvs, [10, 20, 30, 40]);
    let t = TintedBlockFaceInstance::new([15, 15, 15], [0; 4], RightAngleRotation::TwoSeventy, [15, 15], [1, 2, 3, 4]);
    assert_eq!(t.packed_xyz, 0xFFF);
    assert_eq!(t.uv_rotation_and_light_levels, [3, 0xFF]);
    assert_eq!(t.tint_color, [1, 2, 3, 4]);
}

#[test]
fn graphics_labels_and_defaults() {
    assert_eq!(SelectedGraphicsBackend::default(), SelectedGraphicsBackend::Vulkan);
    assert_eq!(SelectedGraphicsBackend::Wgpu.name(), "wgpu");
    assert_eq!(DebugVisualisationDrawMethod::default(), DebugVisualisationDrawMethod::Egui);
    assert_eq!(DebugVisualisationDrawMethod::Gpu.label_text(), "Use the GPU directly for debug visualisation");
    assert_eq!(PackedFlags::new(true).0, 1);
    assert!(!PackedFlags::new(false).ignore_depth());
    assert_eq!(BoatVariant::BambooRaft.texture_identifier(), "entity/boat/bamboo");
    assert_eq!(BoatVariant::PaleOak.texture_identifier(), "entity/boat/pale_oak");
    let lm = generate_dummy_lightmap_texture();
    assert_eq!(lm.len(), 16);
    assert!(lm.iter().all(|row| row.len() == 16 && row.iter().all(|t| *t == [0, 0, 0, 0xFF])));
}

#[test]
fn instance_groups_are_laid_out_in_order() {
    let groups = vec![vec![1u8, 2], vec![], vec![3], vec![], vec![4, 5, 6], vec![]];
    let (all, ranges) = concatenate_instance_groups(groups);
    assert_eq!(all, vec![1, 2, 3, 4, 5, 6]);
    assert_eq!(ranges, vec![(0, 2), (0, 0), (2, 1), (0, 0), (3, 3), (0, 0)]);
}

#[test]
fn tracker_drops_stale_meshes() {
    let mut t = SubchunkTracker::new();
    let p = SubchunkPos { x: 1, y: 2, z: 3 };
    let first = t.dispatch_subchunk_updates(&[p]);
    let second = t.dispatch_subchunk_updates(&[p]);
    assert_eq!((first, second), (0, 1));
    assert_eq!(t.num_pending_subchunks(), 2);
    assert!(t.is_chunk_loaded(1, 3));
    // The newer mesh arrives first; the older one must not replace it.
    assert!(t.receive(Some((p, second))));
    assert!(!t.receive(Some((p, first))));
    assert_eq!(t.num_pending_subchunks(), 0);
    let third = t.dispatch_subchunk_updates(&[p, SubchunkPos { x: 5, y: 0, z: 5 }]);
    assert!(!t.receive(None));
    assert!(t.receive(Some((p, third))));
    t.remove_chunk(1, 3);
    assert!(!t.is_chunk_loaded(1, 3));
    assert!(t.is_chunk_loaded(5, 5));
    let late = t.dispatch_subchunk_updates(&[p]);
    assert_eq!(late, 3);
    // With the column's meshes forgotten, any result for it is taken.
    assert!(t.receive(Some((p, first))));
}

#[test]
fn face_groups_facing_away_are_not_drawn() {
    // Face order: up, down, north, south, east, west; (start instance, count) each.
    let groups = [(0, 3), (3, 0), (3, 2), (5, 1), (6, 4), (10, 2)];
    // A subchunk above, north of and east of the camera's: its up, north and east faces point
    // away from the camera, and its down group is empty.
    let draws = face_group_draws(groups, [1, 1, -1], [0, 0, 0], 16);
    assert_eq!(
        draws,
        vec![
            FaceGroupDraw { face_matrix_index: 3, instance_count: 1, byte_offset: 80 },
            FaceGroupDraw { face_matrix_index: 5, instance_count: 2, byte_offset: 160 },
        ]
    );
    // From inside the subchunk every non-empty group is drawn.
    let all = face_group_draws(groups, [0, 0, 0], [0, 0, 0], 16);
    assert_eq!(all.len(), 5);
    assert_eq!(all[0], FaceGroupDraw { face_matrix_index: 0, instance_count: 3, byte_offset: 0 });
    assert!(faces_camera(4, [-1, 0, 0], [0, 0, 0]));
    assert!(!faces_camera(5, [-1, 0, 0], [0, 0, 0]));
}

#[test]
fn custom_block_groups_become_draws() {
    let groups = vec![
        CustomBlockGroup { start_face_and_len: [2, 3], start_instance_and_len: [4, 5] },
        CustomBlockGroup { start_face_and_len: [0, 1], start_instance_and_len: [0, 7] },
    ];
    let draws = custom_block_draws(&groups, 32);
    assert_eq!(
        draws,
        vec![
            (
                DrawIndirectCommand { vertex_count: 18, instance_count: 5, first_vertex: 12, first_instance: 0 },
                128,
            ),
            (
                DrawIndirectCommand { vertex_count: 6, instance_count: 7, first_vertex: 0, first_instance: 0 },
                0,
            ),
        ]
    );
}

#[test]
fn subchunks_need_blocks_and_loaded_neighbours() {
    assert!(subchunk_is_meshed(true, 1, [true; 4]));
    assert!(!subchunk_is_meshed(false, 1, [true; 4]));
    assert!(!subchunk_is_meshed(true, 0, [true; 4]));
    assert!(!subchunk_is_meshed(true, 4096, [true, true, false, true]));
}

fn padded(x: i32, y: i32, z: i32) -> usize {
    ((y + 1) * 324 + (z + 1) * 18 + (x + 1)) as usize
}

#[test]
fn hidden_faces_of_every_block() {
    let mut cells = vec![Some(BlockOpacity::Transparent); 18 * 18 * 18];
    // Below the bottom of the world.
    for z in -1..17 {
        for x in -1..17 {
            cells[padded(x, -1, z)] = None;
        }
    }
    cells[padded(5, 5, 5)] = Some(BlockOpacity::Glass);
    cells[padded(5, 6, 5)] = Some(BlockOpacity::Glass);
    cells[padded(6, 5, 5)] = Some(BlockOpacity::Opaque);
    cells[padded(16, 0, 0)] = Some(BlockOpacity::Opaque);
    let maps = subchunk_face_cull_maps(&cells);
    assert_eq!(maps.len(), 4096);
    // Order: up, down, north, south, east, west.
    assert_eq!(maps[5 * 256 + 5 * 16 + 5], [true, false, false, false, true, false]);
    // The opaque block of the east neighbour column hides the east face at the border; the
    // face towards below the world is never hidden.
    assert_eq!(maps[15], [false, false, false, false, true, false]);
    assert_eq!(maps[0], [false; 6]);
    // The transparent block east of the opaque one has its west face hidden.
    assert_eq!(maps[5 * 256 + 5 * 16 + 7], [false, false, false, false, false, true]);
}

fn texture(n: u16) -> FaceTexture {
    FaceTexture { atlas_uvs: [n, n + 1, n + 2, n + 3], uv_rotation: RightAngleRotation::Zero }
}

#[test]
fn block_models_give_face_instances() {
    let cube = [texture(0), texture(10), texture(20), texture(30), texture(40), texture(50)];
    let parts = vec![
        BlockModel::Block(cube),
        BlockModel::OverlayedBlock(vec![
            OverlayFace { face_i: 2, texture: texture(90), biome_tinted: true },
            OverlayFace { face_i: 2, texture: texture(100), biome_tinted: false },
            OverlayFace { face_i: 1, texture: texture(110), biome_tinted: false },
        ]),
        BlockModel::Other(7),
        BlockModel::NoModel,
    ];
    let xyz = [1, 2, 3];
    let light = [[15, 0], [14, 1], [13, 2], [12, 3], [11, 4], [10, 5]];
    let tint = [1, 2, 3, 4];
    // The down face is hidden.
    let cull = [false, true, false, false, false, false];
    let mesh = mesh_block_models(&parts, BlockOpacity::Opaque, cull, light, tint, xyz, [9, 8]);
    let face = |t: FaceTexture, i: usize| BlockFaceInstance::new(xyz, t.atlas_uvs, t.uv_rotation, light[i]);
    assert_eq!(mesh.block_faces.len(), 6);
    assert_eq!(mesh.block_faces[0], vec![face(cube[0], 0)]);
    assert!(mesh.block_faces[1].is_empty());
    assert!(mesh.tinted_block_faces[1].is_empty());
    assert_eq!(mesh.block_faces[2], vec![face(cube[2], 2), face(texture(100), 2)]);
    assert_eq!(
        mesh.tinted_block_faces[2],
        vec![TintedBlockFaceInstance::new(xyz, texture(90).atlas_uvs, RightAngleRotation::Zero, light[2], tint)]
    );
    assert_eq!(mesh.block_faces[5], vec![face(cube[5], 5)]);
    assert!(mesh.tinted_block_faces[5].is_empty());
    assert_eq!(
        mesh.custom_blocks,
        vec![CustomBlockInstance {
            model_id: 7,
            xyz,
            tint_color: tint,
            // Centre first, then the six faces, sky light low and block light high.
            light_level_pairs: [0x89, 0x0F, 0x1E, 0x2D, 0x3C, 0x4B, 0x5A, 0],
        }]
    );
    // A cube that is not opaque gives tinted faces with no tint (opaque white).
    let glass = mesh_block_models(&vec![BlockModel::Block(cube)], BlockOpacity::Glass, [false; 6], light, tint, xyz, [0, 0]);
    assert!(glass.block_faces[4].is_empty());
    assert_eq!(
        glass.tinted_block_faces[4],
        vec![TintedBlockFaceInstance::new(xyz, cube[4].atlas_uvs, RightAngleRotation::Zero, light[4], [0xFF; 4])]
    );
    assert!(mesh_block_models(&vec![BlockModel::Liquid], BlockOpacity::Transparent, [false; 6], light, tint, xyz, [0, 0])
        .block_faces
        .iter()
        .all(|f| f.is_empty()));
}

#[test]
fn debug_shape_flags() {
    assert_eq!(PackedFlags::none(), PackedFlags(0));
    assert!(!PackedFlags::none().ignore_depth());
    assert_eq!(PackedFlags::ignoring_depth(), PackedFlags::new(true));
    assert!(PackedFlags::ignoring_depth().ignore_depth());
}

#[test]
fn whole_subchunk_meshing() {
    let mut cells = vec![Some(BlockOpacity::Transparent); 18 * 18 * 18];
    cells[padded(0, 0, 0)] = Some(BlockOpacity::Opaque);
    cells[padded(0, 1, 0)] = Some(BlockOpacity::Opaque);
    let cube = [texture(0), texture(10), texture(20), texture(30), texture(40), texture(50)];
    let mut models = vec![vec![BlockModel::NoModel]; 4096];
    models[0] = vec![BlockModel::Block(cube)];
    models[1] = vec![BlockModel::Other(3)];
    let lights = vec![[[15, 0]; 6]; 4096];
    let tints = vec![[1, 2, 3, 4]; 4096];
    let centre_lights = vec![[0, 0]; 4096];
    let mesh = mesh_subchunk_blocks(&cells, &models, &lights, &tints, &centre_lights);
    // Block (0, 0, 0) is opaque with an opaque block above it: every face but the top is drawn.
    assert!(mesh.block_faces[0].is_empty());
    for f in 1..6 {
        assert_eq!(
            mesh.block_faces[f],
            vec![BlockFaceInstance::new([0, 0, 0], cube[f].atlas_uvs, RightAngleRotation::Zero, [15, 0])]
        );
        assert!(mesh.tinted_block_faces[f].is_empty());
    }
    assert_eq!(mesh.custom_blocks.len(), 1);
    assert_eq!(mesh.custom_blocks[0].model_id, 3);
    assert_eq!(mesh.custom_blocks[0].xyz, [1, 0, 0]);
    assert_eq!(mesh.custom_blocks[0].tint_color, [1, 2, 3, 4]);
}
