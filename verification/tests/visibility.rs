use std::collections::HashMap;
use hypercubed::connectivity::SubchunkConnectivity;
use hypercubed::direction::AxisDirection;
use hypercubed::visibility::{
    column_key, for_each_visible_subchunk, is_column_visible, neighbour, next_flipping_state,
    subchunk_key, CullingOptions, DebugOutput, FlippingState, SubchunkPos,
};

fn pos(x: i32, y: i32, z: i32) -> SubchunkPos {
    SubchunkPos { x, y, z }
}

fn square(radius: i32) -> Vec<(i32, i32)> {
    let mut cols = Vec::new();
    for x in -radius..=radius {
        for z in -radius..=radius {
            cols.push((x, z));
        }
    }
    cols
}

fn options(check_unflipped: bool, check_connectivity: bool, max: usize) -> CullingOptions {
    CullingOptions { check_unflipped, check_connectivity, max_render_chunks: max }
}

#[test]
fn keys_are_distinct() {
    assert_ne!(column_key(1, 2), column_key(2, 1));
    assert_ne!(column_key(-1, 0), column_key(0, -1));
    assert_eq!(column_key(0, -1), 0x0000_0000_FFFF_FFFF);
    assert_ne!(subchunk_key(pos(1, 2, 3)), subchunk_key(pos(1, 3, 2)));
    assert_eq!(subchunk_key(pos(0, 5, 0)), 5);
}

#[test]
fn columns_need_all_four_neighbours_loaded() {
    let mut loaded = std::collections::HashSet::new();
    for (x, z) in square(1) {
        loaded.insert(column_key(x, z));
    }
    assert!(is_column_visible(&loaded, 0, 0));
    assert!(!is_column_visible(&loaded, 1, 0));
    assert!(!is_column_visible(&loaded, 5, 5));
    let mut edge = std::collections::HashSet::new();
    edge.insert(column_key(i32::MIN, 0));
    assert!(!is_column_visible(&edge, i32::MIN, 0));
}

#[test]
fn neighbours_step_one_subchunk() {
    assert_eq!(neighbour(pos(0, 0, 0), AxisDirection::West), pos(-1, 0, 0));
    assert_eq!(neighbour(pos(0, 0, 0), AxisDirection::Up), pos(0, 1, 0));
    assert_eq!(neighbour(pos(0, 0, 0), AxisDirection::North), pos(0, 0, -1));
}

#[test]
fn flipping_state_tracks_travel() {
    let start = (None, None, None);
    let east = next_flipping_state(start, AxisDirection::East);
    assert_eq!(east, FlippingState::Unflipped { x_positive: Some(true), y_positive: None, z_positive: None });
    let back = next_flipping_state((Some(true), None, None), AxisDirection::West);
    assert_eq!(back, FlippingState::Flipped);
    let up = next_flipping_state((Some(true), None, None), AxisDirection::Up);
    assert_eq!(up, FlippingState::Unflipped { x_positive: Some(true), y_positive: Some(true), z_positive: None });
}

#[test]
fn open_world_search_draws_every_subchunk_with_data_once() {
    let cols = square(3);
    let mut subchunks = HashMap::new();
    for x in -1..=1 {
        for z in -1..=1 {
            subchunks.insert(subchunk_key(pos(x, 4, z)), SubchunkConnectivity::full());
        }
    }
    subchunks.insert(subchunk_key(pos(3, 4, 3)), SubchunkConnectivity::full());
    let r = for_each_visible_subchunk(
        pos(0, 4, 0),
        0u32,
        &subchunks,
        &cols,
        &options(false, true, 3000),
        |q: u32, _p: SubchunkPos, _d: AxisDirection| Some(q + 1),
    );
    // (3, 4, 3) is in an edge column, so never visible.
    assert_eq!(r.rendered.len(), 9);
    assert_eq!(r.rendered[0], pos(0, 4, 0));
    assert!(!r.rendered.contains(&pos(3, 4, 3)));
    assert_eq!(r.debug.subchunks_culled, 1);
    // Visible columns are -2..=2 square, sections 0..=24.
    assert_eq!(r.reached.len(), 25 * 25);
    assert_eq!(r.debug.subchunk_traversal_graph.len(), r.reached.len() - 1);
    for (from, to) in &r.debug.subchunk_traversal_graph {
        let d = (to.x - from.x).abs() + (to.y - from.y).abs() + (to.z - from.z).abs();
        assert_eq!(d, 1);
    }
}

#[test]
fn render_limit_stops_the_search() {
    let cols = square(3);
    let mut subchunks = HashMap::new();
    for x in -1..=1 {
        subchunks.insert(subchunk_key(pos(x, 0, 0)), SubchunkConnectivity::full());
    }
    let r = for_each_visible_subchunk(
        pos(0, 0, 0),
        (),
        &subchunks,
        &cols,
        &options(false, false, 2),
        |_q: (), _p: SubchunkPos, _d: AxisDirection| Some(()),
    );
    assert_eq!(r.rendered.len(), 2);
    assert_eq!(r.debug.subchunks_culled, 1);
    let none = for_each_visible_subchunk(
        pos(0, 0, 0),
        (),
        &subchunks,
        &cols,
        &options(false, false, 0),
        |_q: (), _p: SubchunkPos, _d: AxisDirection| Some(()),
    );
    assert!(none.rendered.is_empty());
    assert_eq!(none.debug.subchunks_culled, 3);
}

#[test]
fn search_is_breadth_first() {
    // One subchunk with data two steps east, one a single step up (the last direction tried).
    let cols = square(3);
    let mut subchunks = HashMap::new();
    subchunks.insert(subchunk_key(pos(2, 0, 0)), SubchunkConnectivity::full());
    subchunks.insert(subchunk_key(pos(0, 1, 0)), SubchunkConnectivity::full());
    let r = for_each_visible_subchunk(
        pos(0, 0, 0),
        (),
        &subchunks,
        &cols,
        &options(false, false, 1),
        |_q: (), _p: SubchunkPos, _d: AxisDirection| Some(()),
    );
    // The nearer one is drawn first, though it is tried last.
    assert_eq!(r.rendered, vec![pos(0, 1, 0)]);
    for j in 2..r.reached.len() {
        assert!(r.reached[j - 1].parent <= r.reached[j].parent);
    }
    // The start's neighbours come in the order west, east, north, south, up (down lies below
    // the world).
    let first: Vec<SubchunkPos> = r.reached[1..6].iter().map(|e| e.pos).collect();
    assert_eq!(first, vec![pos(-1, 0, 0), pos(1, 0, 0), pos(0, 0, -1), pos(0, 0, 1), pos(0, 1, 0)]);
}

#[test]
fn closed_subchunk_blocks_the_search() {
    // A solid subchunk between the start and the rest of a one-column-wide corridor.
    let cols = square(2);
    let mut subchunks = HashMap::new();
    subchunks.insert(subchunk_key(pos(0, 1, 0)), SubchunkConnectivity::empty());
    subchunks.insert(subchunk_key(pos(0, 2, 0)), SubchunkConnectivity::full());
    // Only allow travel straight up the column.
    let gate = |_q: (), p: SubchunkPos, d: AxisDirection| {
        if p.x == 0 && p.z == 0 && d == AxisDirection::Up { Some(()) } else { None }
    };
    let r = for_each_visible_subchunk(pos(0, 0, 0), (), &subchunks, &cols, &options(false, true, 10), gate);
    // From the start (no entry face) the search enters (0, 1, 0), which cannot pass light
    // from its bottom face to its top face.
    assert_eq!(r.rendered, vec![pos(0, 1, 0)]);
    assert_eq!(r.reached.len(), 2);
    let open = for_each_visible_subchunk(pos(0, 0, 0), (), &subchunks, &cols, &options(false, false, 10), gate);
    assert_eq!(open.rendered, vec![pos(0, 1, 0), pos(0, 2, 0)]);
}

#[test]
fn turning_back_is_not_expanded_when_checked() {
    let cols = square(4);
    let subchunks = HashMap::new();
    let blocked = pos(-1, 10, 0);
    // Entering (-1, 10, 0) straight from the west is refused, so it is only reached by a detour
    // that turns back along the z or y axis.
    let gate = move |_q: (), p: SubchunkPos, d: AxisDirection| {
        if p == blocked && d == AxisDirection::West { None } else { Some(()) }
    };
    let r = for_each_visible_subchunk(pos(0, 10, 0), (), &subchunks, &cols, &options(true, true, 10), gate);
    let i = r.reached.iter().position(|e| e.pos == blocked).unwrap();
    assert_eq!(r.reached[i].flipping, FlippingState::Flipped);
    assert!(r.reached.iter().skip(1).all(|c| c.parent != i));
    // Without the check no path counts as turned back, and nothing is reached that the checked
    // search missed.
    let open = for_each_visible_subchunk(pos(0, 10, 0), (), &subchunks, &cols, &options(false, true, 10), gate);
    assert!(open.reached.iter().all(|e| e.flipping != FlippingState::Flipped));
    assert!(open.reached.len() >= r.reached.len());
    let d = DebugOutput::default();
    assert_eq!(d.subchunks_culled, 0);
}
