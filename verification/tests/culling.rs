use hypercubed::cave_cull::{compute_connectivity, subchunk_connectivity, PaletteOpacity};
use hypercubed::connectivity::{FaceSet, SubchunkConnectivity};
use hypercubed::direction::AxisDirection;

const ALL_DIRS: [AxisDirection; 6] = [
    AxisDirection::Down,
    AxisDirection::Up,
    AxisDirection::North,
    AxisDirection::South,
    AxisDirection::West,
    AxisDirection::East,
];

fn cell(x: usize, y: usize, z: usize) -> usize {
    y * 256 + z * 16 + x
}

#[test]
fn direction_index_round_trip_and_inverse() {
    for (i, d) in ALL_DIRS.iter().enumerate() {
        assert_eq!(d.index() as usize, i);
        assert_eq!(AxisDirection::from_index(i as u8), *d);
        assert_eq!(d.invert().invert(), *d);
        assert_ne!(d.invert(), *d);
    }
    assert_eq!(AxisDirection::Down.invert(), AxisDirection::Up);
    assert_eq!(AxisDirection::West.invert(), AxisDirection::East);
    assert_eq!(AxisDirection::North.invert(), AxisDirection::South);
}

#[test]
fn empty_and_full_connectivity() {
    let e = SubchunkConnectivity::empty();
    let f = SubchunkConnectivity::full();
    assert_eq!(e.0, 0);
    assert_eq!(f.0, 0x7FFF);
    for a in ALL_DIRS {
        for b in ALL_DIRS {
            assert_eq!(e.connects(&a, &b), a == b);
            assert!(f.connects(&a, &b));
        }
    }
}

#[test]
fn add_connection_is_symmetric_and_sets_pair_bit() {
    let mut c = SubchunkConnectivity::empty();
    c.add_connection(&AxisDirection::Up, &AxisDirection::Down);
    assert_eq!(c.0, 0x1);
    c.add_connection(&AxisDirection::East, &AxisDirection::West);
    assert_eq!(c.0, 0x4001);
    c.add_connection(&AxisDirection::North, &AxisDirection::North);
    assert_eq!(c.0, 0x4001);
    c.add_connection(&AxisDirection::South, &AxisDirection::East);
    assert_eq!(c.0, 0x6001);
    assert!(c.connects(&AxisDirection::Down, &AxisDirection::Up));
    assert!(c.connects(&AxisDirection::Up, &AxisDirection::Down));
    assert!(c.connects(&AxisDirection::East, &AxisDirection::South));
    assert!(!c.connects(&AxisDirection::Down, &AxisDirection::North));
}

#[test]
fn get_pairs_lists_all_fifteen_in_bit_order() {
    let c = SubchunkConnectivity(0x0201);
    let pairs = c.get_pairs();
    assert_eq!(pairs[0], ([AxisDirection::Down, AxisDirection::Up], true));
    assert_eq!(pairs[1], ([AxisDirection::Down, AxisDirection::North], false));
    assert_eq!(pairs[9], ([AxisDirection::North, AxisDirection::South], true));
    assert_eq!(pairs[14], ([AxisDirection::West, AxisDirection::East], false));
    for (k, (dirs, connected)) in pairs.iter().enumerate() {
        assert_ne!(dirs[0], dirs[1]);
        assert_eq!(*connected, c.0 & (1 << k) != 0);
    }
}

#[test]
fn face_set_add_and_list() {
    let mut s = FaceSet::empty();
    assert_eq!(s.0, 0);
    s.add_dir(AxisDirection::West);
    s.add_dir(AxisDirection::Up);
    assert_eq!(s.0, 0b010010);
    let dirs = s.get_directions();
    assert_eq!(dirs[0], (AxisDirection::Down, false));
    assert_eq!(dirs[1], (AxisDirection::Up, true));
    assert_eq!(dirs[4], (AxisDirection::West, true));
    assert_eq!(dirs[5], (AxisDirection::East, false));
}

#[test]
fn all_air_connects_every_face() {
    let open = vec![true; 4096];
    let c = compute_connectivity(&open);
    assert_eq!(c.0, 0x7FFF);
}

#[test]
fn all_stone_connects_nothing() {
    let open = vec![false; 4096];
    let c = compute_connectivity(&open);
    assert_eq!(c.0, 0);
}

#[test]
fn vertical_shaft_connects_only_down_and_up() {
    let mut open = vec![false; 4096];
    for y in 0..16 {
        open[cell(5, y, 7)] = true;
    }
    let c = compute_connectivity(&open);
    assert!(c.connects(&AxisDirection::Down, &AxisDirection::Up));
    assert!(!c.connects(&AxisDirection::Down, &AxisDirection::North));
    assert!(!c.connects(&AxisDirection::West, &AxisDirection::East));
    assert_eq!(c.0, 0x1);
}

#[test]
fn wall_splits_west_from_east() {
    // Air everywhere except a stone wall at x == 8.
    let mut open = vec![true; 4096];
    for y in 0..16 {
        for z in 0..16 {
            open[cell(8, y, z)] = false;
        }
    }
    let c = compute_connectivity(&open);
    assert!(!c.connects(&AxisDirection::West, &AxisDirection::East));
    assert!(c.connects(&AxisDirection::West, &AxisDirection::Up));
    assert!(c.connects(&AxisDirection::East, &AxisDirection::Down));
    assert!(c.connects(&AxisDirection::North, &AxisDirection::South));
}

#[test]
fn bent_tunnel_connects_its_two_ends() {
    // A tunnel entering from the west face at y = 3, z = 3 and leaving through the top.
    let mut open = vec![false; 4096];
    for x in 0..10 {
        open[cell(x, 3, 3)] = true;
    }
    for y in 3..16 {
        open[cell(9, y, 3)] = true;
    }
    let c = compute_connectivity(&open);
    assert!(c.connects(&AxisDirection::West, &AxisDirection::Up));
    assert!(c.connects(&AxisDirection::Up, &AxisDirection::West));
    assert!(!c.connects(&AxisDirection::West, &AxisDirection::East));
    assert!(!c.connects(&AxisDirection::Down, &AxisDirection::Up));
}

#[test]
fn single_value_palette_shortcuts() {
    let cells = vec![false; 4096];
    let opaque = subchunk_connectivity(&PaletteOpacity::SingleValue(true), &cells);
    assert_eq!(opaque.0, 0);
    let clear = subchunk_connectivity(&PaletteOpacity::SingleValue(false), &cells);
    assert_eq!(clear.0, 0x7FFF);
}

#[test]
fn palette_shortcuts_and_fallback() {
    let cells = vec![false; 4096];
    let all_opaque = subchunk_connectivity(&PaletteOpacity::Palette(vec![true, true]), &cells);
    assert_eq!(all_opaque.0, 0);
    let none_opaque = subchunk_connectivity(&PaletteOpacity::Palette(vec![false, false]), &cells);
    assert_eq!(none_opaque.0, 0x7FFF);
    // A mixed palette falls back to the flood fill, here over a shaft.
    let mut shaft = vec![false; 4096];
    for y in 0..16 {
        shaft[cell(0, y, 0)] = true;
    }
    let mixed = subchunk_connectivity(&PaletteOpacity::Palette(vec![true, false]), &shaft);
    assert!(mixed.connects(&AxisDirection::Down, &AxisDirection::Up));
    assert!(mixed.connects(&AxisDirection::Down, &AxisDirection::West));
    assert!(!mixed.connects(&AxisDirection::East, &AxisDirection::Up));
    let direct = subchunk_connectivity(&PaletteOpacity::Direct, &shaft);
    assert_eq!(direct.0, mixed.0);
}
