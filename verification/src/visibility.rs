//! Which subchunks the camera can see: a breadth-first search from the camera's subchunk through
//! subchunk faces that the cave-culling connectivity says light can pass between.
use vstd::prelude::*;
use std::collections::{HashMap, HashSet};
use crate::direction::AxisDirection;
use crate::connectivity::SubchunkConnectivity;
use vstd::set_lib::{set_int_range, lemma_int_range, lemma_len_subset, lemma_map_size_bound};
use vstd::arithmetic::div_mod::lemma_fundamental_div_mod_converse;

verus! {

broadcast use vstd::std_specs::hash::group_hash_axioms;

/// The position of a subchunk: chunk column `x`, `z` and section `y` (0 is the lowest section).
#[derive(Clone, Copy, Debug, PartialEq, Eq, Structural)]
pub struct SubchunkPos {
    pub x: i32,
    pub y: i32,
    pub z: i32,
}

/// The highest section a search may enter (the world is 384 blocks tall, 16 to a section).
pub const MAX_SECTION_Y: i32 = 24;

/// The number of sections a search may enter in each column.
pub open spec fn sections_per_column() -> int {
    MAX_SECTION_Y + 1
}

/// The hash key of chunk column `x`, `z`: `x` in the high half, `z` in the low half.
pub open spec fn spec_column_key(x: i32, z: i32) -> u64 {
    (((x as u32) as u64) << 32u64) | ((z as u32) as u64)
}

/// The hash key of a subchunk: its column key in the high bits, `y` in the low 32 bits.
pub open spec fn spec_subchunk_key(p: SubchunkPos) -> u128 {
    (((spec_column_key(p.x, p.z)) as u128) << 32u128) | ((p.y as u32) as u128)
}

pub fn column_key(x: i32, z: i32) -> (k: u64)
    ensures
        k == spec_column_key(x, z),
{
    ((x as u32 as u64) << 32) | (z as u32 as u64)
}

pub fn subchunk_key(p: SubchunkPos) -> (k: u128)
    ensures
        k == spec_subchunk_key(p),
{
    ((column_key(p.x, p.z) as u128) << 32) | (p.y as u32 as u128)
}

/// Column keys name columns one to one.
pub proof fn lemma_column_key_injective(x1: i32, z1: i32, x2: i32, z2: i32)
    ensures
        (spec_column_key(x1, z1) == spec_column_key(x2, z2)) == (x1 == x2 && z1 == z2),
{
    assert(((((x1 as u32) as u64) << 32u64) | ((z1 as u32) as u64) == (((x2 as u32) as u64)
        << 32u64) | ((z2 as u32) as u64)) == (x1 == x2 && z1 == z2)) by (bit_vector);
}

/// Subchunk keys name subchunks one to one.
pub proof fn lemma_subchunk_key_injective(a: SubchunkPos, b: SubchunkPos)
    ensures
        (spec_subchunk_key(a) == spec_subchunk_key(b)) == (a == b),
{
    let ka = spec_column_key(a.x, a.z);
    let kb = spec_column_key(b.x, b.z);
    let (ya, yb) = (a.y, b.y);
    assert((((ka as u128) << 32u128) | ((ya as u32) as u128) == ((kb as u128) << 32u128) | ((
    yb as u32) as u128)) == (ka == kb && ya == yb)) by (bit_vector);
    lemma_column_key_injective(a.x, a.z, b.x, b.z);
}

/// Column `x`, `z` is loaded.
pub open spec fn column_loaded(loaded: Set<u64>, x: int, z: int) -> bool {
    &&& i32::MIN <= x <= i32::MAX
    &&& i32::MIN <= z <= i32::MAX
    &&& loaded.contains(spec_column_key(x as i32, z as i32))
}

/// Column `x`, `z` is loaded and so are its four neighbours, so that nothing seen through it
/// leaks past the edge of the loaded area.
pub open spec fn column_visible(loaded: Set<u64>, x: int, z: int) -> bool {
    &&& column_loaded(loaded, x, z)
    &&& column_loaded(loaded, x - 1, z)
    &&& column_loaded(loaded, x + 1, z)
    &&& column_loaded(loaded, x, z - 1)
    &&& column_loaded(loaded, x, z + 1)
}

/// Whether column `x`, `z` is visible.
pub fn is_column_visible(loaded: &HashSet<u64>, x: i32, z: i32) -> (r: bool)
    ensures
        r == column_visible(loaded@, x as int, z as int),
{
    if !loaded.contains(&column_key(x, z)) {
        return false;
    }
    let (xm, xp, zm, zp) = match (
        x.checked_sub(1),
        x.checked_add(1),
        z.checked_sub(1),
        z.checked_add(1),
    ) {
        (Some(xm), Some(xp), Some(zm), Some(zp)) => (xm, xp, zm, zp),
        _ => {
            return false;
        },
    };
    loaded.contains(&column_key(xm, z)) && loaded.contains(&column_key(xp, z)) && loaded.contains(
        &column_key(x, zm),
    ) && loaded.contains(&column_key(x, zp))
}

/// The offset of direction `d` along the x, y and z axes.
pub open spec fn dir_offset(d: AxisDirection) -> (int, int, int) {
    match d {
        AxisDirection::Down => (0, -1, 0),
        AxisDirection::Up => (0, 1, 0),
        AxisDirection::North => (0, 0, -1),
        AxisDirection::South => (0, 0, 1),
        AxisDirection::West => (-1, 0, 0),
        AxisDirection::East => (1, 0, 0),
    }
}

/// `b` is the neighbour of `a` in direction `d`.
pub open spec fn neighbour_in(a: SubchunkPos, b: SubchunkPos, d: AxisDirection) -> bool {
    &&& b.x == a.x + dir_offset(d).0
    &&& b.y == a.y + dir_offset(d).1
    &&& b.z == a.z + dir_offset(d).2
}

/// The neighbour of `p` in direction `d`.
pub fn neighbour(p: SubchunkPos, d: AxisDirection) -> (n: SubchunkPos)
    requires
        i32::MIN < p.x < i32::MAX,
        i32::MIN < p.y < i32::MAX,
        i32::MIN < p.z < i32::MAX,
    ensures
        neighbour_in(p, n, d),
{
    match d {
        AxisDirection::Down => SubchunkPos { x: p.x, y: p.y - 1, z: p.z },
        AxisDirection::Up => SubchunkPos { x: p.x, y: p.y + 1, z: p.z },
        AxisDirection::North => SubchunkPos { x: p.x, y: p.y, z: p.z - 1 },
        AxisDirection::South => SubchunkPos { x: p.x, y: p.y, z: p.z + 1 },
        AxisDirection::West => SubchunkPos { x: p.x - 1, y: p.y, z: p.z },
        AxisDirection::East => SubchunkPos { x: p.x + 1, y: p.y, z: p.z },
    }
}

/// A search may enter `p`: its section lies in the world and its column is visible.
pub open spec fn enterable(loaded: Set<u64>, p: SubchunkPos) -> bool {
    &&& 0 <= p.y <= MAX_SECTION_Y
    &&& column_visible(loaded, p.x as int, p.z as int)
}

/// Which of the culling checks of the search are on, and how many subchunks may be drawn.
#[derive(Clone, Copy, Debug, PartialEq, Eq, Structural)]
pub struct CullingOptions {
    /// Stop at subchunks reached by turning back along an axis already travelled.
    pub check_unflipped: bool,
    /// Only pass through a subchunk between faces that its connectivity connects.
    pub check_connectivity: bool,
    pub max_render_chunks: usize,
}

/// Along which axes, and which way, the path to a subchunk has travelled; `Flipped` once it has
/// travelled both ways along some axis.
#[derive(Clone, Copy, Debug, PartialEq, Eq, Structural)]
pub enum FlippingState {
    Unflipped { x_positive: Option<bool>, y_positive: Option<bool>, z_positive: Option<bool> },
    Flipped,
}

/// The axis a direction travels along and which way, as (x, y, z).
pub open spec fn travel_signs(d: AxisDirection) -> (Option<bool>, Option<bool>, Option<bool>) {
    match d {
        AxisDirection::Down => (None, Some(false), None),
        AxisDirection::Up => (None, Some(true), None),
        AxisDirection::North => (None, None, Some(false)),
        AxisDirection::South => (None, None, Some(true)),
        AxisDirection::West => (Some(false), None, None),
        AxisDirection::East => (Some(true), None, None),
    }
}

/// Both are set and they differ.
pub open spec fn opposed(a: Option<bool>, b: Option<bool>) -> bool {
    a is Some && b is Some && a->0 != b->0
}

/// `a` if set, else `b`.
pub open spec fn first_set(a: Option<bool>, b: Option<bool>) -> Option<bool> {
    if a is Some {
        a
    } else {
        b
    }
}

/// The state after travelling in direction `d` from a path that has travelled `cur`.
pub open spec fn spec_next_flipping(
    cur: (Option<bool>, Option<bool>, Option<bool>),
    d: AxisDirection,
) -> FlippingState {
    let n = travel_signs(d);
    if opposed(cur.0, n.0) || opposed(cur.1, n.1) || opposed(cur.2, n.2) {
        FlippingState::Flipped
    } else {
        FlippingState::Unflipped {
            x_positive: first_set(n.0, cur.0),
            y_positive: first_set(n.1, cur.1),
            z_positive: first_set(n.2, cur.2),
        }
    }
}

fn opposed_exec(a: Option<bool>, b: Option<bool>) -> (r: bool)
    ensures
        r == opposed(a, b),
{
    match (a, b) {
        (Some(x), Some(y)) => x != y,
        _ => false,
    }
}

fn first_set_exec(a: Option<bool>, b: Option<bool>) -> (r: Option<bool>)
    ensures
        r == first_set(a, b),
{
    match a {
        Some(_) => a,
        None => b,
    }
}

/// The flipping state of a subchunk entered in direction `d` from one whose path travelled `cur`.
pub fn next_flipping_state(
    cur: (Option<bool>, Option<bool>, Option<bool>),
    d: AxisDirection,
) -> (r: FlippingState)
    ensures
        r == spec_next_flipping(cur, d),
{
    let n: (Option<bool>, Option<bool>, Option<bool>) = match d {
        AxisDirection::Down => (None, Some(false), None),
        AxisDirection::Up => (None, Some(true), None),
        AxisDirection::North => (None, None, Some(false)),
        AxisDirection::South => (None, None, Some(true)),
        AxisDirection::West => (Some(false), None, None),
        AxisDirection::East => (Some(true), None, None),
    };
    if opposed_exec(cur.0, n.0) || opposed_exec(cur.1, n.1) || opposed_exec(cur.2, n.2) {
        FlippingState::Flipped
    } else {
        FlippingState::Unflipped {
            x_positive: first_set_exec(n.0, cur.0),
            y_positive: first_set_exec(n.1, cur.1),
            z_positive: first_set_exec(n.2, cur.2),
        }
    }
}

/// The travel a search carries on from a subchunk in state `s` (none when flips are not checked).
pub open spec fn carried_travel(check_unflipped: bool, s: FlippingState) -> (
    Option<bool>,
    Option<bool>,
    Option<bool>,
) {
    match s {
        FlippingState::Unflipped { x_positive, y_positive, z_positive } => if check_unflipped {
            (x_positive, y_positive, z_positive)
        } else {
            (None, None, None)
        },
        FlippingState::Flipped => (None, None, None),
    }
}

/// The search goes on from a subchunk in state `s`.
pub open spec fn expands(check_unflipped: bool, s: FlippingState) -> bool {
    !(check_unflipped && s is Flipped)
}

/// A subchunk the search reached.
#[derive(Clone, Copy)]
pub struct ReachedSubchunk<Q> {
    pub pos: SubchunkPos,
    /// The subchunk it was reached from (the start is its own parent).
    pub parent: usize,
    /// The face it was entered by (none for the start).
    pub from_dir: Option<AxisDirection>,
    pub flipping: FlippingState,
    /// The state `gate` gave it when it was entered.
    pub gate_state: Q,
}

/// The search may pass through `a` out towards direction `d`.
pub open spec fn passes_through<Q>(
    subchunks: Map<u128, SubchunkConnectivity>,
    options: CullingOptions,
    a: ReachedSubchunk<Q>,
    d: AxisDirection,
) -> bool {
    match a.from_dir {
        Some(fd) => !options.check_connectivity || !subchunks.contains_key(spec_subchunk_key(a.pos))
            || subchunks[spec_subchunk_key(a.pos)].spec_connects(fd, d),
        None => true,
    }
}

/// Some entry of `reached` is at `p`.
pub open spec fn is_reached<Q>(reached: Seq<ReachedSubchunk<Q>>, p: SubchunkPos) -> bool {
    exists|k: int| 0 <= k < reached.len() && #[trigger] reached[k].pos == p
}

/// Entry `i` of `reached` was reached by a step the search allows from its parent.
pub open spec fn reached_by_allowed_step<Q, G: Fn(Q, SubchunkPos, AxisDirection) -> Option<Q>>(
    reached: Seq<ReachedSubchunk<Q>>,
    subchunks: Map<u128, SubchunkConnectivity>,
    loaded: Set<u64>,
    options: CullingOptions,
    gate: G,
    i: int,
) -> bool {
    let e = reached[i];
    let p = reached[e.parent as int];
    &&& e.parent < i
    &&& e.from_dir is Some
    &&& neighbour_in(p.pos, e.pos, e.from_dir->0.spec_invert())
    &&& enterable(loaded, e.pos)
    &&& expands(options.check_unflipped, p.flipping)
    &&& passes_through(subchunks, options, p, e.from_dir->0.spec_invert())
    &&& e.flipping == spec_next_flipping(
        carried_travel(options.check_unflipped, p.flipping),
        e.from_dir->0.spec_invert(),
    )
    &&& gate.ensures((p.gate_state, e.pos, e.from_dir->0.spec_invert()), Some(e.gate_state))
}

/// The search is breadth-first: entries come in the order of the entries they were reached
/// from, so a subchunk is reached only after everything reached from earlier subchunks.
pub open spec fn breadth_first<Q>(reached: Seq<ReachedSubchunk<Q>>) -> bool {
    forall|i: int, j: int|
        #![trigger reached[i], reached[j]]
        1 <= i < j < reached.len() ==> reached[i].parent <= reached[j].parent
}

/// The position of direction `d` in the order the search tries directions (see `try_order`).
pub open spec fn try_rank(d: AxisDirection) -> int {
    match d {
        AxisDirection::West => 0,
        AxisDirection::East => 1,
        AxisDirection::North => 2,
        AxisDirection::South => 3,
        AxisDirection::Down => 4,
        AxisDirection::Up => 5,
    }
}

/// Entries reached from the same subchunk come in the order their directions are tried.
pub open spec fn siblings_in_try_order<Q>(reached: Seq<ReachedSubchunk<Q>>) -> bool {
    forall|i: int, j: int|
        #![trigger reached[i], reached[j]]
        1 <= i < j < reached.len() && reached[i].parent == reached[j].parent ==> try_rank(
            reached[i].from_dir->0.spec_invert(),
        ) < try_rank(reached[j].from_dir->0.spec_invert())
}

/// No entry before `i` holds a subchunk with data that was not drawn.
pub open spec fn drawn_up_to<Q>(
    reached: Seq<ReachedSubchunk<Q>>,
    subchunks: Map<u128, SubchunkConnectivity>,
    rendered: Seq<SubchunkPos>,
    i: int,
) -> bool {
    forall|k: int|
        0 <= k < i && #[trigger] subchunks.contains_key(spec_subchunk_key(reached[k].pos))
            ==> rendered.contains(reached[k].pos)
}

/// The subchunks drawn are the first ones with data in search order: a subchunk with data
/// reached before a drawn one is drawn too.
pub open spec fn drawn_in_search_order<Q>(
    reached: Seq<ReachedSubchunk<Q>>,
    subchunks: Map<u128, SubchunkConnectivity>,
    rendered: Seq<SubchunkPos>,
) -> bool {
    forall|i: int, j: int|
        #![trigger reached[i], reached[j]]
        0 <= i < j < reached.len() && subchunks.contains_key(spec_subchunk_key(reached[i].pos))
            && rendered.contains(reached[j].pos) ==> rendered.contains(reached[i].pos)
}

/// The shape of a search: it starts at `start`, each later entry is reached by an allowed step
/// from an earlier one, and no position is reached twice.
pub open spec fn search_tree<Q, G: Fn(Q, SubchunkPos, AxisDirection) -> Option<Q>>(
    reached: Seq<ReachedSubchunk<Q>>,
    start: SubchunkPos,
    start_state: Q,
    subchunks: Map<u128, SubchunkConnectivity>,
    loaded: Set<u64>,
    options: CullingOptions,
    gate: G,
) -> bool {
    &&& reached.len() >= 1
    &&& reached[0] == (ReachedSubchunk {
        pos: start,
        parent: 0,
        from_dir: None,
        flipping: FlippingState::Unflipped { x_positive: None, y_positive: None, z_positive: None },
        gate_state: start_state,
    })
    &&& forall|i: int|
        1 <= i < reached.len() ==> #[trigger] reached_by_allowed_step(
            reached,
            subchunks,
            loaded,
            options,
            gate,
            i,
        )
    &&& forall|i: int, j: int| 0 <= i < j < reached.len() ==> reached[i].pos != reached[j].pos
}

/// Every step out of entry `i` towards direction `d` that the search allows led to a position
/// reached, unless `gate` turned it down.
pub open spec fn step_explored<Q, G: Fn(Q, SubchunkPos, AxisDirection) -> Option<Q>>(
    reached: Seq<ReachedSubchunk<Q>>,
    subchunks: Map<u128, SubchunkConnectivity>,
    loaded: Set<u64>,
    options: CullingOptions,
    gate: G,
    i: int,
    d: AxisDirection,
) -> bool {
    forall|b: SubchunkPos|
        #![trigger neighbour_in(reached[i].pos, b, d)]
        neighbour_in(reached[i].pos, b, d) && enterable(loaded, b) && passes_through(
            subchunks,
            options,
            reached[i],
            d,
        ) ==> is_reached(reached, b) || gate.ensures((reached[i].gate_state, b, d), None)
}

/// All the steps out of entry `i` were explored (there are none where the search stops).
pub open spec fn explored<Q, G: Fn(Q, SubchunkPos, AxisDirection) -> Option<Q>>(
    reached: Seq<ReachedSubchunk<Q>>,
    subchunks: Map<u128, SubchunkConnectivity>,
    loaded: Set<u64>,
    options: CullingOptions,
    gate: G,
    i: int,
) -> bool {
    expands(options.check_unflipped, reached[i].flipping) ==> forall|d: AxisDirection|
        #[trigger] step_explored(reached, subchunks, loaded, options, gate, i, d)
}

/// The `k`-th direction the search tries.
pub open spec fn try_order(k: int) -> AxisDirection {
    if k == 0 {
        AxisDirection::West
    } else if k == 1 {
        AxisDirection::East
    } else if k == 2 {
        AxisDirection::North
    } else if k == 3 {
        AxisDirection::South
    } else if k == 4 {
        AxisDirection::Down
    } else {
        AxisDirection::Up
    }
}

/// What a search reports besides the subchunks drawn.
pub struct DebugOutput {
    /// The number of subchunks with data that were not drawn.
    pub subchunks_culled: usize,
    /// Each step of the search, from a subchunk to the neighbour it reached.
    pub subchunk_traversal_graph: Vec<(SubchunkPos, SubchunkPos)>,
}

impl Default for DebugOutput {
    fn default() -> (d: DebugOutput)
        ensures
            d.subchunks_culled == 0,
            d.subchunk_traversal_graph@ == Seq::<(SubchunkPos, SubchunkPos)>::empty(),
    {
        DebugOutput { subchunks_culled: 0, subchunk_traversal_graph: Vec::new() }
    }
}

/// The result of a search.
pub struct VisibleSubchunks<Q> {
    /// The subchunks to draw, in the order reached.
    pub rendered: Vec<SubchunkPos>,
    /// Every subchunk reached, in the order reached.
    pub reached: Vec<ReachedSubchunk<Q>>,
    pub debug: DebugOutput,
}

/// The keys of the positions in `s`.
pub open spec fn keys_of(s: Seq<SubchunkPos>) -> Set<u128> {
    s.map_values(|p: SubchunkPos| spec_subchunk_key(p)).to_set()
}

/// The subchunk keys the search can ever reach besides the start: a section from 0 to
/// `MAX_SECTION_Y` in one of the columns listed.
spec fn reach_bound(columns: Seq<(i32, i32)>) -> Set<u128> {
    set_int_range(0, columns.len() * sections_per_column()).map(
        |t: int|
            spec_subchunk_key(
                SubchunkPos {
                    x: columns[t / sections_per_column()].0,
                    y: (t % sections_per_column()) as i32,
                    z: columns[t / sections_per_column()].1,
                },
            ),
    )
}

proof fn lemma_reach_bound(columns: Seq<(i32, i32)>, loaded: Set<u64>, p: SubchunkPos)
    requires
        forall|k: u64|
            loaded.contains(k) ==> exists|i: int|
                0 <= i < columns.len() && k == #[trigger] spec_column_key(columns[i].0, columns[i].1),
        enterable(loaded, p),
    ensures
        reach_bound(columns).contains(spec_subchunk_key(p)),
        reach_bound(columns).finite(),
        reach_bound(columns).len() <= columns.len() * sections_per_column(),
{
    let n = columns.len() * sections_per_column();
    lemma_int_range(0, n);
    lemma_map_size_bound(
        set_int_range(0, n),
        reach_bound(columns),
        |t: int|
            spec_subchunk_key(
                SubchunkPos {
                    x: columns[t / sections_per_column()].0,
                    y: (t % sections_per_column()) as i32,
                    z: columns[t / sections_per_column()].1,
                },
            ),
    );
    let k = spec_column_key(p.x, p.z);
    let i = choose|i: int| 0 <= i < columns.len() && k == #[trigger] spec_column_key(columns[i].0, columns[i].1);
    lemma_column_key_injective(p.x, p.z, columns[i].0, columns[i].1);
    let t = i * sections_per_column() + p.y;
    lemma_fundamental_div_mod_converse(t, sections_per_column(), i, p.y as int);
    assert(0 <= t < n) by (nonlinear_arith)
        requires
            0 <= i < columns.len(),
            0 <= p.y < sections_per_column(),
            t == i * sections_per_column() + p.y,
            n == columns.len() * sections_per_column(),
            sections_per_column() == 25,
    ;
    assert(set_int_range(0, n).contains(t));
}

/// Distinct positions with data leave the rest of the data's keys uncounted.
proof fn lemma_culled_count(dom: Set<u128>, rendered: Seq<SubchunkPos>)
    requires
        dom.finite(),
        forall|i: int| 0 <= i < rendered.len() ==> dom.contains(#[trigger] spec_subchunk_key(rendered[i])),
        forall|i: int, j: int| 0 <= i < j < rendered.len() ==> rendered[i] != rendered[j],
    ensures
        keys_of(rendered).len() == rendered.len(),
        rendered.len() <= dom.len(),
        dom.difference(keys_of(rendered)).len() == dom.len() - rendered.len(),
{
    let ks = rendered.map_values(|p: SubchunkPos| spec_subchunk_key(p));
    assert forall|i: int, j: int| 0 <= i < ks.len() && 0 <= j < ks.len() && i != j implies ks[i] != ks[j] by {
        lemma_subchunk_key_injective(rendered[i], rendered[j]);
    }
    assert(ks.no_duplicates());
    ks.unique_seq_to_set();
    assert(keys_of(rendered).subset_of(dom));
    lemma_len_subset(keys_of(rendered), dom);
    assert(dom.intersect(keys_of(rendered)) =~= keys_of(rendered));
    vstd::set_lib::lemma_set_difference_len(dom, keys_of(rendered));
}

/// Extending a search keeps what held of its earlier entries.
proof fn lemma_search_extends<Q, G: Fn(Q, SubchunkPos, AxisDirection) -> Option<Q>>(
    old: Seq<ReachedSubchunk<Q>>,
    new: Seq<ReachedSubchunk<Q>>,
    subchunks: Map<u128, SubchunkConnectivity>,
    loaded: Set<u64>,
    options: CullingOptions,
    gate: G,
    upto: int,
)
    requires
        old.len() <= new.len(),
        forall|k: int| 0 <= k < old.len() ==> new[k] == old[k],
        0 <= upto <= old.len(),
        forall|i: int| 0 <= i < upto ==> #[trigger] explored(old, subchunks, loaded, options, gate, i),
        forall|i: int| 1 <= i < old.len() ==> #[trigger] reached_by_allowed_step(old, subchunks, loaded, options, gate, i),
    ensures
        forall|i: int| 0 <= i < upto ==> #[trigger] explored(new, subchunks, loaded, options, gate, i),
        forall|i: int| 1 <= i < old.len() ==> #[trigger] reached_by_allowed_step(new, subchunks, loaded, options, gate, i),
        forall|p: SubchunkPos| is_reached(old, p) ==> is_reached(new, p),
{
    assert forall|p: SubchunkPos| is_reached(old, p) implies is_reached(new, p) by {
        let k = choose|k: int| 0 <= k < old.len() && #[trigger] old[k].pos == p;
        assert(new[k].pos == p);
    }
    assert forall|i: int| 0 <= i < upto implies #[trigger] explored(new, subchunks, loaded, options, gate, i) by {
        assert(explored(old, subchunks, loaded, options, gate, i));
        if expands(options.check_unflipped, new[i].flipping) {
            assert forall|d: AxisDirection| #[trigger] step_explored(new, subchunks, loaded, options, gate, i, d) by {
                assert(step_explored(old, subchunks, loaded, options, gate, i, d));
                assert forall|b: SubchunkPos|
                    #![trigger neighbour_in(new[i].pos, b, d)]
                    neighbour_in(new[i].pos, b, d) && enterable(loaded, b) && passes_through(subchunks, options, new[i], d)
                    implies is_reached(new, b) || gate.ensures((new[i].gate_state, b, d), None) by {
                    assert(neighbour_in(old[i].pos, b, d));
                    if is_reached(old, b) {
                        let k = choose|k: int| 0 <= k < old.len() && #[trigger] old[k].pos == b;
                        assert(new[k].pos == b);
                    }
                }
            }
        }
    }
    assert forall|i: int| 1 <= i < old.len() implies #[trigger] reached_by_allowed_step(new, subchunks, loaded, options, gate, i) by {
        assert(reached_by_allowed_step(old, subchunks, loaded, options, gate, i));
        assert(new[i] == old[i]);
        assert(new[old[i].parent as int] == old[old[i].parent as int]);
    }
}

/// Walks the subchunks visible from `start`, breadth first, and returns those to draw, in the
/// order reached.
///
/// From each subchunk reached (unless it was reached by turning back along an axis and
/// `check_unflipped` is on) the search tries the six neighbours, west, east, north, south, down
/// and up in that order. A neighbour is entered when its
/// section lies in the world, its column and the four around it are loaded, it was not reached
/// before, `check_connectivity` is off or the subchunk it is left from has no data or connects
/// the face it was entered by to the face towards the neighbour, and `gate` accepts it. `gate`
/// holds the checks that need the camera (how far the search has turned back, the view
/// frustum): given the state carried by the subchunk being left, it returns the neighbour's
/// state, or `None` to refuse it; it must have no side effects. A subchunk reached is drawn if
/// `subchunks` has data for it, until `max_render_chunks` have been drawn, when the search stops.
pub fn for_each_visible_subchunk<Q: Copy, G: Fn(Q, SubchunkPos, AxisDirection) -> Option<Q>>(
    start: SubchunkPos,
    start_state: Q,
    subchunks: &HashMap<u128, SubchunkConnectivity>,
    loaded_chunks: &[(i32, i32)],
    options: &CullingOptions,
    gate: G,
) -> (r: VisibleSubchunks<Q>)
    requires
        i32::MIN < start.x < i32::MAX,
        i32::MIN < start.y < i32::MAX,
        i32::MIN < start.z < i32::MAX,
        forall|q: Q, p: SubchunkPos, d: AxisDirection| gate.requires((q, p, d)),
    ensures
        ({
            let loaded = Set::new(
                |k: u64|
                    exists|i: int|
                        0 <= i < loaded_chunks@.len() && k == #[trigger] spec_column_key(
                            loaded_chunks@[i].0,
                            loaded_chunks@[i].1,
                        ),
            );
            let reached = r.reached@;
            let rendered = r.rendered@;
            &&& search_tree(reached, start, start_state, subchunks@, loaded, *options, gate)
            &&& breadth_first(reached)
            &&& siblings_in_try_order(reached)
            &&& drawn_in_search_order(reached, subchunks@, rendered)
            &&& forall|i: int|
                0 <= i < reached.len() && drawn_up_to(reached, subchunks@, rendered, i)
                    ==> #[trigger] explored(reached, subchunks@, loaded, *options, gate, i)
            &&& r.debug.subchunk_traversal_graph@.len() + 1 == reached.len()
            &&& forall|j: int|
                0 <= j < r.debug.subchunk_traversal_graph@.len()
                    ==> #[trigger] r.debug.subchunk_traversal_graph@[j] == (
                    reached[reached[j + 1].parent as int].pos,
                    reached[j + 1].pos,
                )
            &&& rendered.len() <= options.max_render_chunks
            &&& forall|i: int|
                0 <= i < rendered.len() ==> subchunks@.contains_key(
                    #[trigger] spec_subchunk_key(rendered[i]),
                ) && is_reached(reached, rendered[i])
            &&& forall|i: int, j: int| 0 <= i < j < rendered.len() ==> rendered[i] != rendered[j]
            &&& r.debug.subchunks_culled == subchunks@.dom().difference(keys_of(rendered)).len()
            &&& rendered.len() < options.max_render_chunks ==> {
                &&& forall|i: int|
                    0 <= i < reached.len() && subchunks@.contains_key(
                        spec_subchunk_key(#[trigger] reached[i].pos),
                    ) ==> rendered.contains(reached[i].pos)
                &&& forall|i: int|
                    0 <= i < reached.len() ==> #[trigger] explored(
                        reached,
                        subchunks@,
                        loaded,
                        *options,
                        gate,
                        i,
                    )
            }
        }),
{
    let mut loaded: HashSet<u64> = HashSet::new();
    let mut c: usize = 0;
    while c < loaded_chunks.len()
        invariant
            c <= loaded_chunks@.len(),
            forall|k: u64|
                loaded@.contains(k) <==> exists|i: int|
                    0 <= i < c && k == #[trigger] spec_column_key(
                        loaded_chunks@[i].0,
                        loaded_chunks@[i].1,
                    ),
        decreases loaded_chunks@.len() - c,
    {
        let (x, z) = loaded_chunks[c];
        loaded.insert(column_key(x, z));
        proof {
            assert forall|k: u64|
                loaded@.contains(k) implies exists|i: int|
                    0 <= i < c + 1 && k == #[trigger] spec_column_key(
                        loaded_chunks@[i].0,
                        loaded_chunks@[i].1,
                    ) by {
                if k == spec_column_key(x, z) {
                    assert(k == spec_column_key(loaded_chunks@[c as int].0, loaded_chunks@[c as int].1));
                }
            }
        }
        c = c + 1;
    }
    let ghost columns = loaded_chunks@;
    let ghost bound: int = columns.len() * sections_per_column() + 1;
    proof {
        let lset = Set::new(
            |k: u64|
                exists|i: int|
                    0 <= i < loaded_chunks@.len() && k == #[trigger] spec_column_key(
                        loaded_chunks@[i].0,
                        loaded_chunks@[i].1,
                    ),
        );
        assert(loaded@ =~= lset);
        assert(columns.len() * sections_per_column() >= 0) by (nonlinear_arith)
            requires
                sections_per_column() == 25,
        ;
    }
    let mut queue: Vec<ReachedSubchunk<Q>> = Vec::new();
    queue.push(
        ReachedSubchunk {
            pos: start,
            parent: 0,
            from_dir: None,
            flipping: FlippingState::Unflipped { x_positive: None, y_positive: None, z_positive: None },
            gate_state: start_state,
        },
    );
    let mut visited: HashSet<u128> = HashSet::new();
    visited.insert(subchunk_key(start));
    let mut graph: Vec<(SubchunkPos, SubchunkPos)> = Vec::new();
    let mut rendered: Vec<SubchunkPos> = Vec::new();
    let ghost mut rendered_at: Seq<int> = Seq::empty();
    let mut head: usize = 0;
    let mut stopped = false;
    proof {
        assert(visited@ =~= Set::empty().insert(spec_subchunk_key(start)));
        assert forall|k: u128|
            visited@.contains(k) <==> exists|i: int|
                0 <= i < queue@.len() && k == #[trigger] spec_subchunk_key(queue@[i].pos) by {
            if k == spec_subchunk_key(start) {
                assert(k == spec_subchunk_key(queue@[0].pos));
            }
        }
    }
    while head < queue.len() && !stopped
        invariant
            forall|k: u64|
                loaded@.contains(k) <==> exists|i: int|
                    0 <= i < columns.len() && k == #[trigger] spec_column_key(
                        columns[i].0,
                        columns[i].1,
                    ),
            columns == loaded_chunks@,
            bound == columns.len() * sections_per_column() + 1,
            forall|q: Q, p: SubchunkPos, d: AxisDirection| gate.requires((q, p, d)),
            search_tree(queue@, start, start_state, subchunks@, loaded@, *options, gate),
            breadth_first(queue@),
            siblings_in_try_order(queue@),
            forall|i: int| 1 <= i < queue@.len() ==> #[trigger] queue@[i].parent < head,
            forall|i: int, k: int|
                #![trigger rendered_at[k], queue@[i]]
                0 <= k < rendered_at.len() && 0 <= i < rendered_at[k] && subchunks@.contains_key(
                    spec_subchunk_key(queue@[i].pos),
                ) ==> rendered@.contains(queue@[i].pos),
            1 <= queue@.len() <= bound,
            head <= queue@.len(),
            i32::MIN < start.x < i32::MAX,
            i32::MIN < start.y < i32::MAX,
            i32::MIN < start.z < i32::MAX,
            forall|k: u128|
                visited@.contains(k) <==> exists|i: int|
                    0 <= i < queue@.len() && k == #[trigger] spec_subchunk_key(queue@[i].pos),
            visited@.finite(),
            visited@.len() == queue@.len(),
            graph@.len() + 1 == queue@.len(),
            forall|j: int|
                0 <= j < graph@.len() ==> #[trigger] graph@[j] == (
                    queue@[queue@[j + 1].parent as int].pos,
                    queue@[j + 1].pos,
                ),
            forall|i: int| 0 <= i < head ==> #[trigger] explored(queue@, subchunks@, loaded@, *options, gate, i),
            rendered@.len() == rendered_at.len(),
            rendered@.len() <= options.max_render_chunks,
            forall|i: int|
                0 <= i < rendered_at.len() ==> 0 <= #[trigger] rendered_at[i] < head
                    && rendered@[i] == queue@[rendered_at[i]].pos,
            forall|i: int, j: int|
                0 <= i < j < rendered_at.len() ==> rendered_at[i] < rendered_at[j],
            forall|i: int|
                0 <= i < rendered@.len() ==> subchunks@.contains_key(
                    #[trigger] spec_subchunk_key(rendered@[i]),
                ),
            stopped ==> rendered@.len() == options.max_render_chunks,
            stopped ==> 1 <= head && subchunks@.contains_key(spec_subchunk_key(queue@[head - 1].pos))
                && !rendered@.contains(queue@[head - 1].pos),
            !stopped ==> forall|i: int|
                0 <= i < head && subchunks@.contains_key(spec_subchunk_key(#[trigger] queue@[i].pos))
                    ==> rendered@.contains(queue@[i].pos),
        decreases bound - head,
    {
        let ghost q0 = queue@;
        proof {
            assert(forall|i: int, k: int|
                #![trigger rendered_at[k], q0[i]]
                0 <= k < rendered_at.len() && 0 <= i < rendered_at[k] && subchunks@.contains_key(
                    spec_subchunk_key(q0[i].pos),
                ) ==> rendered@.contains(q0[i].pos));
            assert(forall|i: int|
                0 <= i < head && subchunks@.contains_key(spec_subchunk_key(#[trigger] q0[i].pos))
                    ==> rendered@.contains(q0[i].pos));
        }
        let entry = queue[head];
        let pos = entry.pos;
        let connectivity = subchunks.get(&subchunk_key(pos));
        let (expand, cur): (bool, (Option<bool>, Option<bool>, Option<bool>)) = match entry.flipping {
            FlippingState::Unflipped { x_positive, y_positive, z_positive } => {
                if options.check_unflipped {
                    (true, (x_positive, y_positive, z_positive))
                } else {
                    (true, (None, None, None))
                }
            },
            FlippingState::Flipped => (!options.check_unflipped, (None, None, None)),
        };
        let mut n: usize = 0;
        while expand && n < 6
            invariant
                forall|k: u64|
                    loaded@.contains(k) <==> exists|i: int|
                        0 <= i < columns.len() && k == #[trigger] spec_column_key(
                            columns[i].0,
                            columns[i].1,
                        ),
                bound == columns.len() * sections_per_column() + 1,
                forall|q: Q, p: SubchunkPos, d: AxisDirection| gate.requires((q, p, d)),
                search_tree(queue@, start, start_state, subchunks@, loaded@, *options, gate),
                breadth_first(queue@),
                siblings_in_try_order(queue@),
                forall|i: int| 1 <= i < queue@.len() ==> #[trigger] queue@[i].parent <= head,
                forall|i: int|
                    1 <= i < queue@.len() && #[trigger] queue@[i].parent == head ==> try_rank(
                        queue@[i].from_dir->0.spec_invert(),
                    ) < n,
                1 <= queue@.len() <= bound,
                head < queue@.len(),
                q0.len() <= queue@.len(),
                forall|k: int| 0 <= k < q0.len() ==> queue@[k] == q0[k],
                queue@[head as int] == entry,
                entry.pos == pos,
                expand == expands(options.check_unflipped, entry.flipping),
                cur == carried_travel(options.check_unflipped, entry.flipping),
                match connectivity {
                    Some(v) => subchunks@.contains_key(spec_subchunk_key(pos)) && subchunks@[spec_subchunk_key(pos)] == *v,
                    None => !subchunks@.contains_key(spec_subchunk_key(pos)),
                },
                n <= 6,
                i32::MIN < start.x < i32::MAX,
                i32::MIN < start.y < i32::MAX,
                i32::MIN < start.z < i32::MAX,
                forall|k: u128|
                    visited@.contains(k) <==> exists|i: int|
                        0 <= i < queue@.len() && k == #[trigger] spec_subchunk_key(queue@[i].pos),
                visited@.finite(),
                visited@.len() == queue@.len(),
                graph@.len() + 1 == queue@.len(),
                forall|j: int|
                    0 <= j < graph@.len() ==> #[trigger] graph@[j] == (
                        queue@[queue@[j + 1].parent as int].pos,
                        queue@[j + 1].pos,
                    ),
                forall|i: int| 0 <= i < head ==> #[trigger] explored(queue@, subchunks@, loaded@, *options, gate, i),
                forall|k: int| 0 <= k < n ==> #[trigger] step_explored(queue@, subchunks@, loaded@, *options, gate, head as int, try_order(k)),
                forall|i: int|
                    0 <= i < rendered_at.len() ==> 0 <= #[trigger] rendered_at[i] < head
                        && rendered@[i] == queue@[rendered_at[i]].pos,
            decreases 6 - n,
        {
            let to_dir = if n == 0 {
                AxisDirection::West
            } else if n == 1 {
                AxisDirection::East
            } else if n == 2 {
                AxisDirection::North
            } else if n == 3 {
                AxisDirection::South
            } else if n == 4 {
                AxisDirection::Down
            } else {
                AxisDirection::Up
            };
            let ghost old_queue = queue@;
            proof {
                if head > 0 {
                    assert(reached_by_allowed_step(queue@, subchunks@, loaded@, *options, gate, head as int));
                }
            }
            let next = neighbour(pos, to_dir);
            let y_ok = 0 <= next.y && next.y <= MAX_SECTION_Y;
            let through = match entry.from_dir {
                Some(fd) => {
                    if options.check_connectivity {
                        match connectivity {
                            Some(conn) => conn.connects(&fd, &to_dir),
                            None => true,
                        }
                    } else {
                        true
                    }
                },
                None => true,
            };
            if y_ok && through && is_column_visible(&loaded, next.x, next.z) {
                let key = subchunk_key(next);
                if !visited.contains(&key) {
                    let answer = gate(entry.gate_state, next, to_dir);
                    match answer {
                        Some(state) => {
                            let ghost old_visited = visited@;
                            proof {
                                lemma_reach_bound(columns, loaded@, next);
                                assert forall|i: int| 0 <= i < old_queue.len() implies old_queue[i].pos != next by {
                                    if old_queue[i].pos == next {
                                        assert(visited@.contains(spec_subchunk_key(old_queue[i].pos)));
                                    }
                                }
                                assert(visited@.subset_of(reach_bound(columns).insert(spec_subchunk_key(start)))) by {
                                    assert forall|k: u128| visited@.contains(k) implies reach_bound(columns).insert(spec_subchunk_key(start)).contains(k) by {
                                        let i = choose|i: int| 0 <= i < queue@.len() && k == #[trigger] spec_subchunk_key(queue@[i].pos);
                                        if i >= 1 {
                                            assert(reached_by_allowed_step(queue@, subchunks@, loaded@, *options, gate, i));
                                            lemma_reach_bound(columns, loaded@, queue@[i].pos);
                                        }
                                    }
                                }
                                lemma_len_subset(visited@.insert(key), reach_bound(columns).insert(spec_subchunk_key(start)));
                            }
                            let flipping = next_flipping_state(cur, to_dir);
                            queue.push(
                                ReachedSubchunk {
                                    pos: next,
                                    parent: head,
                                    from_dir: Some(to_dir.invert()),
                                    flipping,
                                    gate_state: state,
                                },
                            );
                            visited.insert(key);
                            let ghost old_graph = graph@;
                            graph.push((pos, next));
                            proof {
                                assert forall|j: int|
                                    0 <= j < graph@.len() implies #[trigger] graph@[j] == (
                                        queue@[queue@[j + 1].parent as int].pos,
                                        queue@[j + 1].pos,
                                    ) by {
                                    if j < old_graph.len() {
                                        assert(graph@[j] == old_graph[j]);
                                        assert(reached_by_allowed_step(old_queue, subchunks@, loaded@, *options, gate, j + 1));
                                        assert(queue@[j + 1] == old_queue[j + 1]);
                                        assert(queue@[old_queue[j + 1].parent as int] == old_queue[old_queue[j + 1].parent as int]);
                                    }
                                }
                                lemma_search_extends(old_queue, queue@, subchunks@, loaded@, *options, gate, head as int);
                                assert(reached_by_allowed_step(queue@, subchunks@, loaded@, *options, gate, old_queue.len() as int));
                                assert forall|k: int| 0 <= k < n implies #[trigger] step_explored(queue@, subchunks@, loaded@, *options, gate, head as int, try_order(k)) by {
                                    assert(step_explored(old_queue, subchunks@, loaded@, *options, gate, head as int, try_order(k)));
                                    let d = try_order(k);
                                    assert forall|b: SubchunkPos|
                                        #![trigger neighbour_in(queue@[head as int].pos, b, d)]
                                        neighbour_in(queue@[head as int].pos, b, d) && enterable(loaded@, b) && passes_through(subchunks@, *options, queue@[head as int], d)
                                        implies is_reached(queue@, b) || gate.ensures((queue@[head as int].gate_state, b, d), None) by {
                                        assert(neighbour_in(old_queue[head as int].pos, b, d));
                                    }
                                }
                                assert(is_reached(queue@, next)) by {
                                    assert(queue@[old_queue.len() as int].pos == next);
                                }
                                assert forall|k: u128|
                                    visited@.contains(k) <==> exists|i: int|
                                        0 <= i < queue@.len() && k == #[trigger] spec_subchunk_key(queue@[i].pos) by {
                                    if visited@.contains(k) && k != key {
                                        let i = choose|i: int| 0 <= i < old_queue.len() && k == #[trigger] spec_subchunk_key(old_queue[i].pos);
                                        assert(queue@[i] == old_queue[i]);
                                    }
                                    if k == key {
                                        assert(k == spec_subchunk_key(queue@[old_queue.len() as int].pos));
                                    }
                                }
                            }
                        },
                        None => {},
                    }
                } else {
                    proof {
                        let i = choose|i: int| 0 <= i < queue@.len() && key == #[trigger] spec_subchunk_key(queue@[i].pos);
                        lemma_subchunk_key_injective(queue@[i].pos, next);
                        assert(is_reached(queue@, next));
                    }
                }
            }
            proof {
                let d = to_dir;
                assert(d == try_order(n as int));
                assert forall|b: SubchunkPos|
                    #![trigger neighbour_in(queue@[head as int].pos, b, d)]
                    neighbour_in(queue@[head as int].pos, b, d) && enterable(loaded@, b) && passes_through(subchunks@, *options, queue@[head as int], d)
                    implies is_reached(queue@, b) || gate.ensures((queue@[head as int].gate_state, b, d), None) by {
                    assert(b == next);
                }
                assert(step_explored(queue@, subchunks@, loaded@, *options, gate, head as int, try_order(n as int)));
            }
            n = n + 1;
        }
        proof {
            if expand {
                assert forall|d: AxisDirection| #[trigger] step_explored(queue@, subchunks@, loaded@, *options, gate, head as int, d) by {
                    if d == AxisDirection::West {
                        assert(step_explored(queue@, subchunks@, loaded@, *options, gate, head as int, try_order(0)));
                    } else if d == AxisDirection::East {
                        assert(step_explored(queue@, subchunks@, loaded@, *options, gate, head as int, try_order(1)));
                    } else if d == AxisDirection::North {
                        assert(step_explored(queue@, subchunks@, loaded@, *options, gate, head as int, try_order(2)));
                    } else if d == AxisDirection::South {
                        assert(step_explored(queue@, subchunks@, loaded@, *options, gate, head as int, try_order(3)));
                    } else if d == AxisDirection::Down {
                        assert(step_explored(queue@, subchunks@, loaded@, *options, gate, head as int, try_order(4)));
                    } else {
                        assert(step_explored(queue@, subchunks@, loaded@, *options, gate, head as int, try_order(5)));
                    }
                }
            }
            assert(explored(queue@, subchunks@, loaded@, *options, gate, head as int));
        }
        let ghost old_rendered = rendered@;
        let ghost old_rendered_at = rendered_at;
        match connectivity {
            Some(_) => {
                if rendered.len() >= options.max_render_chunks {
                    stopped = true;
                } else {
                    proof {
                        rendered_at = rendered_at.push(head as int);
                    }
                    rendered.push(pos);
                    proof {
                        assert(rendered@[rendered@.len() - 1] == pos);
                    }
                }
            },
            None => {},
        }
        proof {
            if stopped {
                if rendered@.contains(queue@[head as int].pos) {
                    let m = choose|m: int| 0 <= m < rendered@.len() && rendered@[m] == queue@[head as int].pos;
                    assert(rendered@[m] == queue@[rendered_at[m]].pos);
                    assert(rendered_at[m] < head);
                    assert(false);
                }
            }
            if !stopped {
                assert forall|i: int|
                    0 <= i < head + 1 && subchunks@.contains_key(spec_subchunk_key(#[trigger] queue@[i].pos))
                    implies rendered@.contains(queue@[i].pos) by {
                    if i < head {
                        assert(queue@[i] == q0[i]);
                        assert(old_rendered.contains(q0[i].pos));
                        let k = choose|k: int| 0 <= k < old_rendered.len() && old_rendered[k] == queue@[i].pos;
                        assert(rendered@[k] == queue@[i].pos);
                    } else {
                        assert(rendered@[rendered@.len() - 1] == queue@[i].pos);
                    }
                }
            }
        }
        proof {
            assert forall|i: int, k: int|
                #![trigger rendered_at[k], queue@[i]]
                0 <= k < rendered_at.len() && 0 <= i < rendered_at[k] && subchunks@.contains_key(
                    spec_subchunk_key(queue@[i].pos),
                ) implies rendered@.contains(queue@[i].pos) by {
                assert(queue@[i] == q0[i]);
                if k < old_rendered_at.len() {
                    assert(rendered_at[k] == old_rendered_at[k]);
                    assert(old_rendered.contains(q0[i].pos));
                    let m = choose|m: int| 0 <= m < old_rendered.len() && old_rendered[m] == q0[i].pos;
                    assert(rendered@[m] == q0[i].pos);
                } else {
                    assert(rendered_at[k] == head);
                    assert(old_rendered.contains(q0[i].pos));
                    let m = choose|m: int| 0 <= m < old_rendered.len() && old_rendered[m] == q0[i].pos;
                    assert(rendered@[m] == q0[i].pos);
                }
            }
        }
        head = head + 1;
    }
    proof {
        assert forall|i: int, j: int|
            #![trigger queue@[i], queue@[j]]
            0 <= i < j < queue@.len() && subchunks@.contains_key(spec_subchunk_key(queue@[i].pos))
                && rendered@.contains(queue@[j].pos) implies rendered@.contains(queue@[i].pos) by {
            let m = choose|m: int| 0 <= m < rendered@.len() && rendered@[m] == queue@[j].pos;
            assert(rendered@[m] == queue@[rendered_at[m]].pos);
            assert(rendered_at[m] == j);
        }
        assert forall|i: int|
            0 <= i < queue@.len() && drawn_up_to(queue@, subchunks@, rendered@, i)
                implies #[trigger] explored(queue@, subchunks@, loaded@, *options, gate, i) by {
            if i >= head {
                if stopped {
                    let k = head - 1;
                    assert(subchunks@.contains_key(spec_subchunk_key(queue@[k].pos)));
                }
            }
        }
        assert forall|i: int, j: int| 0 <= i < j < rendered@.len() implies rendered@[i] != rendered@[j] by {
            assert(rendered_at[i] < rendered_at[j]);
        }
        assert forall|i: int| 0 <= i < rendered@.len() implies is_reached(queue@, rendered@[i]) by {
            assert(queue@[rendered_at[i]].pos == rendered@[i]);
        }
        lemma_culled_count(subchunks@.dom(), rendered@);
    }
    let subchunks_culled = subchunks.len() - rendered.len();
    VisibleSubchunks {
        rendered,
        reached: queue,
        debug: DebugOutput { subchunks_culled, subchunk_traversal_graph: graph },
    }
}


/// How the flipping state follows a step in direction `d` (offset `dir_offset(d)`): the path
/// flips exactly when the step goes against the sign it already travelled on the step's axis
/// (say up then down); otherwise the step's axis records the step's sign and the other axes
/// keep theirs.
pub proof fn lemma_flipping_follows_steps(cur: (Option<bool>, Option<bool>, Option<bool>), d: AxisDirection)
    ensures
        ({
            let (dx, dy, dz) = dir_offset(d);
            let against = (dx != 0 && cur.0 is Some && cur.0->0 != (dx > 0)) || (dy != 0
                && cur.1 is Some && cur.1->0 != (dy > 0)) || (dz != 0 && cur.2 is Some && cur.2->0
                != (dz > 0));
            &&& against ==> spec_next_flipping(cur, d) == FlippingState::Flipped
            &&& !against ==> spec_next_flipping(cur, d) == FlippingState::Unflipped {
                x_positive: if dx != 0 { Some(dx > 0) } else { cur.0 },
                y_positive: if dy != 0 { Some(dy > 0) } else { cur.1 },
                z_positive: if dz != 0 { Some(dz > 0) } else { cur.2 },
            }
        }),
{
}

} // verus!
