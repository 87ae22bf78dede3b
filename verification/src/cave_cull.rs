use vstd::prelude::*;
use crate::direction::AxisDirection;
use crate::connectivity::{FaceSet, SubchunkConnectivity, lemma_connectivity_extremes};
use crate::bitset::{fixed_bit_set_contents, fixed_bit_set_len, bitset_with_capacity, bitset_insert, bitset_remove, bitset_contains, bitset_is_clear, bitset_minimum};
use fixedbitset::FixedBitSet;

verus! {

/// Number of blocks in a subchunk (16 x 16 x 16). A block's cell index is
/// `y * 256 + z * 16 + x`.
pub const SUBCHUNK_CELLS: usize = 4096;

pub open spec fn cell_x(i: usize) -> int {
    (i % 16) as int
}

pub open spec fn cell_z(i: usize) -> int {
    ((i / 16) % 16) as int
}

pub open spec fn cell_y(i: usize) -> int {
    (i / 256) as int
}

/// Whether cells `i` and `j` of a subchunk share a face.
pub open spec fn adjacent(i: usize, j: usize) -> bool {
    &&& i < 4096
    &&& j < 4096
    &&& {
        ||| (cell_x(i) > 0 && j == i - 1)
        ||| (cell_x(i) < 15 && j == i + 1)
        ||| (cell_z(i) > 0 && j == i - 16)
        ||| (cell_z(i) < 15 && j == i + 16)
        ||| (cell_y(i) > 0 && j == i - 256)
        ||| (cell_y(i) < 15 && j == i + 256)
    }
}

/// Whether cell `i` lies against the subchunk face `f`.
pub open spec fn touches(i: usize, f: AxisDirection) -> bool {
    match f {
        AxisDirection::West => cell_x(i) == 0,
        AxisDirection::East => cell_x(i) == 15,
        AxisDirection::North => cell_z(i) == 0,
        AxisDirection::South => cell_z(i) == 15,
        AxisDirection::Down => cell_y(i) == 0,
        AxisDirection::Up => cell_y(i) == 15,
    }
}

/// A walk through non-opaque cells, each step to a face-sharing neighbour.
pub open spec fn valid_path(open: Seq<bool>, p: Seq<usize>) -> bool {
    &&& p.len() > 0
    &&& forall|k: int| 0 <= k < p.len() ==> (#[trigger] p[k]) < 4096 && open[p[k] as int]
    &&& forall|k: int| 0 <= k < p.len() - 1 ==> adjacent(#[trigger] p[k], p[k + 1])
}

/// Cell `b` can be reached from cell `a` through non-opaque cells.
pub open spec fn reachable(open: Seq<bool>, a: usize, b: usize) -> bool {
    exists|p: Seq<usize>| #[trigger] valid_path(open, p) && p[0] == a && p.last() == b
}

/// Faces `f1` and `f2` are joined by a region of non-opaque cells.
pub open spec fn linked_through(open: Seq<bool>, f1: AxisDirection, f2: AxisDirection) -> bool {
    exists|a: usize, b: usize|
        touches(a, f1) && touches(b, f2) && #[trigger] reachable_pair(open, a, b)
}

pub open spec fn reachable_pair(open: Seq<bool>, a: usize, b: usize) -> bool {
    reachable(open, a, b)
}

pub proof fn lemma_adjacent_symmetric(i: usize, j: usize)
    requires
        adjacent(i, j),
    ensures
        adjacent(j, i),
{
}

pub proof fn lemma_path_push(open: Seq<bool>, p: Seq<usize>, n: usize)
    requires
        valid_path(open, p),
        adjacent(p.last(), n),
        open[n as int],
    ensures
        valid_path(open, p.push(n)),
        p.push(n)[0] == p[0],
        p.push(n).last() == n,
{
    let q = p.push(n);
    assert forall|k: int| 0 <= k < q.len() - 1 implies adjacent(#[trigger] q[k], q[k + 1]) by {
        if k < p.len() - 1 {
            assert(q[k] == p[k] && q[k + 1] == p[k + 1]);
        }
    }
}

pub proof fn lemma_path_reverse(open: Seq<bool>, p: Seq<usize>) -> (r: Seq<usize>)
    requires
        valid_path(open, p),
    ensures
        valid_path(open, r),
        r[0] == p.last(),
        r.last() == p[0],
        r.len() == p.len(),
{
    let n = p.len() as int;
    let r = Seq::new(p.len(), |k: int| p[n - 1 - k]);
    assert forall|k: int| 0 <= k < r.len() - 1 implies adjacent(#[trigger] r[k], r[k + 1]) by {
        assert(r[k] == p[n - 1 - k]);
        assert(r[k + 1] == p[n - 2 - k]);
        assert(adjacent(p[n - 2 - k], p[n - 2 - k + 1]));
        lemma_adjacent_symmetric(p[n - 2 - k], p[n - 1 - k]);
    }
    assert forall|k: int| 0 <= k < r.len() implies (#[trigger] r[k]) < 4096 && open[r[k] as int] by {
        assert(r[k] == p[n - 1 - k]);
    }
    r
}

pub proof fn lemma_path_concat(open: Seq<bool>, p: Seq<usize>, q: Seq<usize>) -> (r: Seq<usize>)
    requires
        valid_path(open, p),
        valid_path(open, q),
        p.last() == q[0],
    ensures
        valid_path(open, r),
        r[0] == p[0],
        r.last() == q.last(),
    decreases q.len(),
{
    if q.len() == 1 {
        p
    } else {
        let p2 = p.push(q[1]);
        assert(adjacent(q[0], q[1]));
        lemma_path_push(open, p, q[1]);
        let q2 = q.drop_first();
        assert forall|k: int| 0 <= k < q2.len() implies (#[trigger] q2[k]) < 4096 && open[q2[k] as int] by {
            assert(q2[k] == q[k + 1]);
        }
        assert forall|k: int| 0 <= k < q2.len() - 1 implies adjacent(#[trigger] q2[k], q2[k + 1]) by {
            assert(q2[k] == q[k + 1] && q2[k + 1] == q[k + 2]);
        }
        lemma_path_concat(open, p2, q2)
    }
}

/// Reachability is symmetric and transitive.
pub proof fn lemma_reachable_join(open: Seq<bool>, s: usize, a: usize, b: usize, pa: Seq<usize>, pb: Seq<usize>)
    requires
        valid_path(open, pa),
        pa[0] == s,
        pa.last() == a,
        valid_path(open, pb),
        pb[0] == s,
        pb.last() == b,
    ensures
        reachable(open, a, b),
{
    let ra = lemma_path_reverse(open, pa);
    let r = lemma_path_concat(open, ra, pb);
}


/// The cell entered when leaving cell `c` through face `d`, or `None` when `c` lies against
/// that face of the subchunk.
pub open spec fn spec_step(c: usize, d: AxisDirection) -> Option<usize> {
    if touches(c, d) {
        None
    } else {
        Some(
            match d {
                AxisDirection::West => (c - 1) as usize,
                AxisDirection::East => (c + 1) as usize,
                AxisDirection::North => (c - 16) as usize,
                AxisDirection::South => (c + 16) as usize,
                AxisDirection::Down => (c - 256) as usize,
                AxisDirection::Up => (c + 256) as usize,
            },
        )
    }
}

pub proof fn lemma_step_adjacent(c: usize, d: AxisDirection)
    requires
        c < 4096,
    ensures
        spec_step(c, d) matches Some(n) ==> adjacent(c, n),
{
}

pub proof fn lemma_adjacent_has_step(c: usize, n: usize) -> (d: AxisDirection)
    requires
        adjacent(c, n),
    ensures
        spec_step(c, d) == Some(n),
{
    if cell_x(c) > 0 && n == c - 1 {
        AxisDirection::West
    } else if cell_x(c) < 15 && n == c + 1 {
        AxisDirection::East
    } else if cell_z(c) > 0 && n == c - 16 {
        AxisDirection::North
    } else if cell_z(c) < 15 && n == c + 16 {
        AxisDirection::South
    } else if cell_y(c) > 0 && n == c - 256 {
        AxisDirection::Down
    } else {
        AxisDirection::Up
    }
}

/// Some processed cell of group `k` lies against face `f`.
pub open spec fn group_touches(
    processed: Set<usize>,
    grp: Map<usize, nat>,
    k: nat,
    f: AxisDirection,
) -> bool {
    exists|c: usize| processed.contains(c) && grp[c] == k && #[trigger] touches(c, f)
}

/// Looks through face `d` of cell `c`: a face the fill escapes through is added to `faces`,
/// and a neighbouring cell that has not been checked yet is queued.
fn visit_neighbour(
    c: usize,
    d: AxisDirection,
    unchecked: &FixedBitSet,
    queued: &mut FixedBitSet,
    faces: &mut FaceSet,
)
    requires
        c < 4096,
        fixed_bit_set_len(*old(queued)) == 4096,
        fixed_bit_set_len(*unchecked) == 4096,
    ensures
        fixed_bit_set_len(*final(queued)) == 4096,
        spec_step(c, d) is None ==> {
            &&& fixed_bit_set_contents(*final(queued)) == fixed_bit_set_contents(*old(queued))
            &&& forall|f: AxisDirection| #[trigger]
                final(faces).spec_contains(f) == (old(faces).spec_contains(f) || f == d)
        },
        spec_step(c, d) matches Some(n) ==> {
            &&& *final(faces) == *old(faces)
            &&& fixed_bit_set_contents(*final(queued)) == if fixed_bit_set_contents(
                *unchecked,
            ).contains(n) {
                fixed_bit_set_contents(*old(queued)).insert(n)
            } else {
                fixed_bit_set_contents(*old(queued))
            }
        },
{
    let x = c % 16;
    let z = (c / 16) % 16;
    let y = c / 256;
    let next: Option<usize> = match d {
        AxisDirection::West => if x == 0 { None } else { Some(c - 1) },
        AxisDirection::East => if x == 15 { None } else { Some(c + 1) },
        AxisDirection::North => if z == 0 { None } else { Some(c - 16) },
        AxisDirection::South => if z == 15 { None } else { Some(c + 16) },
        AxisDirection::Down => if y == 0 { None } else { Some(c - 256) },
        AxisDirection::Up => if y == 15 { None } else { Some(c + 256) },
    };
    assert(next == spec_step(c, d));
    match next {
        None => faces.add_dir(d),
        Some(n) => {
            if bitset_contains(unchecked, n) {
                bitset_insert(queued, n);
            }
        },
    }
}

/// Any two faces of a group in the first `n` groups.
pub open spec fn groups_link(groups: Seq<FaceSet>, n: int, a: AxisDirection, b: AxisDirection) -> bool {
    exists|k: int| 0 <= k < n && #[trigger] groups[k].spec_contains(a) && groups[k].spec_contains(b)
}

/// Connects every pair of faces of `faces` in `conn`.
fn add_face_set_connections(conn: &mut SubchunkConnectivity, faces: FaceSet)
    requires
        old(conn).0 < 0x8000,
    ensures
        final(conn).0 < 0x8000,
        forall|a: AxisDirection, b: AxisDirection| #[trigger]
            final(conn).spec_connects(a, b) == (old(conn).spec_connects(a, b) || (
            faces.spec_contains(a) && faces.spec_contains(b))),
{
    let directions = faces.get_directions();
    let ghost start = *conn;
    let mut i: usize = 0;
    while i < 6
        invariant
            i <= 6,
            conn.0 < 0x8000,
            forall|m: int|
                0 <= m < 6 ==> {
                    &&& (#[trigger] directions[m]).0 == AxisDirection::spec_from_index(m as u8)
                    &&& directions[m].1 == faces.spec_contains(directions[m].0)
                },
            forall|a: AxisDirection, b: AxisDirection| #[trigger]
                conn.spec_connects(a, b) == (start.spec_connects(a, b) || (faces.spec_contains(a)
                    && faces.spec_contains(b) && (a.spec_index() < i || b.spec_index() < i))),
        decreases 6 - i,
    {
        let (face_1, face_1_in_set) = directions[i];
        if face_1_in_set {
            let mut j: usize = 0;
            while j < 6
                invariant
                    i < 6,
                    j <= 6,
                    conn.0 < 0x8000,
                    face_1 == AxisDirection::spec_from_index(i as u8),
                    faces.spec_contains(face_1),
                    forall|m: int|
                        0 <= m < 6 ==> {
                            &&& (#[trigger] directions[m]).0 == AxisDirection::spec_from_index(
                                m as u8,
                            )
                            &&& directions[m].1 == faces.spec_contains(directions[m].0)
                        },
                    forall|a: AxisDirection, b: AxisDirection| #[trigger]
                        conn.spec_connects(a, b) == (start.spec_connects(a, b) || (
                        faces.spec_contains(a) && faces.spec_contains(b) && (a.spec_index() < i
                            || b.spec_index() < i))
                            || (faces.spec_contains(b) && b.spec_index() < j && a == face_1) || (
                        faces.spec_contains(a) && a.spec_index() < j && b == face_1)),
                decreases 6 - j,
            {
                let (face_2, face_2_in_set) = directions[j];
                if face_2_in_set {
                    conn.add_connection(&face_1, &face_2);
                }
                j += 1;
            }
            assert forall|a: AxisDirection, b: AxisDirection| #[trigger]
                conn.spec_connects(a, b) == (start.spec_connects(a, b) || (faces.spec_contains(a)
                    && faces.spec_contains(b) && (a.spec_index() < i + 1 || b.spec_index() < i
                    + 1))) by {
                crate::direction::lemma_index_injective(a, face_1);
                crate::direction::lemma_index_injective(b, face_1);
            }
        } else {
            assert forall|a: AxisDirection, b: AxisDirection| #[trigger]
                conn.spec_connects(a, b) == (start.spec_connects(a, b) || (faces.spec_contains(a)
                    && faces.spec_contains(b) && (a.spec_index() < i + 1 || b.spec_index() < i
                    + 1))) by {
                crate::direction::lemma_index_injective(a, face_1);
                crate::direction::lemma_index_injective(b, face_1);
            }
        }
        i += 1;
    }
    assert forall|a: AxisDirection, b: AxisDirection| #[trigger]
        conn.spec_connects(a, b) == (start.spec_connects(a, b) || (faces.spec_contains(a)
            && faces.spec_contains(b))) by {
        crate::direction::lemma_index_injective(a, a);
    }
}

/// In a fully explored fill, a path never leaves the group of its first cell.
proof fn lemma_path_stays_in_group(
    open: Seq<bool>,
    p: Seq<usize>,
    processed: Set<usize>,
    grp: Map<usize, nat>,
)
    requires
        valid_path(open, p),
        processed.contains(p[0]),
        forall|a: usize, n: usize|
            #[trigger] processed.contains(a) && #[trigger] adjacent(a, n) && open[n as int]
                ==> processed.contains(n) && grp[n] == grp[a],
    ensures
        processed.contains(p.last()),
        grp[p.last()] == grp[p[0]],
    decreases p.len(),
{
    if p.len() > 1 {
        let q = p.drop_last();
        assert forall|k: int| 0 <= k < q.len() implies (#[trigger] q[k]) < 4096 && open[q[k] as int] by {
            assert(q[k] == p[k]);
        }
        assert forall|k: int| 0 <= k < q.len() - 1 implies adjacent(#[trigger] q[k], q[k + 1]) by {
            assert(q[k] == p[k] && q[k + 1] == p[k + 1]);
        }
        lemma_path_stays_in_group(open, q, processed, grp);
        let m = p.len() - 2;
        assert(q.last() == p[m]);
        assert(adjacent(p[m], p[m + 1]));
        assert(open[p[m + 1] as int]);
    }
}

/// Splits the non-opaque cells of a subchunk into face-connected groups by flood fill, and
/// records which pairs of subchunk faces some group touches together (the connected-face
/// generation of cave culling). `non_opaque[i]` tells whether cell `i` is not opaque.
pub fn compute_connectivity(non_opaque: &Vec<bool>) -> (c: SubchunkConnectivity)
    requires
        non_opaque.len() == 4096,
    ensures
        c.0 < 0x8000,
        forall|f1: AxisDirection, f2: AxisDirection|
            f1 != f2 ==> (#[trigger] c.spec_connects(f1, f2) == linked_through(
                non_opaque@,
                f1,
                f2,
            )),
{
    let ghost open = non_opaque@;
    let mut unchecked = bitset_with_capacity(4096);
    let mut i: usize = 0;
    while i < 4096
        invariant
            non_opaque.len() == 4096,
            i <= 4096,
            fixed_bit_set_len(unchecked) == 4096,
            fixed_bit_set_contents(unchecked).finite(),
            forall|j: usize| #[trigger]
                fixed_bit_set_contents(unchecked).contains(j) <==> (j < i && non_opaque@[j as int]),
        decreases 4096 - i,
    {
        if non_opaque[i] {
            bitset_insert(&mut unchecked, i);
        }
        i += 1;
    }
    let mut current_group_faces = FaceSet::empty();
    let mut group_faces: Vec<FaceSet> = Vec::new();
    let mut queued = bitset_with_capacity(4096);
    let ghost mut processed: Set<usize> = Set::empty();
    let ghost mut grp: Map<usize, nat> = Map::empty();
    let ghost mut seeds: Seq<usize> = seq![0usize];
    let ghost mut wit: Map<usize, Seq<usize>> = Map::empty();
    while !bitset_is_clear(&queued) || !bitset_is_clear(&unchecked)
        invariant
            non_opaque.len() == 4096,
            open == non_opaque@,
            fixed_bit_set_len(unchecked) == 4096,
            fixed_bit_set_len(queued) == 4096,
            fixed_bit_set_contents(unchecked).finite(),
            forall|j: usize| #[trigger]
                fixed_bit_set_contents(unchecked).contains(j) <==> (j < 4096 && open[j as int]
                    && !processed.contains(j)),
            forall|j: usize| #[trigger]
                fixed_bit_set_contents(queued).contains(j) ==> fixed_bit_set_contents(
                    unchecked,
                ).contains(j) && group_faces.len() >= 1,
            forall|j: usize| #[trigger] processed.contains(j) ==> j < 4096 && open[j as int],
            grp.dom() == processed,
            forall|j: usize| #[trigger]
                processed.contains(j) ==> 1 <= grp[j] <= group_faces.len(),
            seeds.len() == group_faces.len() + 1,
            forall|k: int, f: AxisDirection|
                0 <= k < group_faces.len() ==> (#[trigger] group_faces@[k].spec_contains(f)
                    <==> group_touches(processed, grp, k as nat, f)),
            forall|f: AxisDirection| #[trigger]
                current_group_faces.spec_contains(f) <==> group_touches(
                    processed,
                    grp,
                    group_faces.len() as nat,
                    f,
                ),
            forall|a: usize, n: usize|
                #[trigger] processed.contains(a) && #[trigger] adjacent(a, n) && open[n as int]
                    ==> ((processed.contains(n) && grp[n] == grp[a]) || (!processed.contains(n)
                    && grp[a] == group_faces.len() && fixed_bit_set_contents(queued).contains(
                    n,
                ))),
            forall|j: usize| #[trigger]
                wit.dom().contains(j) <==> (processed.contains(j) || fixed_bit_set_contents(
                    queued,
                ).contains(j)),
            forall|j: usize| #[trigger]
                wit.dom().contains(j) ==> valid_path(open, wit[j]) && wit[j].last() == j
                    && wit[j][0] == seeds[if processed.contains(j) {
                    grp[j] as int
                } else {
                    group_faces.len() as int
                }],
        decreases fixed_bit_set_contents(unchecked).len(),
    {
        let ghost u0 = fixed_bit_set_contents(unchecked);
        let ghost q0 = fixed_bit_set_contents(queued);
        let ghost mut new_group = false;
        let c: usize = match bitset_minimum(&queued) {
            Some(m) => {
                bitset_remove(&mut queued, m);
                m
            },
            None => {
                let m = match bitset_minimum(&unchecked) {
                    Some(m) => m,
                    None => {
                        assert(false);
                        0
                    },
                };
                proof {
                    // The current group is closed: start a new one seeded at `m`.
                    assert forall|a: usize, n: usize|
                        #[trigger] processed.contains(a) && #[trigger] adjacent(a, n) && open[n as int]
                            implies processed.contains(n) && grp[n] == grp[a] by {
                        assert(!fixed_bit_set_contents(queued).contains(n));
                    }
                    let g = group_faces.len();
                    assert forall|f: AxisDirection|
                        !#[trigger] group_touches(processed, grp, (g + 1) as nat, f) by {
                        if group_touches(processed, grp, (g + 1) as nat, f) {
                            let w = choose|w: usize|
                                processed.contains(w) && grp[w] == (g + 1) as nat && #[trigger] touches(w, f);
                        }
                    }
                    seeds = seeds.push(m);
                    wit = wit.insert(m, seq![m]);
                    new_group = true;
                }
                group_faces.push(current_group_faces);
                current_group_faces = FaceSet::empty();
                m
            },
        };
        let ghost g = group_faces.len();
        let ghost q1 = fixed_bit_set_contents(queued);
        let ghost faces1 = current_group_faces;
        proof {
            assert(u0.contains(c));
            assert(q1 == q0.remove(c));
            assert(wit.dom().contains(c));
            assert(wit[c][0] == seeds[g as int]);
            assert(!processed.contains(c));
        }
        bitset_remove(&mut unchecked, c);
        let ghost u1 = fixed_bit_set_contents(unchecked);
        visit_neighbour(c, AxisDirection::West, &unchecked, &mut queued, &mut current_group_faces);
        let ghost qa = fixed_bit_set_contents(queued);
        let ghost fa = current_group_faces;
        visit_neighbour(c, AxisDirection::East, &unchecked, &mut queued, &mut current_group_faces);
        let ghost qb = fixed_bit_set_contents(queued);
        let ghost fb = current_group_faces;
        visit_neighbour(c, AxisDirection::North, &unchecked, &mut queued, &mut current_group_faces);
        let ghost qc = fixed_bit_set_contents(queued);
        let ghost fc = current_group_faces;
        visit_neighbour(c, AxisDirection::South, &unchecked, &mut queued, &mut current_group_faces);
        let ghost qd = fixed_bit_set_contents(queued);
        let ghost fd = current_group_faces;
        visit_neighbour(c, AxisDirection::Down, &unchecked, &mut queued, &mut current_group_faces);
        let ghost qe = fixed_bit_set_contents(queued);
        let ghost fe = current_group_faces;
        visit_neighbour(c, AxisDirection::Up, &unchecked, &mut queued, &mut current_group_faces);
        proof {
            let qf = fixed_bit_set_contents(queued);
            // What the six looks added.
            assert forall|j: usize| #[trigger]
                qf.contains(j) == (q1.contains(j) || (u1.contains(j) && adjacent(c, j))) by {
                if adjacent(c, j) {
                    let d = lemma_adjacent_has_step(c, j);
                }
                lemma_step_adjacent(c, AxisDirection::West);
                lemma_step_adjacent(c, AxisDirection::East);
                lemma_step_adjacent(c, AxisDirection::North);
                lemma_step_adjacent(c, AxisDirection::South);
                lemma_step_adjacent(c, AxisDirection::Down);
                lemma_step_adjacent(c, AxisDirection::Up);
            }
            assert forall|f: AxisDirection| #[trigger]
                current_group_faces.spec_contains(f) == (faces1.spec_contains(f) || touches(c, f)) by {
            }
            let old_processed = processed;
            let old_grp = grp;
            let old_wit = wit;
            processed = processed.insert(c);
            grp = grp.insert(c, g as nat);
            wit = Map::new(
                |j: usize| old_wit.dom().contains(j) || qf.contains(j),
                |j: usize| if old_wit.dom().contains(j) { old_wit[j] } else { old_wit[c].push(j) },
            );
            assert(processed.contains(c));
            assert forall|j: usize| #[trigger]
                processed.contains(j) implies 1 <= grp[j] <= group_faces.len() by {
            }
            assert forall|k: int, f: AxisDirection|
                0 <= k < group_faces.len() implies (#[trigger] group_faces@[k].spec_contains(f)
                    <==> group_touches(processed, grp, k as nat, f)) by {
                if group_touches(processed, grp, k as nat, f) {
                    let w = choose|w: usize|
                        processed.contains(w) && grp[w] == k as nat && #[trigger] touches(w, f);
                    assert(w != c);
                    assert(old_processed.contains(w) && old_grp[w] == k as nat);
                    assert(group_touches(old_processed, old_grp, k as nat, f));
                }
                if group_touches(old_processed, old_grp, k as nat, f) {
                    let w = choose|w: usize|
                        old_processed.contains(w) && old_grp[w] == k as nat && #[trigger] touches(w, f);
                    assert(processed.contains(w) && grp[w] == k as nat);
                }
            }
            assert forall|f: AxisDirection| #[trigger]
                current_group_faces.spec_contains(f) <==> group_touches(
                    processed,
                    grp,
                    group_faces.len() as nat,
                    f,
                ) by {
                if group_touches(processed, grp, g as nat, f) {
                    let w = choose|w: usize|
                        processed.contains(w) && grp[w] == g as nat && #[trigger] touches(w, f);
                    if w != c {
                        assert(group_touches(old_processed, old_grp, g as nat, f));
                    }
                }
                if group_touches(old_processed, old_grp, g as nat, f) {
                    let w = choose|w: usize|
                        old_processed.contains(w) && old_grp[w] == g as nat && #[trigger] touches(w, f);
                    assert(processed.contains(w) && grp[w] == g as nat);
                }
                if touches(c, f) {
                    assert(processed.contains(c) && grp[c] == g as nat);
                }
            }
            assert forall|a: usize, n: usize|
                #[trigger] processed.contains(a) && #[trigger] adjacent(a, n) && open[n as int]
                    implies ((processed.contains(n) && grp[n] == grp[a]) || (!processed.contains(n)
                    && grp[a] == group_faces.len() && qf.contains(n))) by {
                if a == c {
                    lemma_adjacent_symmetric(a, n);
                    if old_processed.contains(n) {
                        assert(old_processed.contains(n) && adjacent(n, c) && open[c as int]);
                    } else if n != c {
                        assert(u1.contains(n));
                    }
                } else {
                    assert(old_processed.contains(a));
                    if n == c {
                    } else if !old_processed.contains(n) {
                        assert(q0.contains(n));
                    }
                }
            }
            assert forall|j: usize| #[trigger]
                wit.dom().contains(j) <==> (processed.contains(j) || qf.contains(j)) by {
            }
            assert forall|j: usize| #[trigger]
                wit.dom().contains(j) implies valid_path(open, wit[j]) && wit[j].last() == j
                    && wit[j][0] == seeds[if processed.contains(j) {
                    grp[j] as int
                } else {
                    group_faces.len() as int
                }] by {
                if old_wit.dom().contains(j) {
                    assert(wit[j] == old_wit[j]);
                } else {
                    assert(qf.contains(j) && !q1.contains(j));
                    assert(adjacent(c, j) && u1.contains(j));
                    lemma_path_push(open, old_wit[c], j);
                }
            }
        }
    }
    group_faces.push(current_group_faces);
    let ghost groups = group_faces@;
    let ghost n_groups = group_faces.len() as int;
    proof {
        assert forall|a: usize, n: usize|
            #[trigger] processed.contains(a) && #[trigger] adjacent(a, n) && open[n as int]
                implies processed.contains(n) && grp[n] == grp[a] by {
            assert(!fixed_bit_set_contents(queued).contains(n));
        }
        assert forall|k: int, f: AxisDirection|
            0 <= k < n_groups implies (#[trigger] groups[k].spec_contains(f)
                <==> group_touches(processed, grp, k as nat, f)) by {
        }
    }
    let mut subchunk_connectivity = SubchunkConnectivity::empty();
    let mut k: usize = 0;
    while k < group_faces.len()
        invariant
            k <= group_faces.len(),
            groups == group_faces@,
            subchunk_connectivity.0 < 0x8000,
            forall|a: AxisDirection, b: AxisDirection| #[trigger]
                subchunk_connectivity.spec_connects(a, b) == (a == b || groups_link(
                    groups,
                    k as int,
                    a,
                    b,
                )),
        decreases group_faces.len() - k,
    {
        let ghost before = subchunk_connectivity;
        add_face_set_connections(&mut subchunk_connectivity, group_faces[k]);
        assert forall|a: AxisDirection, b: AxisDirection| #[trigger]
            subchunk_connectivity.spec_connects(a, b) == (a == b || groups_link(
                groups,
                k + 1,
                a,
                b,
            )) by {
            if groups_link(groups, k + 1, a, b) {
                let w = choose|w: int|
                    0 <= w < k + 1 && #[trigger] groups[w].spec_contains(a) && groups[w].spec_contains(b);
                if w < k {
                    assert(groups_link(groups, k as int, a, b));
                }
            }
            if groups_link(groups, k as int, a, b) {
                let w = choose|w: int|
                    0 <= w < k && #[trigger] groups[w].spec_contains(a) && groups[w].spec_contains(b);
                assert(groups_link(groups, k + 1, a, b));
            }
        }
        k += 1;
    }
    proof {
        assert forall|f1: AxisDirection, f2: AxisDirection|
            f1 != f2 implies (#[trigger] subchunk_connectivity.spec_connects(f1, f2)
                == linked_through(open, f1, f2)) by {
            if groups_link(groups, n_groups, f1, f2) {
                let w = choose|w: int|
                    0 <= w < n_groups && #[trigger] groups[w].spec_contains(f1) && groups[w].spec_contains(f2);
                assert(group_touches(processed, grp, w as nat, f1));
                assert(group_touches(processed, grp, w as nat, f2));
                let c1 = choose|c1: usize|
                    processed.contains(c1) && grp[c1] == w as nat && #[trigger] touches(c1, f1);
                let c2 = choose|c2: usize|
                    processed.contains(c2) && grp[c2] == w as nat && #[trigger] touches(c2, f2);
                assert(wit.dom().contains(c1) && wit.dom().contains(c2));
                lemma_reachable_join(open, seeds[w], c1, c2, wit[c1], wit[c2]);
                assert(reachable_pair(open, c1, c2));
            }
            if linked_through(open, f1, f2) {
                let (a, b) = choose|a: usize, b: usize|
                    touches(a, f1) && touches(b, f2) && #[trigger] reachable_pair(open, a, b);
                let p = choose|p: Seq<usize>| #[trigger] valid_path(open, p) && p[0] == a && p.last() == b;
                assert(p[0] < 4096 && open[p[0] as int]);
                assert(!fixed_bit_set_contents(unchecked).contains(a));
                lemma_path_stays_in_group(open, p, processed, grp);
                let w = grp[a] as int;
                assert(group_touches(processed, grp, w as nat, f1));
                assert(group_touches(processed, grp, w as nat, f2));
                assert(groups[w].spec_contains(f1) && groups[w].spec_contains(f2));
                assert(groups_link(groups, n_groups, f1, f2));
            }
        }
    }
    subchunk_connectivity
}

} // verus!

verus! {

/// What the connectivity pass knows of a chunk section's palette: for a single-valued section
/// whether that block is opaque, for a palette whether each of its entries is opaque, or that
/// the section stores global indices directly.
pub enum PaletteOpacity {
    SingleValue(bool),
    Palette(Vec<bool>),
    Direct,
}

/// The connectivity a section gets: shortcuts for sections the palette shows to be wholly
/// opaque or wholly see-through, the flood fill otherwise.
pub open spec fn expected_connectivity(
    palette: PaletteOpacity,
    non_opaque: Seq<bool>,
    f1: AxisDirection,
    f2: AxisDirection,
) -> bool {
    match palette {
        PaletteOpacity::SingleValue(opaque) => !opaque,
        PaletteOpacity::Palette(entries) => if forall|k: int|
            0 <= k < entries.len() ==> !#[trigger] entries@[k] {
            true
        } else if forall|k: int| 0 <= k < entries.len() ==> #[trigger] entries@[k] {
            false
        } else {
            linked_through(non_opaque, f1, f2)
        },
        PaletteOpacity::Direct => linked_through(non_opaque, f1, f2),
    }
}

/// The connected faces of a subchunk (Minecraft-style cave culling), given what its palette
/// says of opacity and the per-cell non-opacity flags.
pub fn subchunk_connectivity(palette: &PaletteOpacity, non_opaque: &Vec<bool>) -> (c:
    SubchunkConnectivity)
    requires
        non_opaque.len() == 4096,
    ensures
        c.0 < 0x8000,
        forall|f1: AxisDirection, f2: AxisDirection|
            f1 != f2 ==> (#[trigger] c.spec_connects(f1, f2) == expected_connectivity(
                *palette,
                non_opaque@,
                f1,
                f2,
            )),
        (forall|f1: AxisDirection, f2: AxisDirection|
            f1 != f2 ==> !#[trigger] expected_connectivity(*palette, non_opaque@, f1, f2)) ==> c.0
            == 0,
        (forall|f1: AxisDirection, f2: AxisDirection|
            f1 != f2 ==> #[trigger] expected_connectivity(*palette, non_opaque@, f1, f2)) ==> c.0
            == 0x7FFF,
{
    match palette {
        PaletteOpacity::SingleValue(opaque) => {
            if *opaque {
                assert(!expected_connectivity(*palette, non_opaque@, AxisDirection::Down, AxisDirection::Up));
                return SubchunkConnectivity::empty();
            } else {
                assert(expected_connectivity(*palette, non_opaque@, AxisDirection::Down, AxisDirection::Up));
                return SubchunkConnectivity::full();
            }
        },
        PaletteOpacity::Palette(entries) => {
            let mut num_opaque: usize = 0;
            let mut k: usize = 0;
            while k < entries.len()
                invariant
                    k <= entries.len(),
                    num_opaque <= k,
                    (num_opaque == 0) == (forall|m: int| 0 <= m < k ==> !#[trigger] entries@[m]),
                    (num_opaque == k) == (forall|m: int| 0 <= m < k ==> #[trigger] entries@[m]),
                decreases entries.len() - k,
            {
                if entries[k] {
                    num_opaque += 1;
                } else {
                    assert(!entries@[k as int]);
                }
                k += 1;
            }
            if num_opaque == 0 {
                assert(expected_connectivity(*palette, non_opaque@, AxisDirection::Down, AxisDirection::Up));
                return SubchunkConnectivity::full();
            } else if num_opaque == entries.len() {
                assert(!expected_connectivity(*palette, non_opaque@, AxisDirection::Down, AxisDirection::Up));
                return SubchunkConnectivity::empty();
            }
        },
        PaletteOpacity::Direct => {},
    }
    let c = compute_connectivity(non_opaque);
    proof {
        lemma_connectivity_extremes(c);
        if forall|f1: AxisDirection, f2: AxisDirection|
            f1 != f2 ==> !#[trigger] expected_connectivity(*palette, non_opaque@, f1, f2) {
            assert forall|a: AxisDirection, b: AxisDirection| a != b implies !#[trigger] c.spec_connects(
                a,
                b,
            ) by {
                assert(!expected_connectivity(*palette, non_opaque@, a, b));
            }
        }
        if forall|f1: AxisDirection, f2: AxisDirection|
            f1 != f2 ==> #[trigger] expected_connectivity(*palette, non_opaque@, f1, f2) {
            assert forall|a: AxisDirection, b: AxisDirection| #[trigger] c.spec_connects(a, b) by {
                if a != b {
                    assert(expected_connectivity(*palette, non_opaque@, a, b));
                }
            }
        }
    }
    c
}

} // verus!
