use vstd::prelude::*;
use crate::direction::{AxisDirection, lemma_index_injective};

verus! {

/// First bit used by the pairs whose lower face has index `i`.
pub open spec fn row_start(i: u8) -> u16 {
    if i == 0 {
        0
    } else if i == 1 {
        5
    } else if i == 2 {
        9
    } else if i == 3 {
        12
    } else {
        14
    }
}

/// The bit of a connectivity set that records whether two distinct faces are connected.
/// Pairs are numbered in lexicographic order of (lower index, higher index):
/// Down-Up is bit 0, Down-North bit 1, ..., West-East bit 14.
pub open spec fn pair_bit(a: AxisDirection, b: AxisDirection) -> u16 {
    let ia = a.spec_index();
    let ib = b.spec_index();
    if ia < ib {
        (row_start(ia) + ib - ia - 1) as u16
    } else {
        (row_start(ib) + ia - ib - 1) as u16
    }
}

/// Whether bit `k` of `bits` is set.
pub open spec fn bit_is_set(bits: u16, k: u16) -> bool {
    bits & (1u16 << k) != 0
}

/// The two faces of the pair stored at bit `k` (`k < 15`).
pub open spec fn pair_at(k: u16) -> (AxisDirection, AxisDirection) {
    let (i, j): (u8, u8) = if k < 5 {
        (0, (k + 1) as u8)
    } else if k < 9 {
        (1, (k - 5 + 2) as u8)
    } else if k < 12 {
        (2, (k - 9 + 3) as u8)
    } else if k < 14 {
        (3, (k - 12 + 4) as u8)
    } else {
        (4, 5)
    };
    (AxisDirection::spec_from_index(i), AxisDirection::spec_from_index(j))
}

pub proof fn lemma_pair_bit_range(a: AxisDirection, b: AxisDirection)
    requires
        a != b,
    ensures
        pair_bit(a, b) < 15,
        pair_bit(a, b) == pair_bit(b, a),
        pair_at(pair_bit(a, b)) == (a, b) || pair_at(pair_bit(a, b)) == (b, a),
{
    lemma_index_injective(a, b);
}

/// Two unordered pairs of distinct faces share a bit exactly when they are the same pair.
pub proof fn lemma_pair_bit_injective(
    a: AxisDirection,
    b: AxisDirection,
    c: AxisDirection,
    d: AxisDirection,
)
    requires
        a != b,
        c != d,
    ensures
        (pair_bit(a, b) == pair_bit(c, d)) == ((a == c && b == d) || (a == d && b == c)),
{
    lemma_index_injective(a, b);
    lemma_index_injective(c, d);
    lemma_index_injective(a, c);
    lemma_index_injective(a, d);
    lemma_index_injective(b, c);
    lemma_index_injective(b, d);
}

/// Setting bit `k` changes bit `j` exactly when `j == k`.
pub proof fn lemma_set_bit(x: u16, k: u16, j: u16)
    requires
        k < 16,
        j < 16,
    ensures
        bit_is_set(x | (1u16 << k), j) == (bit_is_set(x, j) || j == k),
        bit_is_set(1u16 << k, j) == (j == k),
        !bit_is_set(0u16, j),
{
    assert(((x | (1u16 << k)) & (1u16 << j) != 0) == ((x & (1u16 << j) != 0) || j == k)
        && (((1u16 << k) & (1u16 << j) != 0) == (j == k))
        && ((0u16 & (1u16 << j)) == 0)) by (bit_vector)
        requires
            k < 16,
            j < 16,
    ;
}

/// Setting one of the fifteen pair bits keeps the unused top bit clear.
pub proof fn lemma_set_pair_bit_keeps_top_clear(x: u16, k: u16)
    requires
        x < 0x8000,
        k < 15,
    ensures
        x | (1u16 << k) < 0x8000,
{
    assert(x | (1u16 << k) < 0x8000) by (bit_vector)
        requires
            x < 0x8000,
            k < 15,
    ;
}

/// Which pairs of subchunk faces are connected through non-opaque blocks.
/// Bit `pair_bit(a, b)` of the field records whether faces `a` and `b` are connected;
/// bit 15 is unused.
#[derive(Clone, Copy, PartialEq, Eq, Structural, Debug)]
pub struct SubchunkConnectivity(pub u16);

impl SubchunkConnectivity {
    /// Whether the set says the two faces are connected; a face is always connected to itself.
    pub open spec fn spec_connects(self, a: AxisDirection, b: AxisDirection) -> bool {
        a == b || bit_is_set(self.0, pair_bit(a, b))
    }

    /// No two distinct faces are connected.
    pub fn empty() -> (c: Self)
        ensures
            c.0 == 0,
            forall|a: AxisDirection, b: AxisDirection| #[trigger] c.spec_connects(a, b) == (a == b),
    {
        let c = SubchunkConnectivity(0);
        assert forall|a: AxisDirection, b: AxisDirection| #[trigger]
            c.spec_connects(a, b) == (a == b) by {
            if a != b {
                lemma_pair_bit_range(a, b);
                lemma_set_bit(0, 0, pair_bit(a, b));
            }
        }
        c
    }

    /// Every pair of faces is connected.
    pub fn full() -> (c: Self)
        ensures
            c.0 == 0x7FFF,
            forall|a: AxisDirection, b: AxisDirection| #[trigger] c.spec_connects(a, b),
    {
        let c = SubchunkConnectivity(0x7FFF);
        assert forall|a: AxisDirection, b: AxisDirection| #[trigger] c.spec_connects(a, b) by {
            if a != b {
                lemma_pair_bit_range(a, b);
                let k = pair_bit(a, b);
                assert(0x7FFFu16 & (1u16 << k) != 0) by (bit_vector)
                    requires
                        k < 15,
                ;
            }
        }
        c
    }

    /// The bit that records the connection of two distinct faces.
    fn pair_bit_exec(face_1: &AxisDirection, face_2: &AxisDirection) -> (k: u16)
        requires
            face_1 != face_2,
        ensures
            k == pair_bit(*face_1, *face_2),
            k < 15,
    {
        proof {
            lemma_pair_bit_range(*face_1, *face_2);
        }
        let i1 = face_1.index();
        let i2 = face_2.index();
        let (lo, hi) = if i1 < i2 {
            (i1, i2)
        } else {
            (i2, i1)
        };
        let start: u16 = if lo == 0 {
            0
        } else if lo == 1 {
            5
        } else if lo == 2 {
            9
        } else if lo == 3 {
            12
        } else {
            14
        };
        start + hi as u16 - lo as u16 - 1
    }

    /// Records that the two faces are connected. Connecting a face to itself changes nothing.
    pub fn add_connection(&mut self, face_1: &AxisDirection, face_2: &AxisDirection)
        ensures
            face_1 == face_2 ==> *final(self) == *old(self),
            face_1 != face_2 ==> final(self).0 == old(self).0 | (1u16 << pair_bit(
                *face_1,
                *face_2,
            )),
            old(self).0 < 0x8000 ==> final(self).0 < 0x8000,
            forall|a: AxisDirection, b: AxisDirection| #[trigger]
                final(self).spec_connects(a, b) == (old(self).spec_connects(a, b) || (a == *face_1
                    && b == *face_2) || (a == *face_2 && b == *face_1)),
    {
        if face_1 != face_2 {
            let k = Self::pair_bit_exec(face_1, face_2);
            let ghost before = *self;
            self.0 = self.0 | (1u16 << k);
            proof {
                lemma_pair_bit_range(*face_1, *face_2);
                if before.0 < 0x8000 {
                    lemma_set_pair_bit_keeps_top_clear(before.0, k);
                }
                assert forall|a: AxisDirection, b: AxisDirection| #[trigger]
                    self.spec_connects(a, b) == (before.spec_connects(a, b) || (a == *face_1 && b
                        == *face_2) || (a == *face_2 && b == *face_1)) by {
                    if a != b {
                        lemma_pair_bit_range(a, b);
                        lemma_set_bit(before.0, k, pair_bit(a, b));
                        lemma_pair_bit_injective(a, b, *face_1, *face_2);
                    }
                }
            }
        }
    }

    /// Whether the two faces are connected.
    pub fn connects(&self, face_1: &AxisDirection, face_2: &AxisDirection) -> (r: bool)
        ensures
            r == self.spec_connects(*face_1, *face_2),
    {
        if face_1 == face_2 {
            true
        } else {
            let k = Self::pair_bit_exec(face_1, face_2);
            self.0 & (1u16 << k) != 0
        }
    }

    /// All fifteen pairs of distinct faces, in bit order, each with whether it is connected.
    pub fn get_pairs(&self) -> (pairs: [([AxisDirection; 2], bool); 15])
        ensures
            forall|k: int|
                0 <= k < 15 ==> {
                    let (a, b) = pair_at(k as u16);
                    &&& (#[trigger] pairs[k]).0[0] == a
                    &&& pairs[k].0[1] == b
                    &&& a != b
                    &&& pair_bit(a, b) == k
                    &&& pairs[k].1 == self.spec_connects(a, b)
                },
    {
        let mut pairs = [([AxisDirection::Down, AxisDirection::Up], false); 15];
        let mut k: u16 = 0;
        while k < 15
            invariant
                k <= 15,
                forall|m: int|
                    0 <= m < k ==> {
                        let (a, b) = pair_at(m as u16);
                        &&& (#[trigger] pairs[m]).0[0] == a
                        &&& pairs[m].0[1] == b
                        &&& a != b
                        &&& pair_bit(a, b) == m
                        &&& pairs[m].1 == self.spec_connects(a, b)
                    },
            decreases 15 - k,
        {
            let (i, j): (u8, u8) = if k < 5 {
                (0, (k + 1) as u8)
            } else if k < 9 {
                (1, (k - 5 + 2) as u8)
            } else if k < 12 {
                (2, (k - 9 + 3) as u8)
            } else if k < 14 {
                (3, (k - 12 + 4) as u8)
            } else {
                (4, 5)
            };
            let a = AxisDirection::from_index(i);
            let b = AxisDirection::from_index(j);
            let connected = self.0 & (1u16 << k) != 0;
            proof {
                lemma_index_injective(a, b);
            }
            pairs[k as usize] = ([a, b], connected);
            k = k + 1;
        }
        pairs
    }
}

/// A set of subchunk faces, bit `d.spec_index()` recording whether face `d` is in the set.
#[derive(Clone, Copy, PartialEq, Eq, Structural, Debug)]
pub struct FaceSet(pub u8);

impl FaceSet {
    pub open spec fn spec_contains(self, d: AxisDirection) -> bool {
        self.0 & (1u8 << d.spec_index()) != 0
    }

    pub fn empty() -> (s: Self)
        ensures
            s.0 == 0,
            forall|d: AxisDirection| !(#[trigger] s.spec_contains(d)),
    {
        let s = FaceSet(0);
        assert forall|d: AxisDirection| !(#[trigger] s.spec_contains(d)) by {
            let i = d.spec_index();
            assert(0u8 & (1u8 << i) == 0) by (bit_vector);
        }
        s
    }

    pub fn add_dir(&mut self, dir: AxisDirection)
        ensures
            final(self).0 == old(self).0 | (1u8 << dir.spec_index()),
            forall|d: AxisDirection| #[trigger]
                final(self).spec_contains(d) == (old(self).spec_contains(d) || d == dir),
    {
        let ghost before = *self;
        let i = dir.index();
        self.0 = self.0 | (1u8 << i);
        assert forall|d: AxisDirection| #[trigger]
            self.spec_contains(d) == (before.spec_contains(d) || d == dir) by {
            let j = d.spec_index();
            let x = before.0;
            lemma_index_injective(d, dir);
            assert(((x | (1u8 << i)) & (1u8 << j) != 0) == ((x & (1u8 << j) != 0) || i == j))
                by (bit_vector)
                requires
                    i < 6,
                    j < 6,
            ;
        }
    }

    /// The six faces in the order Down, Up, North, South, West, East, each with whether it is
    /// in the set.
    pub fn get_directions(&self) -> (dirs: [(AxisDirection, bool); 6])
        ensures
            forall|i: int|
                0 <= i < 6 ==> {
                    &&& (#[trigger] dirs[i]).0 == AxisDirection::spec_from_index(i as u8)
                    &&& dirs[i].1 == self.spec_contains(dirs[i].0)
                },
    {
        let mut dirs = [(AxisDirection::Down, false); 6];
        let mut i: u8 = 0;
        while i < 6
            invariant
                i <= 6,
                forall|m: int|
                    0 <= m < i ==> {
                        &&& (#[trigger] dirs[m]).0 == AxisDirection::spec_from_index(m as u8)
                        &&& dirs[m].1 == self.spec_contains(dirs[m].0)
                    },
            decreases 6 - i,
        {
            let d = AxisDirection::from_index(i);
            dirs[i as usize] = (d, self.0 & (1u8 << i) != 0);
            i = i + 1;
        }
        dirs
    }
}

/// Connectivity information of one subchunk, as handed to culling.
#[derive(Clone, Copy, Debug)]
pub struct SubchunkData {
    pub start_coords: [i32; 3],
    pub connectivity: SubchunkConnectivity,
}

/// Something that stores a subchunk and can report its connectivity information.
pub trait HasSubchunkData {
    fn get_data(&self) -> SubchunkData;
}


/// Bit `k` (below 15) is the bit of the pair `pair_at(k)`, whose faces differ.
pub proof fn lemma_pair_at_bit(k: u16)
    requires
        k < 15,
    ensures
        pair_at(k).0 != pair_at(k).1,
        pair_bit(pair_at(k).0, pair_at(k).1) == k,
{
    lemma_index_injective(pair_at(k).0, pair_at(k).1);
}

/// Fifteen equal low bits and a clear top bit make two words equal.
proof fn lemma_low_bits_equal(x: u16, y: u16)
    requires
        x < 0x8000,
        y < 0x8000,
            bit_is_set(x, 0u16) == bit_is_set(y, 0u16),
            bit_is_set(x, 1u16) == bit_is_set(y, 1u16),
            bit_is_set(x, 2u16) == bit_is_set(y, 2u16),
            bit_is_set(x, 3u16) == bit_is_set(y, 3u16),
            bit_is_set(x, 4u16) == bit_is_set(y, 4u16),
            bit_is_set(x, 5u16) == bit_is_set(y, 5u16),
            bit_is_set(x, 6u16) == bit_is_set(y, 6u16),
            bit_is_set(x, 7u16) == bit_is_set(y, 7u16),
            bit_is_set(x, 8u16) == bit_is_set(y, 8u16),
            bit_is_set(x, 9u16) == bit_is_set(y, 9u16),
            bit_is_set(x, 10u16) == bit_is_set(y, 10u16),
            bit_is_set(x, 11u16) == bit_is_set(y, 11u16),
            bit_is_set(x, 12u16) == bit_is_set(y, 12u16),
            bit_is_set(x, 13u16) == bit_is_set(y, 13u16),
            bit_is_set(x, 14u16) == bit_is_set(y, 14u16),
    ensures
        x == y,
{
    assert(x == y) by (bit_vector)
        requires
            x < 0x8000,
            y < 0x8000,
            bit_is_set(x, 0u16) == bit_is_set(y, 0u16),
            bit_is_set(x, 1u16) == bit_is_set(y, 1u16),
            bit_is_set(x, 2u16) == bit_is_set(y, 2u16),
            bit_is_set(x, 3u16) == bit_is_set(y, 3u16),
            bit_is_set(x, 4u16) == bit_is_set(y, 4u16),
            bit_is_set(x, 5u16) == bit_is_set(y, 5u16),
            bit_is_set(x, 6u16) == bit_is_set(y, 6u16),
            bit_is_set(x, 7u16) == bit_is_set(y, 7u16),
            bit_is_set(x, 8u16) == bit_is_set(y, 8u16),
            bit_is_set(x, 9u16) == bit_is_set(y, 9u16),
            bit_is_set(x, 10u16) == bit_is_set(y, 10u16),
            bit_is_set(x, 11u16) == bit_is_set(y, 11u16),
            bit_is_set(x, 12u16) == bit_is_set(y, 12u16),
            bit_is_set(x, 13u16) == bit_is_set(y, 13u16),
            bit_is_set(x, 14u16) == bit_is_set(y, 14u16),
    ;
}

/// A word below 0x8000 with the fifteen low bits clear is zero; with them all set it is 0x7FFF.
proof fn lemma_low_bits_extremes(x: u16)
    requires
        x < 0x8000,
    ensures
        (!bit_is_set(x, 0u16) && !bit_is_set(x, 1u16) && !bit_is_set(x, 2u16) && !bit_is_set(x, 3u16) && !bit_is_set(x, 4u16) && !bit_is_set(x, 5u16) && !bit_is_set(x, 6u16) && !bit_is_set(x, 7u16) && !bit_is_set(x, 8u16) && !bit_is_set(x, 9u16) && !bit_is_set(x, 10u16) && !bit_is_set(x, 11u16) && !bit_is_set(x, 12u16) && !bit_is_set(x, 13u16) && !bit_is_set(x, 14u16)) ==> x == 0,
        (bit_is_set(x, 0u16) && bit_is_set(x, 1u16) && bit_is_set(x, 2u16) && bit_is_set(x, 3u16) && bit_is_set(x, 4u16) && bit_is_set(x, 5u16) && bit_is_set(x, 6u16) && bit_is_set(x, 7u16) && bit_is_set(x, 8u16) && bit_is_set(x, 9u16) && bit_is_set(x, 10u16) && bit_is_set(x, 11u16) && bit_is_set(x, 12u16) && bit_is_set(x, 13u16) && bit_is_set(x, 14u16)) ==> x == 0x7FFF,
{
    assert(x < 0x8000 ==> ((!bit_is_set(x, 0u16) && !bit_is_set(x, 1u16) && !bit_is_set(x, 2u16) && !bit_is_set(x, 3u16) && !bit_is_set(x, 4u16) && !bit_is_set(x, 5u16) && !bit_is_set(x, 6u16) && !bit_is_set(x, 7u16) && !bit_is_set(x, 8u16) && !bit_is_set(x, 9u16) && !bit_is_set(x, 10u16) && !bit_is_set(x, 11u16) && !bit_is_set(x, 12u16) && !bit_is_set(x, 13u16) && !bit_is_set(x, 14u16)) ==> x == 0)) by (bit_vector);
    assert(x < 0x8000 ==> ((bit_is_set(x, 0u16) && bit_is_set(x, 1u16) && bit_is_set(x, 2u16) && bit_is_set(x, 3u16) && bit_is_set(x, 4u16) && bit_is_set(x, 5u16) && bit_is_set(x, 6u16) && bit_is_set(x, 7u16) && bit_is_set(x, 8u16) && bit_is_set(x, 9u16) && bit_is_set(x, 10u16) && bit_is_set(x, 11u16) && bit_is_set(x, 12u16) && bit_is_set(x, 13u16) && bit_is_set(x, 14u16)) ==> x == 0x7FFF)) by (bit_vector);
}

/// A connectivity value whose unused top bit is clear is fixed by which pairs of faces it
/// connects: two such values that connect the same pairs are equal.
pub proof fn lemma_connectivity_determined(c1: SubchunkConnectivity, c2: SubchunkConnectivity)
    requires
        c1.0 < 0x8000,
        c2.0 < 0x8000,
        forall|a: AxisDirection, b: AxisDirection|
            #[trigger] c1.spec_connects(a, b) == c2.spec_connects(a, b),
    ensures
        c1 == c2,
{
    assert(bit_is_set(c1.0, 0u16) == c1.spec_connects(pair_at(0u16).0, pair_at(0u16).1)) by {
        lemma_pair_at_bit(0u16);
    }
    assert(bit_is_set(c1.0, 1u16) == c1.spec_connects(pair_at(1u16).0, pair_at(1u16).1)) by {
        lemma_pair_at_bit(1u16);
    }
    assert(bit_is_set(c1.0, 2u16) == c1.spec_connects(pair_at(2u16).0, pair_at(2u16).1)) by {
        lemma_pair_at_bit(2u16);
    }
    assert(bit_is_set(c1.0, 3u16) == c1.spec_connects(pair_at(3u16).0, pair_at(3u16).1)) by {
        lemma_pair_at_bit(3u16);
    }
    assert(bit_is_set(c1.0, 4u16) == c1.spec_connects(pair_at(4u16).0, pair_at(4u16).1)) by {
        lemma_pair_at_bit(4u16);
    }
    assert(bit_is_set(c1.0, 5u16) == c1.spec_connects(pair_at(5u16).0, pair_at(5u16).1)) by {
        lemma_pair_at_bit(5u16);
    }
    assert(bit_is_set(c1.0, 6u16) == c1.spec_connects(pair_at(6u16).0, pair_at(6u16).1)) by {
        lemma_pair_at_bit(6u16);
    }
    assert(bit_is_set(c1.0, 7u16) == c1.spec_connects(pair_at(7u16).0, pair_at(7u16).1)) by {
        lemma_pair_at_bit(7u16);
    }
    assert(bit_is_set(c1.0, 8u16) == c1.spec_connects(pair_at(8u16).0, pair_at(8u16).1)) by {
        lemma_pair_at_bit(8u16);
    }
    assert(bit_is_set(c1.0, 9u16) == c1.spec_connects(pair_at(9u16).0, pair_at(9u16).1)) by {
        lemma_pair_at_bit(9u16);
    }
    assert(bit_is_set(c1.0, 10u16) == c1.spec_connects(pair_at(10u16).0, pair_at(10u16).1)) by {
        lemma_pair_at_bit(10u16);
    }
    assert(bit_is_set(c1.0, 11u16) == c1.spec_connects(pair_at(11u16).0, pair_at(11u16).1)) by {
        lemma_pair_at_bit(11u16);
    }
    assert(bit_is_set(c1.0, 12u16) == c1.spec_connects(pair_at(12u16).0, pair_at(12u16).1)) by {
        lemma_pair_at_bit(12u16);
    }
    assert(bit_is_set(c1.0, 13u16) == c1.spec_connects(pair_at(13u16).0, pair_at(13u16).1)) by {
        lemma_pair_at_bit(13u16);
    }
    assert(bit_is_set(c1.0, 14u16) == c1.spec_connects(pair_at(14u16).0, pair_at(14u16).1)) by {
        lemma_pair_at_bit(14u16);
    }
    assert(bit_is_set(c2.0, 0u16) == c2.spec_connects(pair_at(0u16).0, pair_at(0u16).1)) by {
        lemma_pair_at_bit(0u16);
    }
    assert(bit_is_set(c2.0, 1u16) == c2.spec_connects(pair_at(1u16).0, pair_at(1u16).1)) by {
        lemma_pair_at_bit(1u16);
    }
    assert(bit_is_set(c2.0, 2u16) == c2.spec_connects(pair_at(2u16).0, pair_at(2u16).1)) by {
        lemma_pair_at_bit(2u16);
    }
    assert(bit_is_set(c2.0, 3u16) == c2.spec_connects(pair_at(3u16).0, pair_at(3u16).1)) by {
        lemma_pair_at_bit(3u16);
    }
    assert(bit_is_set(c2.0, 4u16) == c2.spec_connects(pair_at(4u16).0, pair_at(4u16).1)) by {
        lemma_pair_at_bit(4u16);
    }
    assert(bit_is_set(c2.0, 5u16) == c2.spec_connects(pair_at(5u16).0, pair_at(5u16).1)) by {
        lemma_pair_at_bit(5u16);
    }
    assert(bit_is_set(c2.0, 6u16) == c2.spec_connects(pair_at(6u16).0, pair_at(6u16).1)) by {
        lemma_pair_at_bit(6u16);
    }
    assert(bit_is_set(c2.0, 7u16) == c2.spec_connects(pair_at(7u16).0, pair_at(7u16).1)) by {
        lemma_pair_at_bit(7u16);
    }
    assert(bit_is_set(c2.0, 8u16) == c2.spec_connects(pair_at(8u16).0, pair_at(8u16).1)) by {
        lemma_pair_at_bit(8u16);
    }
    assert(bit_is_set(c2.0, 9u16) == c2.spec_connects(pair_at(9u16).0, pair_at(9u16).1)) by {
        lemma_pair_at_bit(9u16);
    }
    assert(bit_is_set(c2.0, 10u16) == c2.spec_connects(pair_at(10u16).0, pair_at(10u16).1)) by {
        lemma_pair_at_bit(10u16);
    }
    assert(bit_is_set(c2.0, 11u16) == c2.spec_connects(pair_at(11u16).0, pair_at(11u16).1)) by {
        lemma_pair_at_bit(11u16);
    }
    assert(bit_is_set(c2.0, 12u16) == c2.spec_connects(pair_at(12u16).0, pair_at(12u16).1)) by {
        lemma_pair_at_bit(12u16);
    }
    assert(bit_is_set(c2.0, 13u16) == c2.spec_connects(pair_at(13u16).0, pair_at(13u16).1)) by {
        lemma_pair_at_bit(13u16);
    }
    assert(bit_is_set(c2.0, 14u16) == c2.spec_connects(pair_at(14u16).0, pair_at(14u16).1)) by {
        lemma_pair_at_bit(14u16);
    }
    lemma_low_bits_equal(c1.0, c2.0);
}

/// A connectivity value whose unused top bit is clear and that connects no pair of distinct
/// faces is the empty value 0; one that connects every pair is the full value 0x7FFF.
pub proof fn lemma_connectivity_extremes(c: SubchunkConnectivity)
    requires
        c.0 < 0x8000,
    ensures
        (forall|a: AxisDirection, b: AxisDirection|
            a != b ==> !#[trigger] c.spec_connects(a, b)) ==> c.0 == 0,
        (forall|a: AxisDirection, b: AxisDirection| #[trigger] c.spec_connects(a, b)) ==> c.0
            == 0x7FFF,
{
    assert(bit_is_set(c.0, 0u16) == c.spec_connects(pair_at(0u16).0, pair_at(0u16).1)) by {
        lemma_pair_at_bit(0u16);
    }
    assert(bit_is_set(c.0, 1u16) == c.spec_connects(pair_at(1u16).0, pair_at(1u16).1)) by {
        lemma_pair_at_bit(1u16);
    }
    assert(bit_is_set(c.0, 2u16) == c.spec_connects(pair_at(2u16).0, pair_at(2u16).1)) by {
        lemma_pair_at_bit(2u16);
    }
    assert(bit_is_set(c.0, 3u16) == c.spec_connects(pair_at(3u16).0, pair_at(3u16).1)) by {
        lemma_pair_at_bit(3u16);
    }
    assert(bit_is_set(c.0, 4u16) == c.spec_connects(pair_at(4u16).0, pair_at(4u16).1)) by {
        lemma_pair_at_bit(4u16);
    }
    assert(bit_is_set(c.0, 5u16) == c.spec_connects(pair_at(5u16).0, pair_at(5u16).1)) by {
        lemma_pair_at_bit(5u16);
    }
    assert(bit_is_set(c.0, 6u16) == c.spec_connects(pair_at(6u16).0, pair_at(6u16).1)) by {
        lemma_pair_at_bit(6u16);
    }
    assert(bit_is_set(c.0, 7u16) == c.spec_connects(pair_at(7u16).0, pair_at(7u16).1)) by {
        lemma_pair_at_bit(7u16);
    }
    assert(bit_is_set(c.0, 8u16) == c.spec_connects(pair_at(8u16).0, pair_at(8u16).1)) by {
        lemma_pair_at_bit(8u16);
    }
    assert(bit_is_set(c.0, 9u16) == c.spec_connects(pair_at(9u16).0, pair_at(9u16).1)) by {
        lemma_pair_at_bit(9u16);
    }
    assert(bit_is_set(c.0, 10u16) == c.spec_connects(pair_at(10u16).0, pair_at(10u16).1)) by {
        lemma_pair_at_bit(10u16);
    }
    assert(bit_is_set(c.0, 11u16) == c.spec_connects(pair_at(11u16).0, pair_at(11u16).1)) by {
        lemma_pair_at_bit(11u16);
    }
    assert(bit_is_set(c.0, 12u16) == c.spec_connects(pair_at(12u16).0, pair_at(12u16).1)) by {
        lemma_pair_at_bit(12u16);
    }
    assert(bit_is_set(c.0, 13u16) == c.spec_connects(pair_at(13u16).0, pair_at(13u16).1)) by {
        lemma_pair_at_bit(13u16);
    }
    assert(bit_is_set(c.0, 14u16) == c.spec_connects(pair_at(14u16).0, pair_at(14u16).1)) by {
        lemma_pair_at_bit(14u16);
    }
    lemma_low_bits_extremes(c.0);
}

} // verus!
