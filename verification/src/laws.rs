//! Properties of the library that relate several of its functions or hold of every state.
use vstd::prelude::*;
use crate::direction::AxisDirection;
use crate::connectivity::{SubchunkConnectivity, lemma_pair_bit_range};
use crate::cave_cull::{linked_through, reachable_pair, touches, valid_path, lemma_path_reverse};
use crate::buffer_pool::{
    BufferArea, BufferAreaUsage, claim, drop_owner, free_areas_merged, total_chunks, used_extents,
    lemma_total_push,
};
use crate::ps2::dma::{spec_shutdown_actions, Channel, ChannelFlags};

verus! {

/// Connectivity is symmetric: if light passes from face `a` to face `b`, it passes from `b` to
/// `a`; and every face is connected to itself.
pub proof fn lemma_connectivity_symmetric(c: SubchunkConnectivity, a: AxisDirection, b: AxisDirection)
    ensures
        c.spec_connects(a, b) == c.spec_connects(b, a),
        c.spec_connects(a, a),
{
    if a != b {
        lemma_pair_bit_range(a, b);
    }
}

/// The faces that the flood fill links are linked both ways round.
pub proof fn lemma_faces_linked_symmetric(open: Seq<bool>, f1: AxisDirection, f2: AxisDirection)
    ensures
        linked_through(open, f1, f2) == linked_through(open, f2, f1),
{
    assert forall|g1: AxisDirection, g2: AxisDirection|
        linked_through(open, g1, g2) implies linked_through(open, g2, g1) by {
        let (a, b) = choose|a: usize, b: usize|
            touches(a, g1) && touches(b, g2) && #[trigger] reachable_pair(open, a, b);
        let p = choose|p: Seq<usize>| #[trigger] valid_path(open, p) && p[0] == a && p.last() == b;
        let r = lemma_path_reverse(open, p);
        assert(reachable_pair(open, b, a));
    }
}

/// A run of areas with no owner left, free runs merged, is a single free run.
pub proof fn lemma_no_owners_single_run(s: Seq<BufferArea>, n: nat)
    requires
        used_extents(s, 0) == Seq::<([i32; 3], nat, nat)>::empty(),
        free_areas_merged(s),
        forall|i: int| 0 <= i < s.len() ==> #[trigger] s[i].num_chunks > 0,
        total_chunks(s) == n,
        n > 0,
    ensures
        s == seq![BufferArea { usage: BufferAreaUsage::Free, num_chunks: n as u64 }],
{
    lemma_all_free_without_owners(s);
    if s.len() == 0 {
        assert(total_chunks(s) == 0);
    }
    if s.len() >= 2 {
        assert(s[1].spec_is_free() && s[0].spec_is_free());
        assert(false);
    }
    assert(s.len() == 1);
    assert(s =~= seq![].push(s[0]));
    lemma_total_push(seq![], s[0]);
    assert(s =~= seq![BufferArea { usage: BufferAreaUsage::Free, num_chunks: n as u64 }]);
}

proof fn lemma_all_free_without_owners(s: Seq<BufferArea>)
    requires
        used_extents(s, 0).len() == 0,
    ensures
        forall|i: int| 0 <= i < s.len() ==> (#[trigger] s[i]).spec_is_free(),
    decreases s.len(),
{
    if s.len() > 0 {
        match s.last().usage {
            BufferAreaUsage::Used(c) => {
                assert(used_extents(s, 0).len() == used_extents(s.drop_last(), 0).len() + 1);
            },
            BufferAreaUsage::Free => {
                lemma_all_free_without_owners(s.drop_last());
                assert forall|i: int| 0 <= i < s.len() implies (#[trigger] s[i]).spec_is_free() by {
                    if i < s.len() - 1 {
                        assert(s[i] == s.drop_last()[i]);
                    }
                }
            },
        }
    }
}

/// Claiming part of a fresh buffer for one subchunk and then freeing that subchunk's areas
/// leaves no owner behind: by `lemma_no_owners_single_run`, the buffer is one free run again.
pub proof fn lemma_claim_then_drop_leaves_no_owner(n: nat, need: nat, coords: [i32; 3])
    requires
        0 < need <= n,
        n <= u64::MAX,
    ensures
        drop_owner(
            used_extents(
                claim(seq![BufferArea { usage: BufferAreaUsage::Free, num_chunks: n as u64 }], 0, need, coords),
                0,
            ),
            coords,
        ) == Seq::<([i32; 3], nat, nat)>::empty(),
{
    let s = seq![BufferArea { usage: BufferAreaUsage::Free, num_chunks: n as u64 }];
    let used = BufferArea { usage: BufferAreaUsage::Used(coords), num_chunks: need as u64 };
    let c = claim(s, 0, need, coords);
    let empty_areas = Seq::<BufferArea>::empty();
    assert(used_extents(empty_areas, 0) == Seq::<([i32; 3], nat, nat)>::empty());
    assert(total_chunks(empty_areas) == 0);
    assert(drop_owner(Seq::<([i32; 3], nat, nat)>::empty(), coords) == Seq::<([i32; 3], nat, nat)>::empty());
    if n == need {
        assert(c =~= seq![used]);
        assert(c.drop_last() =~= Seq::<BufferArea>::empty());
        assert(c.last() == used);
        let e = used_extents(c, 0);
        assert(e == Seq::<([i32; 3], nat, nat)>::empty().push((coords, 0nat, need)));
        assert(e =~= seq![(coords, 0nat, need)]);
        assert(e.drop_last() =~= Seq::<([i32; 3], nat, nat)>::empty());
    } else {
        let rest = BufferArea { usage: BufferAreaUsage::Free, num_chunks: (n - need) as u64 };
        assert(c =~= seq![used, rest]);
        assert(c.drop_last() =~= seq![used]);
        assert(c.drop_last().drop_last() =~= Seq::<BufferArea>::empty());
        let e = used_extents(c, 0);
        let first = c.drop_last();
        assert(first.last() == used);
        assert(used_extents(first, 0) == Seq::<([i32; 3], nat, nat)>::empty().push((coords, 0nat, need)));
        assert(used_extents(c.drop_last(), 0) =~= seq![(coords, 0nat, need)]);
        assert(c.last() == rest);
        assert(e =~= seq![(coords, 0nat, need)]);
        assert(e.drop_last() =~= Seq::<([i32; 3], nat, nat)>::empty());
    }
}

/// Shutting down a channel that is not set up asks for nothing, whatever handler it names: a
/// second shutdown after a first is a no-op.
pub proof fn lemma_shutdown_idempotent(channel: Channel, flags: ChannelFlags, handler_id: i32)
    ensures
        spec_shutdown_actions(channel, flags, false, handler_id) == Seq::<crate::ps2::dma::DmacAction>::empty(),
{
}

} // verus!
