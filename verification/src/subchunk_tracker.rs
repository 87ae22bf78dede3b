//! Bookkeeping of subchunk meshing: which dispatch built the subchunk on the GPU, how many
//! meshing tasks are still out, and which chunk columns are loaded.
use vstd::prelude::*;
use std::collections::{HashMap, HashSet};
use crate::visibility::{
    column_key, subchunk_key, spec_column_key, spec_subchunk_key, lemma_subchunk_key_injective,
    SubchunkPos,
};

verus! {

broadcast use vstd::std_specs::hash::group_hash_axioms;

/// The most meshed subchunks uploaded in one frame.
pub const MAX_SUBCHUNK_UPLOADS_PER_FRAME: usize = 16;

/// The number of sections in a chunk column.
pub const SECTIONS_PER_CHUNK: i32 = 24;

/// Meshing tasks out, and the dispatch of each subchunk held on the GPU.
pub struct SubchunkTracker {
    dispatch_id_counter: u64,
    num_pending: usize,
    dispatch_ids: HashMap<u128, u64>,
    loaded_chunks: HashSet<u64>,
}

/// A meshed subchunk from dispatch `id` at key `k` replaces what is held unless what is held
/// comes from a later dispatch.
pub open spec fn accepts(held: Map<u128, u64>, k: u128, id: u64) -> bool {
    !(held.contains_key(k) && held[k] > id)
}

/// The keys of the sections of column `x`, `z`.
pub open spec fn column_section_keys(x: i32, z: i32) -> Set<u128> {
    Set::new(
        |k: u128|
            exists|y: int|
                0 <= y < SECTIONS_PER_CHUNK && k == #[trigger] spec_subchunk_key(
                    SubchunkPos { x, y: y as i32, z },
                ),
    )
}

impl SubchunkTracker {
    pub closed spec fn spec_next_dispatch_id(&self) -> u64 {
        self.dispatch_id_counter
    }

    pub closed spec fn spec_num_pending(&self) -> usize {
        self.num_pending
    }

    /// The dispatch that built each subchunk held, by subchunk key.
    pub closed spec fn spec_held(&self) -> Map<u128, u64> {
        self.dispatch_ids@
    }

    /// The loaded columns, by column key.
    pub closed spec fn spec_loaded(&self) -> Set<u64> {
        self.loaded_chunks@
    }

    pub fn new() -> (t: Self)
        ensures
            t.spec_next_dispatch_id() == 0,
            t.spec_num_pending() == 0,
            t.spec_held() == Map::<u128, u64>::empty(),
            t.spec_loaded() == Set::<u64>::empty(),
    {
        SubchunkTracker {
            dispatch_id_counter: 0,
            num_pending: 0,
            dispatch_ids: HashMap::new(),
            loaded_chunks: HashSet::new(),
        }
    }

    pub fn num_pending_subchunks(&self) -> (n: usize)
        ensures
            n == self.spec_num_pending(),
    {
        self.num_pending
    }

    /// Whether column `x`, `z` is loaded.
    pub fn is_chunk_loaded(&self, x: i32, z: i32) -> (r: bool)
        ensures
            r == self.spec_loaded().contains(spec_column_key(x, z)),
    {
        self.loaded_chunks.contains(&column_key(x, z))
    }

    /// Records that meshing tasks for `subchunks` go out, marks their columns loaded, and
    /// returns the dispatch identifier the tasks carry.
    pub fn dispatch_subchunk_updates(&mut self, subchunks: &[SubchunkPos]) -> (id: u64)
        requires
            old(self).spec_next_dispatch_id() < u64::MAX,
            old(self).spec_num_pending() + subchunks@.len() <= usize::MAX,
        ensures
            id == old(self).spec_next_dispatch_id(),
            final(self).spec_next_dispatch_id() == id + 1,
            final(self).spec_num_pending() == old(self).spec_num_pending() + subchunks@.len(),
            final(self).spec_held() == old(self).spec_held(),
            final(self).spec_loaded() == old(self).spec_loaded().union(
                Set::new(
                    |k: u64|
                        exists|i: int|
                            0 <= i < subchunks@.len() && k == #[trigger] spec_column_key(
                                subchunks@[i].x,
                                subchunks@[i].z,
                            ),
                ),
            ),
    {
        self.num_pending = self.num_pending + subchunks.len();
        let id = self.dispatch_id_counter;
        self.dispatch_id_counter = self.dispatch_id_counter + 1;
        let ghost before = self.loaded_chunks@;
        let mut i: usize = 0;
        while i < subchunks.len()
            invariant
                i <= subchunks@.len(),
                self.num_pending == old(self).spec_num_pending() + subchunks@.len(),
                self.dispatch_id_counter == id + 1,
                self.dispatch_ids@ == old(self).spec_held(),
                self.loaded_chunks@ == before.union(
                    Set::new(
                        |k: u64|
                            exists|j: int|
                                0 <= j < i && k == #[trigger] spec_column_key(
                                    subchunks@[j].x,
                                    subchunks@[j].z,
                                ),
                    ),
                ),
            decreases subchunks@.len() - i,
        {
            let p = subchunks[i];
            let ghost prev = self.loaded_chunks@;
            self.loaded_chunks.insert(column_key(p.x, p.z));
            proof {
                let s_old = Set::new(
                    |k: u64|
                        exists|j: int|
                            0 <= j < i && k == #[trigger] spec_column_key(
                                subchunks@[j].x,
                                subchunks@[j].z,
                            ),
                );
                let s_new = Set::new(
                    |k: u64|
                        exists|j: int|
                            0 <= j < i + 1 && k == #[trigger] spec_column_key(
                                subchunks@[j].x,
                                subchunks@[j].z,
                            ),
                );
                assert forall|k: u64| s_new.contains(k) implies s_old.insert(spec_column_key(p.x, p.z)).contains(k) by {
                    let j = choose|j: int|
                        0 <= j < i + 1 && k == #[trigger] spec_column_key(
                            subchunks@[j].x,
                            subchunks@[j].z,
                        );
                    if j < i {
                        assert(s_old.contains(k));
                    }
                }
                assert forall|k: u64| s_old.insert(spec_column_key(p.x, p.z)).contains(k) implies s_new.contains(k) by {
                    if k == spec_column_key(p.x, p.z) {
                        assert(k == spec_column_key(subchunks@[i as int].x, subchunks@[i as int].z));
                    } else {
                        let j = choose|j: int|
                            0 <= j < i && k == #[trigger] spec_column_key(
                                subchunks@[j].x,
                                subchunks@[j].z,
                            );
                        assert(0 <= j < i + 1);
                    }
                }
                assert(s_new =~= s_old.insert(spec_column_key(p.x, p.z)));
                assert(self.loaded_chunks@ =~= before.union(s_new));
            }
            i = i + 1;
        }
        id
    }

    /// Takes in the result of one meshing task (`None` for a subchunk with nothing to draw) and
    /// says whether to upload it, recording its dispatch if so: a result is dropped when the
    /// subchunk held comes from a later dispatch.
    pub fn receive(&mut self, result: Option<(SubchunkPos, u64)>) -> (upload: bool)
        requires
            old(self).spec_num_pending() > 0,
        ensures
            final(self).spec_num_pending() == old(self).spec_num_pending() - 1,
            final(self).spec_next_dispatch_id() == old(self).spec_next_dispatch_id(),
            final(self).spec_loaded() == old(self).spec_loaded(),
            match result {
                None => !upload && final(self).spec_held() == old(self).spec_held(),
                Some((p, id)) => {
                    &&& upload == accepts(old(self).spec_held(), spec_subchunk_key(p), id)
                    &&& final(self).spec_held() == if upload {
                        old(self).spec_held().insert(spec_subchunk_key(p), id)
                    } else {
                        old(self).spec_held()
                    }
                },
            },
    {
        self.num_pending = self.num_pending - 1;
        match result {
            None => false,
            Some((p, id)) => {
                let key = subchunk_key(p);
                let newer_held = match self.dispatch_ids.get(&key) {
                    Some(held) => *held > id,
                    None => false,
                };
                if newer_held {
                    false
                } else {
                    self.dispatch_ids.insert(key, id);
                    true
                }
            },
        }
    }

    /// Forgets the subchunks of column `x`, `z` if it is loaded, and marks it not loaded, so
    /// that results still out for it are not drawn.
    pub fn remove_chunk(&mut self, x: i32, z: i32)
        ensures
            final(self).spec_loaded() == old(self).spec_loaded().remove(spec_column_key(x, z)),
            final(self).spec_held() == if old(self).spec_loaded().contains(spec_column_key(x, z)) {
                old(self).spec_held().remove_keys(column_section_keys(x, z))
            } else {
                old(self).spec_held()
            },
            final(self).spec_num_pending() == old(self).spec_num_pending(),
            final(self).spec_next_dispatch_id() == old(self).spec_next_dispatch_id(),
    {
        let col = column_key(x, z);
        if self.loaded_chunks.contains(&col) {
            let ghost before = self.dispatch_ids@;
            let mut y: i32 = 0;
            while y < SECTIONS_PER_CHUNK
                invariant
                    0 <= y <= SECTIONS_PER_CHUNK,
                    self.num_pending == old(self).spec_num_pending(),
                    self.dispatch_id_counter == old(self).spec_next_dispatch_id(),
                    self.loaded_chunks@ == old(self).spec_loaded(),
                    self.dispatch_ids@ == before.remove_keys(
                        Set::new(
                            |k: u128|
                                exists|yy: int|
                                    0 <= yy < y && k == #[trigger] spec_subchunk_key(
                                        SubchunkPos { x, y: yy as i32, z },
                                    ),
                        ),
                    ),
                decreases SECTIONS_PER_CHUNK - y,
            {
                let key = subchunk_key(SubchunkPos { x, y, z });
                let ghost prev = self.dispatch_ids@;
                self.dispatch_ids.remove(&key);
                proof {
                    let s_old = Set::new(
                        |k: u128|
                            exists|yy: int|
                                0 <= yy < y && k == #[trigger] spec_subchunk_key(
                                    SubchunkPos { x, y: yy as i32, z },
                                ),
                    );
                    let s_new = Set::new(
                        |k: u128|
                            exists|yy: int|
                                0 <= yy < y + 1 && k == #[trigger] spec_subchunk_key(
                                    SubchunkPos { x, y: yy as i32, z },
                                ),
                    );
                    assert forall|k: u128| s_new.contains(k) implies s_old.insert(key).contains(k) by {
                        let yy = choose|yy: int|
                            0 <= yy < y + 1 && k == #[trigger] spec_subchunk_key(
                                SubchunkPos { x, y: yy as i32, z },
                            );
                        if yy < y {
                            assert(s_old.contains(k));
                        }
                    }
                    assert forall|k: u128| s_old.insert(key).contains(k) implies s_new.contains(k) by {
                        if k == key {
                            assert(k == spec_subchunk_key(SubchunkPos { x, y: (y as int) as i32, z }));
                        } else {
                            let yy = choose|yy: int|
                                0 <= yy < y && k == #[trigger] spec_subchunk_key(
                                    SubchunkPos { x, y: yy as i32, z },
                                );
                            assert(0 <= yy < y + 1);
                        }
                    }
                    assert(s_new =~= s_old.insert(key));
                    assert(self.dispatch_ids@ =~= before.remove_keys(s_new));
                }
                y = y + 1;
            }
            proof {
                assert(Set::new(
                    |k: u128|
                        exists|yy: int|
                            0 <= yy < SECTIONS_PER_CHUNK && k == #[trigger] spec_subchunk_key(
                                SubchunkPos { x, y: yy as i32, z },
                            ),
                ) =~= column_section_keys(x, z));
            }
        }
        self.loaded_chunks.remove(&col);
    }
}

/// Once a subchunk from some dispatch is held, a result from an earlier dispatch for the same
/// subchunk is never uploaded over it.
pub proof fn lemma_older_result_rejected(held: Map<u128, u64>, k: u128, id: u64, older: u64)
    requires
        older < id,
    ensures
        !accepts(held.insert(k, id), k, older),
{
}

/// After a column is removed none of its sections is held.
pub proof fn lemma_removed_column_holds_nothing(held: Map<u128, u64>, x: i32, z: i32, y: i32)
    requires
        0 <= y < SECTIONS_PER_CHUNK,
    ensures
        !held.remove_keys(column_section_keys(x, z)).contains_key(
            spec_subchunk_key(SubchunkPos { x, y, z }),
        ),
{
    assert(column_section_keys(x, z).contains(spec_subchunk_key(SubchunkPos { x, y: (y as int) as i32, z })));
}

} // verus!
