use vstd::prelude::*;

verus! {

/// Whether an area of a GPU buffer is free or holds data of a subchunk.
#[derive(Clone, Copy, Debug)]
pub enum BufferAreaUsage {
    Free,
    Used([i32; 3]),
}

/// A run of consecutive chunks of a GPU buffer.
#[derive(Clone, Copy, Debug)]
pub struct BufferArea {
    pub usage: BufferAreaUsage,
    pub num_chunks: u64,
}

impl BufferArea {
    pub open spec fn spec_is_free(self) -> bool {
        self.usage is Free
    }

    pub open spec fn spec_belongs_to(self, subchunk_coords: [i32; 3]) -> bool {
        self.usage == BufferAreaUsage::Used(subchunk_coords)
    }

    /// Whether the area holds data of the given subchunk.
    pub fn belongs_to(&self, subchunk_coords: [i32; 3]) -> (r: bool)
        ensures
            r == self.spec_belongs_to(subchunk_coords),
    {
        match self.usage {
            BufferAreaUsage::Used(coords) => {
                let r = coords[0] == subchunk_coords[0] && coords[1] == subchunk_coords[1]
                    && coords[2] == subchunk_coords[2];
                assert(r == (coords =~= subchunk_coords));
                r
            },
            BufferAreaUsage::Free => false,
        }
    }

    pub fn is_free(&self) -> (r: bool)
        ensures
            r == self.spec_is_free(),
    {
        match self.usage {
            BufferAreaUsage::Free => true,
            BufferAreaUsage::Used(_) => false,
        }
    }
}

/// Number of chunks covered by a run of areas.
pub open spec fn total_chunks(s: Seq<BufferArea>) -> nat
    decreases s.len(),
{
    if s.len() == 0 {
        0
    } else {
        total_chunks(s.drop_last()) + s.last().num_chunks as nat
    }
}

/// Number of free chunks in a run of areas.
pub open spec fn free_chunks(s: Seq<BufferArea>) -> nat
    decreases s.len(),
{
    if s.len() == 0 {
        0
    } else {
        free_chunks(s.drop_last()) + if s.last().spec_is_free() {
            s.last().num_chunks as nat
        } else {
            0
        }
    }
}

/// Number of chunks of a run held by the subchunk `coords`.
pub open spec fn owned_chunks(s: Seq<BufferArea>, coords: [i32; 3]) -> nat
    decreases s.len(),
{
    if s.len() == 0 {
        0
    } else {
        owned_chunks(s.drop_last(), coords) + if s.last().spec_belongs_to(coords) {
            s.last().num_chunks as nat
        } else {
            0
        }
    }
}

/// The used areas of a run, in order, as (owner, first chunk, number of chunks), the run
/// starting at chunk `start`.
pub open spec fn used_extents(s: Seq<BufferArea>, start: nat) -> Seq<([i32; 3], nat, nat)>
    decreases s.len(),
{
    if s.len() == 0 {
        seq![]
    } else {
        let prefix = used_extents(s.drop_last(), start);
        match s.last().usage {
            BufferAreaUsage::Used(coords) => prefix.push(
                (coords, start + total_chunks(s.drop_last()), s.last().num_chunks as nat),
            ),
            BufferAreaUsage::Free => prefix,
        }
    }
}

/// No two neighbouring areas are both free.
pub open spec fn free_areas_merged(s: Seq<BufferArea>) -> bool {
    forall|i: int| 0 < i < s.len() ==> !(#[trigger] s[i].spec_is_free() && s[i - 1].spec_is_free())
}

pub proof fn lemma_total_push(s: Seq<BufferArea>, a: BufferArea)
    ensures
        total_chunks(s.push(a)) == total_chunks(s) + a.num_chunks,
        free_chunks(s.push(a)) == free_chunks(s) + if a.spec_is_free() {
            a.num_chunks as nat
        } else {
            0
        },
{
    assert(s.push(a).drop_last() =~= s);
}

pub proof fn lemma_total_append(s: Seq<BufferArea>, t: Seq<BufferArea>)
    ensures
        total_chunks(s + t) == total_chunks(s) + total_chunks(t),
        free_chunks(s + t) == free_chunks(s) + free_chunks(t),
        free_chunks(s) <= total_chunks(s),
    decreases t.len(),
{
    if t.len() == 0 {
        assert(s + t =~= s);
        lemma_free_le_total(s);
    } else {
        assert((s + t).drop_last() =~= s + t.drop_last());
        lemma_total_append(s, t.drop_last());
    }
}

pub proof fn lemma_free_le_total(s: Seq<BufferArea>)
    ensures
        free_chunks(s) <= total_chunks(s),
    decreases s.len(),
{
    if s.len() > 0 {
        lemma_free_le_total(s.drop_last());
    }
}

pub proof fn lemma_extents_append(s: Seq<BufferArea>, t: Seq<BufferArea>, start: nat)
    ensures
        used_extents(s + t, start) == used_extents(s, start) + used_extents(
            t,
            start + total_chunks(s),
        ),
    decreases t.len(),
{
    if t.len() == 0 {
        assert(s + t =~= s);
        assert(used_extents(s, start) + used_extents(t, start + total_chunks(s)) =~= used_extents(
            s,
            start,
        ));
    } else {
        assert((s + t).drop_last() =~= s + t.drop_last());
        lemma_extents_append(s, t.drop_last(), start);
        lemma_total_append(s, t.drop_last());
        let e1 = used_extents(s, start);
        let e2 = used_extents(t.drop_last(), start + total_chunks(s));
        match t.last().usage {
            BufferAreaUsage::Used(coords) => {
                assert(used_extents(s + t, start) =~= e1 + e2.push(
                    (coords, start + total_chunks(s) + total_chunks(t.drop_last()), t.last().num_chunks as nat),
                ));
            },
            BufferAreaUsage::Free => {},
        }
    }
}

/// The chunks of one area of the buffer.
pub proof fn lemma_single(a: BufferArea, start: nat)
    ensures
        total_chunks(seq![a]) == a.num_chunks,
        free_chunks(seq![a]) == if a.spec_is_free() { a.num_chunks as nat } else { 0 },
        used_extents(seq![a], start) == match a.usage {
            BufferAreaUsage::Used(coords) => seq![(coords, start, a.num_chunks as nat)],
            BufferAreaUsage::Free => Seq::<([i32; 3], nat, nat)>::empty(),
        },
{
    assert(seq![a].drop_last() =~= Seq::<BufferArea>::empty());
    assert(total_chunks(Seq::<BufferArea>::empty()) == 0);
    assert(free_chunks(Seq::<BufferArea>::empty()) == 0);
    assert(used_extents(Seq::<BufferArea>::empty(), start) =~= Seq::<([i32; 3], nat, nat)>::empty());
}

/// Splits `s` around index `i`.
pub proof fn lemma_split_at(s: Seq<BufferArea>, i: int)
    requires
        0 <= i < s.len(),
    ensures
        s == s.take(i) + seq![s[i]] + s.skip(i + 1),
{
    assert(s =~= s.take(i) + seq![s[i]] + s.skip(i + 1));
}


/// The extents of `e` whose owner is not `coords`, in order.
pub open spec fn drop_owner(e: Seq<([i32; 3], nat, nat)>, coords: [i32; 3]) -> Seq<
    ([i32; 3], nat, nat),
>
    decreases e.len(),
{
    if e.len() == 0 {
        e
    } else {
        let prefix = drop_owner(e.drop_last(), coords);
        if e.last().0 == coords {
            prefix
        } else {
            prefix.push(e.last())
        }
    }
}

/// An area with its owner's claim removed when the owner is `coords`.
pub open spec fn release(a: BufferArea, coords: [i32; 3]) -> BufferArea {
    if a.spec_belongs_to(coords) {
        BufferArea { usage: BufferAreaUsage::Free, num_chunks: a.num_chunks }
    } else {
        a
    }
}

pub proof fn lemma_release_all(s: Seq<BufferArea>, coords: [i32; 3], start: nat)
    ensures
        total_chunks(s.map_values(|a: BufferArea| release(a, coords))) == total_chunks(s),
        used_extents(s.map_values(|a: BufferArea| release(a, coords)), start) == drop_owner(
            used_extents(s, start),
            coords,
        ),
        free_chunks(s.map_values(|a: BufferArea| release(a, coords))) == free_chunks(s)
            + owned_chunks(s, coords),
    decreases s.len(),
{
    let f = |a: BufferArea| release(a, coords);
    let m = s.map_values(f);
    if s.len() > 0 {
        assert(m.drop_last() =~= s.drop_last().map_values(f));
        lemma_release_all(s.drop_last(), coords, start);
        assert(m.last() == release(s.last(), coords));
        let p = used_extents(s.drop_last(), start);
        match s.last().usage {
            BufferAreaUsage::Used(c) => {
                assert(used_extents(s, start) == p.push(
                    (c, start + total_chunks(s.drop_last()), s.last().num_chunks as nat),
                ));
                assert(used_extents(s, start).drop_last() =~= p);
            },
            BufferAreaUsage::Free => {},
        }
    } else {
        assert(m =~= s);
    }
}

/// A free run that can hold `need` chunks.
pub open spec fn fits(a: BufferArea, need: nat) -> bool {
    a.spec_is_free() && a.num_chunks >= need
}

/// Some run can hold `need` chunks.
pub open spec fn has_fitting_run(s: Seq<BufferArea>, need: nat) -> bool {
    exists|i: int| 0 <= i < s.len() && #[trigger] fits(s[i], need)
}

/// Run `i` is the first run that can hold `need` chunks.
pub open spec fn is_first_fit(s: Seq<BufferArea>, need: nat, i: int) -> bool {
    &&& 0 <= i < s.len()
    &&& fits(s[i], need)
    &&& forall|j: int| 0 <= j < i ==> !fits(#[trigger] s[j], need)
}

/// Chunks needed to hold `byte_len` bytes (rounded up).
pub open spec fn chunks_needed(byte_len: u64, chunk_size: u64) -> nat {
    (byte_len / chunk_size + if byte_len % chunk_size != 0 {
        1int
    } else {
        0int
    }) as nat
}

/// Run `i` claimed for `coords`: its first `need` chunks become used, and the rest, if any,
/// stays free right after it.
pub open spec fn claim(s: Seq<BufferArea>, i: int, need: nat, coords: [i32; 3]) -> Seq<BufferArea> {
    let used = BufferArea { usage: BufferAreaUsage::Used(coords), num_chunks: need as u64 };
    if s[i].num_chunks == need {
        s.update(i, used)
    } else {
        s.update(i, used).insert(
            i + 1,
            BufferArea { usage: BufferAreaUsage::Free, num_chunks: (s[i].num_chunks - need) as u64 },
        )
    }
}

/// Two neighbouring free runs at `k - 1` and `k`, merged into one.
pub open spec fn merge_pair(s: Seq<BufferArea>, k: int) -> Seq<BufferArea> {
    s.update(
        k - 1,
        BufferArea {
            usage: BufferAreaUsage::Free,
            num_chunks: (s[k - 1].num_chunks + s[k].num_chunks) as u64,
        },
    ).remove(k)
}

pub proof fn lemma_merge_pair(s: Seq<BufferArea>, k: int)
    requires
        1 <= k < s.len(),
        s[k - 1].spec_is_free(),
        s[k].spec_is_free(),
        s[k - 1].num_chunks + s[k].num_chunks <= u64::MAX,
    ensures
        total_chunks(merge_pair(s, k)) == total_chunks(s),
        free_chunks(merge_pair(s, k)) == free_chunks(s),
        used_extents(merge_pair(s, k), 0) == used_extents(s, 0),
{
    let prev = s[k - 1];
    let cur = s[k];
    let merged = BufferArea { usage: BufferAreaUsage::Free, num_chunks: (prev.num_chunks + cur.num_chunks) as u64 };
    let pre = s.take(k - 1);
    let post = s.skip(k + 1);
    assert(s =~= pre + seq![prev] + seq![cur] + post);
    assert(merge_pair(s, k) =~= pre + seq![merged] + post);
    lemma_total_append(pre + seq![prev] + seq![cur], post);
    lemma_total_append(pre + seq![prev], seq![cur]);
    lemma_total_append(pre, seq![prev]);
    lemma_total_append(pre + seq![merged], post);
    lemma_total_append(pre, seq![merged]);
    lemma_single(prev, total_chunks(pre));
    lemma_single(cur, total_chunks(pre + seq![prev]));
    lemma_single(merged, total_chunks(pre));
    lemma_extents_append(pre + seq![prev] + seq![cur], post, 0);
    lemma_extents_append(pre + seq![prev], seq![cur], 0);
    lemma_extents_append(pre, seq![prev], 0);
    lemma_extents_append(pre + seq![merged], post, 0);
    lemma_extents_append(pre, seq![merged], 0);
    assert(used_extents(pre + seq![prev] + seq![cur], 0) =~= used_extents(pre, 0));
    assert(used_extents(pre + seq![merged], 0) =~= used_extents(pre, 0));
}

/// Manages which chunks of a fixed-size GPU buffer hold data of which subchunk.
/// The buffer is split into runs of whole chunks; allocation is first fit, and freeing merges
/// neighbouring free runs.
pub struct BufferManager {
    usage_map: Vec<BufferArea>,
    buffer_size: u64,
    chunk_size: u64,
    item_size: u64,
}

impl BufferManager {
    /// The runs of chunks, in buffer order.
    pub closed spec fn areas(&self) -> Seq<BufferArea> {
        self.usage_map@
    }

    pub closed spec fn spec_buffer_size(&self) -> u64 {
        self.buffer_size
    }

    pub closed spec fn spec_chunk_size(&self) -> u64 {
        self.chunk_size
    }

    pub closed spec fn spec_item_size(&self) -> u64 {
        self.item_size
    }

    /// The manager's invariant: the runs are non-empty and cover the whole buffer.
    pub open spec fn wf(&self) -> bool {
        &&& self.spec_chunk_size() > 0
        &&& self.spec_item_size() > 0
        &&& self.spec_chunk_size() % self.spec_item_size() == 0
        &&& self.spec_buffer_size() >= self.spec_chunk_size()
        &&& self.spec_buffer_size() % self.spec_chunk_size() == 0
        &&& self.spec_buffer_size() % self.spec_item_size() == 0
        &&& self.spec_buffer_size() / self.spec_item_size() <= u32::MAX + 1
        &&& total_chunks(self.areas()) == self.spec_buffer_size() / self.spec_chunk_size()
        &&& forall|i: int| 0 <= i < self.areas().len() ==> #[trigger] self.areas()[i].num_chunks > 0
    }

    /// A manager for a buffer of `buffer_size` bytes split in chunks of `chunk_size` bytes,
    /// holding items of `item_size` bytes; the whole buffer starts free.
    pub fn new(buffer_size: u64, chunk_size: u64, item_size: u64) -> (m: Self)
        requires
            chunk_size > 0,
            item_size > 0,
            buffer_size >= chunk_size,
            buffer_size % chunk_size == 0,
            chunk_size % item_size == 0,
            buffer_size % item_size == 0,
            buffer_size / item_size <= u32::MAX + 1,
        ensures
            m.wf(),
            m.spec_buffer_size() == buffer_size,
            m.spec_chunk_size() == chunk_size,
            m.spec_item_size() == item_size,
            m.areas() == seq![
                BufferArea {
                    usage: BufferAreaUsage::Free,
                    num_chunks: (buffer_size / chunk_size) as u64,
                },
            ],
    {
        let num_chunks = buffer_size / chunk_size;
        let mut usage_map = Vec::new();
        usage_map.push(BufferArea { usage: BufferAreaUsage::Free, num_chunks });
        let m = BufferManager { usage_map, buffer_size, chunk_size, item_size };
        proof {
            lemma_single(m.usage_map@[0], 0);
            assert(m.usage_map@ =~= seq![m.usage_map@[0]]);
            assert(num_chunks > 0) by (nonlinear_arith)
                requires
                    buffer_size >= chunk_size,
                    chunk_size > 0,
                    num_chunks == buffer_size / chunk_size,
            ;
        }
        m
    }

    /// Bytes of the buffer not held by any subchunk.
    pub fn free_bytes(&self) -> (r: u64)
        requires
            self.wf(),
        ensures
            r == free_chunks(self.areas()) * self.spec_chunk_size(),
    {
        let mut total: u64 = 0;
        let mut i: usize = 0;
        proof {
            assert(self.usage_map@.take(0) =~= Seq::<BufferArea>::empty());
            assert(free_chunks(Seq::<BufferArea>::empty()) == 0);
        }
        while i < self.usage_map.len()
            invariant
                self.wf(),
                i <= self.usage_map.len(),
                total == free_chunks(self.usage_map@.take(i as int)) * self.chunk_size,
            decreases self.usage_map.len() - i,
        {
            let area = self.usage_map[i];
            proof {
                let s = self.usage_map@;
                assert(s.take(i + 1) =~= s.take(i as int).push(s[i as int]));
                lemma_total_push(s.take(i as int), s[i as int]);
                lemma_split_at(s, i as int);
                lemma_total_append(s.take(i + 1), s.skip(i + 1));
                assert(s.take(i as int) + seq![s[i as int]] =~= s.take(i + 1));
                lemma_total_append(s.take(i as int), seq![s[i as int]]);
                lemma_free_le_total(s.take(i + 1));
                lemma_free_le_total(s.skip(i + 1));
                assert(free_chunks(s.take(i + 1)) <= self.buffer_size / self.chunk_size);
                assert(free_chunks(s.take(i + 1)) * self.chunk_size <= self.buffer_size) by (nonlinear_arith)
                    requires
                        free_chunks(s.take(i + 1)) <= self.buffer_size / self.chunk_size,
                        self.chunk_size > 0,
                ;
                if area.spec_is_free() {
                    assert(free_chunks(s.take(i + 1)) * self.chunk_size == free_chunks(
                        s.take(i as int),
                    ) * self.chunk_size + area.num_chunks * self.chunk_size) by (nonlinear_arith)
                        requires
                            free_chunks(s.take(i + 1)) == free_chunks(s.take(i as int))
                                + area.num_chunks,
                    ;
                }
            }
            if area.is_free() {
                total = total + area.num_chunks * self.chunk_size;
            }
            i += 1;
        }
        assert(self.usage_map@.take(i as int) =~= self.usage_map@);
        total
    }

    /// Claims the first free run of at least the chunks needed for `byte_len` bytes for the
    /// subchunk, splitting off what is left of the run as a new free run. Returns the byte
    /// offset of the claimed run and the index of its first item. Some free run must be large
    /// enough: the buffer never grows (see `has_room_for`).
    pub fn alloc_area(&mut self, subchunk_coords: [i32; 3], byte_len: u64) -> (r: (u64, u32))
        requires
            old(self).wf(),
            byte_len > 0,
            has_fitting_run(old(self).areas(), chunks_needed(byte_len, old(self).spec_chunk_size())),
        ensures
            final(self).wf(),
            final(self).spec_buffer_size() == old(self).spec_buffer_size(),
            final(self).spec_chunk_size() == old(self).spec_chunk_size(),
            final(self).spec_item_size() == old(self).spec_item_size(),
            exists|i: int|
                #[trigger] is_first_fit(
                    old(self).areas(),
                    chunks_needed(byte_len, old(self).spec_chunk_size()),
                    i,
                ) && final(self).areas() == claim(
                    old(self).areas(),
                    i,
                    chunks_needed(byte_len, old(self).spec_chunk_size()),
                    subchunk_coords,
                ) && r.0 == total_chunks(old(self).areas().take(i)) * old(self).spec_chunk_size()
                    && r.1 == r.0 / old(self).spec_item_size() && r.0 + byte_len
                    <= old(self).spec_buffer_size(),
            free_chunks(final(self).areas()) + chunks_needed(byte_len, old(self).spec_chunk_size())
                == free_chunks(old(self).areas()),
    {
        let whole_chunks = byte_len / self.chunk_size;
        proof {
            if byte_len % self.chunk_size != 0 {
                assert(self.chunk_size >= 2);
                assert(whole_chunks <= byte_len / 2) by (nonlinear_arith)
                    requires
                        self.chunk_size >= 2,
                        whole_chunks == byte_len / self.chunk_size,
                ;
            }
        }
        let need = if byte_len % self.chunk_size != 0 {
            whole_chunks + 1
        } else {
            whole_chunks
        };
        let ghost s = self.usage_map@;
        let ghost total = self.buffer_size / self.chunk_size;
        proof {
            assert(need > 0) by (nonlinear_arith)
                requires
                    byte_len > 0,
                    self.chunk_size > 0,
                    whole_chunks == byte_len / self.chunk_size,
                    need == if byte_len % self.chunk_size != 0 { whole_chunks + 1 } else { whole_chunks as int },
            ;
        }
        let mut current_start_chunk: u64 = 0;
        let mut i: usize = 0;
        proof {
            assert(s.take(0) =~= Seq::<BufferArea>::empty());
        }
        while i < self.usage_map.len()
            invariant
                self.wf(),
                s == self.usage_map@,
                s == old(self).usage_map@,
                self.buffer_size == old(self).buffer_size,
                self.chunk_size == old(self).chunk_size,
                self.item_size == old(self).item_size,
                byte_len > 0,
                whole_chunks == byte_len / self.chunk_size,
                need == if byte_len % self.chunk_size != 0 { whole_chunks + 1 } else { whole_chunks as int },
                need > 0,
                total == self.buffer_size / self.chunk_size,
                need == chunks_needed(byte_len, self.chunk_size),
                has_fitting_run(s, need as nat),
                i <= self.usage_map.len(),
                current_start_chunk == total_chunks(s.take(i as int)),
                forall|j: int| 0 <= j < i ==> !fits(#[trigger] s[j], need as nat),
            decreases self.usage_map.len() - i,
        {
            let area = self.usage_map[i];
            proof {
                lemma_split_at(s, i as int);
                lemma_total_append(s.take(i as int) + seq![s[i as int]], s.skip(i + 1));
                lemma_total_append(s.take(i as int), seq![s[i as int]]);
                lemma_single(s[i as int], 0);
                assert(s.take(i as int) + seq![s[i as int]] =~= s.take(i + 1));
            }
            if area.is_free() && area.num_chunks >= need {
                let ghost claimed = claim(s, i as int, need as nat, subchunk_coords);
                if area.num_chunks > need {
                    self.usage_map.set(
                        i,
                        BufferArea { usage: BufferAreaUsage::Used(subchunk_coords), num_chunks: need },
                    );
                    self.usage_map.insert(
                        i + 1,
                        BufferArea { usage: BufferAreaUsage::Free, num_chunks: area.num_chunks - need },
                    );
                    proof {
                        let used = BufferArea { usage: BufferAreaUsage::Used(subchunk_coords), num_chunks: need };
                        let rest = BufferArea { usage: BufferAreaUsage::Free, num_chunks: (area.num_chunks - need) as u64 };
                        assert(self.usage_map@ =~= s.take(i as int) + seq![used, rest] + s.skip(i + 1));
                        assert(seq![used, rest] =~= seq![used] + seq![rest]);
                        lemma_total_append(s.take(i as int) + seq![used, rest], s.skip(i + 1));
                        lemma_total_append(s.take(i as int), seq![used, rest]);
                        lemma_total_append(seq![used], seq![rest]);
                        lemma_single(used, 0);
                        lemma_single(rest, 0);
                        assert forall|j: int| 0 <= j < self.areas().len() implies #[trigger]
                            self.areas()[j].num_chunks > 0 by {
                            if j < i {
                                assert(self.areas()[j] == s[j]);
                            } else if j > i + 1 {
                                assert(self.areas()[j] == s[j - 1]);
                            }
                        }
                    }
                } else {
                    self.usage_map.set(
                        i,
                        BufferArea { usage: BufferAreaUsage::Used(subchunk_coords), num_chunks: need },
                    );
                    proof {
                        let used = BufferArea { usage: BufferAreaUsage::Used(subchunk_coords), num_chunks: need };
                        assert(self.usage_map@ =~= s.take(i as int) + seq![used] + s.skip(i + 1));
                        lemma_total_append(s.take(i as int) + seq![used], s.skip(i + 1));
                        lemma_total_append(s.take(i as int), seq![used]);
                        lemma_single(used, 0);
                        assert forall|j: int| 0 <= j < self.areas().len() implies #[trigger]
                            self.areas()[j].num_chunks > 0 by {
                            if j != i {
                                assert(self.areas()[j] == s[j]);
                            }
                        }
                    }
                }
                proof {
                    assert(self.usage_map@ =~= claimed);
                    assert(chunks_needed(byte_len, self.chunk_size) == need as nat);
                    assert(fits(s[i as int], need as nat));
                    assert(is_first_fit(s, chunks_needed(byte_len, self.chunk_size), i as int));
                    assert(need > 0) by (nonlinear_arith)
                        requires
                            byte_len > 0,
                            self.chunk_size > 0,
                            whole_chunks == byte_len / self.chunk_size,
                            need == if byte_len % self.chunk_size != 0 { whole_chunks + 1 } else { whole_chunks as int },
                    ;
                    assert(byte_len <= need * self.chunk_size) by (nonlinear_arith)
                        requires
                            self.chunk_size > 0,
                            whole_chunks == byte_len / self.chunk_size,
                            need == if byte_len % self.chunk_size != 0 { whole_chunks + 1 } else { whole_chunks as int },
                    ;
                    assert((current_start_chunk + need) * self.chunk_size <= total * self.chunk_size) by (nonlinear_arith)
                        requires
                            current_start_chunk + need <= total,
                            self.chunk_size > 0,
                    ;
                    assert(total * self.chunk_size == self.buffer_size) by (nonlinear_arith)
                        requires
                            total == self.buffer_size / self.chunk_size,
                            self.buffer_size % self.chunk_size == 0,
                            self.chunk_size > 0,
                    ;
                    assert((current_start_chunk + need) * self.chunk_size == current_start_chunk * self.chunk_size + need * self.chunk_size) by (nonlinear_arith);
                }
                let offset = current_start_chunk * self.chunk_size;
                proof {
                    assert(offset / self.item_size < self.buffer_size / self.item_size) by (nonlinear_arith)
                        requires
                            offset < self.buffer_size,
                            self.buffer_size % self.item_size == 0,
                            self.item_size > 0,
                    ;
                }
                let first_item = (offset / self.item_size) as u32;
                proof {
                    let ii = i as int;
                    assert(is_first_fit(old(self).areas(), chunks_needed(byte_len, old(self).spec_chunk_size()), ii));
                    assert(final(self).areas() == claim(old(self).areas(), ii, chunks_needed(byte_len, old(self).spec_chunk_size()), subchunk_coords));
                    assert(offset == total_chunks(old(self).areas().take(ii)) * old(self).spec_chunk_size());
                    assert(first_item == offset / old(self).spec_item_size());
                    assert(offset + byte_len <= old(self).spec_buffer_size());
                }
                return (offset, first_item);
            } else {
                current_start_chunk = current_start_chunk + area.num_chunks;
            }
            i += 1;
        }
        proof {
            let w = choose|w: int| 0 <= w < s.len() && #[trigger] fits(s[w], need as nat);
            assert(!fits(s[w], need as nat));
        }
        (0, 0)
    }

    /// Whether some free run can hold `byte_len` bytes, so that `alloc_area` may be called.
    pub fn has_room_for(&self, byte_len: u64) -> (r: bool)
        requires
            self.wf(),
            byte_len > 0,
        ensures
            r == has_fitting_run(self.areas(), chunks_needed(byte_len, self.spec_chunk_size())),
    {
        let whole_chunks = byte_len / self.chunk_size;
        proof {
            if byte_len % self.chunk_size != 0 {
                assert(self.chunk_size >= 2);
                assert(whole_chunks <= byte_len / 2) by (nonlinear_arith)
                    requires
                        self.chunk_size >= 2,
                        whole_chunks == byte_len / self.chunk_size,
                ;
            }
        }
        let need = if byte_len % self.chunk_size != 0 {
            whole_chunks + 1
        } else {
            whole_chunks
        };
        let mut i: usize = 0;
        while i < self.usage_map.len()
            invariant
                self.wf(),
                i <= self.usage_map.len(),
                need == chunks_needed(byte_len, self.chunk_size),
                forall|j: int| 0 <= j < i ==> !fits(#[trigger] self.usage_map@[j], need as nat),
            decreases self.usage_map.len() - i,
        {
            let area = self.usage_map[i];
            if area.is_free() && area.num_chunks >= need {
                assert(fits(self.usage_map@[i as int], need as nat));
                return true;
            }
            i += 1;
        }
        false
    }

    /// Frees every run held by the subchunk, then merges neighbouring free runs; the free bytes
    /// grow by exactly the bytes of the chunks the subchunk held.
    pub fn free_subchunk_areas(&mut self, subchunk_coords: [i32; 3])
        requires
            old(self).wf(),
        ensures
            final(self).wf(),
            final(self).spec_buffer_size() == old(self).spec_buffer_size(),
            final(self).spec_chunk_size() == old(self).spec_chunk_size(),
            final(self).spec_item_size() == old(self).spec_item_size(),
            forall|i: int|
                0 <= i < final(self).areas().len() ==> !(#[trigger] final(self).areas()[i].spec_belongs_to(subchunk_coords)),
            free_areas_merged(final(self).areas()),
            used_extents(final(self).areas(), 0) == drop_owner(
                used_extents(old(self).areas(), 0),
                subchunk_coords,
            ),
            free_chunks(final(self).areas()) == free_chunks(old(self).areas()) + owned_chunks(
                old(self).areas(),
                subchunk_coords,
            ),
            free_chunks(final(self).areas()) * final(self).spec_chunk_size() == free_chunks(
                old(self).areas(),
            ) * old(self).spec_chunk_size() + owned_chunks(old(self).areas(), subchunk_coords)
                * old(self).spec_chunk_size(),
    {
        let ghost s = self.usage_map@;
        let ghost released = s.map_values(|a: BufferArea| release(a, subchunk_coords));
        // Mark all subchunk owned areas as free.
        let mut i: usize = 0;
        while i < self.usage_map.len()
            invariant
                i <= self.usage_map.len(),
                self.usage_map.len() == s.len(),
                released.len() == s.len(),
                s == old(self).usage_map@,
                old(self).wf(),
                forall|k: int| 0 <= k < s.len() ==> #[trigger] released[k] == release(s[k], subchunk_coords),
                forall|k: int| 0 <= k < i ==> #[trigger] self.usage_map@[k] == released[k],
                forall|k: int| i <= k < s.len() ==> #[trigger] self.usage_map@[k] == s[k],
                self.buffer_size == old(self).buffer_size,
                self.chunk_size == old(self).chunk_size,
                self.item_size == old(self).item_size,
            decreases s.len() - i,
        {
            let area = self.usage_map[i];
            if area.belongs_to(subchunk_coords) {
                self.usage_map.set(i, BufferArea { usage: BufferAreaUsage::Free, num_chunks: area.num_chunks });
            }
            i += 1;
        }
        proof {
            assert(self.usage_map@ =~= released);
            lemma_release_all(s, subchunk_coords, 0);
            assert(total_chunks(released) >= 1) by (nonlinear_arith)
                requires
                    total_chunks(released) == self.buffer_size / self.chunk_size,
                    self.buffer_size >= self.chunk_size,
                    self.chunk_size > 0,
            ;
            assert(total_chunks(released) <= u64::MAX) by (nonlinear_arith)
                requires
                    total_chunks(released) == self.buffer_size / self.chunk_size,
                    self.chunk_size > 0,
            ;
            if released.len() == 0 {
                assert(total_chunks(released) == 0);
            }
            assert forall|k: int| 0 <= k < released.len() implies #[trigger] released[k].num_chunks > 0 by {
                assert(s[k].num_chunks > 0);
            }
        }
        let ghost target = used_extents(released, 0);
        let ghost total = total_chunks(released);
        let ghost free_total = free_chunks(released);
        // Merge free areas.
        let mut current_area_i: usize = 1;
        while current_area_i < self.usage_map.len()
            invariant
                1 <= current_area_i,
                self.usage_map.len() >= 1,
                current_area_i <= self.usage_map.len(),
                used_extents(self.usage_map@, 0) == target,
                total_chunks(self.usage_map@) == total,
                free_chunks(self.usage_map@) == free_total,
                total <= u64::MAX,
                forall|k: int| 0 <= k < self.usage_map.len() ==> #[trigger] self.usage_map@[k].num_chunks > 0,
                forall|k: int|
                    0 <= k < self.usage_map.len() ==> !(#[trigger] self.usage_map@[k].spec_belongs_to(
                        subchunk_coords,
                    )),
                forall|k: int|
                    0 < k < current_area_i ==> !(#[trigger] self.usage_map@[k].spec_is_free()
                        && self.usage_map@[k - 1].spec_is_free()),
                self.buffer_size == old(self).buffer_size,
                self.chunk_size == old(self).chunk_size,
                self.item_size == old(self).item_size,
            decreases self.usage_map.len() + (self.usage_map.len() - current_area_i),
        {
            let prev = self.usage_map[current_area_i - 1];
            let cur = self.usage_map[current_area_i];
            if prev.is_free() && cur.is_free() {
                let ghost before = self.usage_map@;
                let ghost k = current_area_i as int;
                proof {
                    let pre = before.take(k - 1);
                    let post = before.skip(k + 1);
                    assert(before =~= pre + seq![prev] + seq![cur] + post);
                    lemma_total_append(pre + seq![prev] + seq![cur], post);
                    lemma_total_append(pre + seq![prev], seq![cur]);
                    lemma_total_append(pre, seq![prev]);
                    lemma_single(prev, 0);
                    lemma_single(cur, 0);
                }
                self.usage_map.set(
                    current_area_i - 1,
                    BufferArea { usage: BufferAreaUsage::Free, num_chunks: prev.num_chunks + cur.num_chunks },
                );
                self.usage_map.remove(current_area_i);
                proof {
                    assert(self.usage_map@ =~= merge_pair(before, k));
                    lemma_merge_pair(before, k);
                    assert forall|j: int| 0 <= j < self.usage_map.len() implies #[trigger]
                        self.usage_map@[j].num_chunks > 0 by {
                        if j < k - 1 {
                            assert(self.usage_map@[j] == before[j]);
                        } else if j > k - 1 {
                            assert(self.usage_map@[j] == before[j + 1]);
                        }
                    }
                    assert forall|j: int| 0 <= j < self.usage_map.len() implies !(
                        #[trigger] self.usage_map@[j].spec_belongs_to(subchunk_coords)) by {
                        if j < k - 1 {
                            assert(self.usage_map@[j] == before[j]);
                        } else if j > k - 1 {
                            assert(self.usage_map@[j] == before[j + 1]);
                        }
                    }
                    assert forall|j: int| 0 < j < current_area_i implies !(
                        #[trigger] self.usage_map@[j].spec_is_free() && self.usage_map@[j - 1].spec_is_free()) by {
                        if j < k - 1 {
                            assert(self.usage_map@[j] == before[j]);
                            assert(self.usage_map@[j - 1] == before[j - 1]);
                        } else {
                            assert(self.usage_map@[j - 1] == before[j - 1]);
                            assert(before[j] == prev);
                        }
                    }
                }
            } else {
                current_area_i += 1;
            }
        }
        proof {
            assert(total == total_chunks(s));
            let a = free_chunks(s);
            let b = owned_chunks(s, subchunk_coords);
            let c = self.chunk_size;
            assert((a + b) * c == a * c + b * c) by (nonlinear_arith);
        }
    }
}

} // verus!
