//! Video memory of the graphics synthesiser, handed out in whole pages.
use vstd::prelude::*;
use crate::ps2::display::PixelStorageMethod;

verus! {

/// Pages of video memory.
pub const VRAM_NUM_PAGES: u16 = 512;

/// Bytes per page.
pub const PAGE_SIZE: u32 = 8192;

/// Most allocations the allocator keeps track of at once.
pub const MAX_ALLOCATIONS: usize = 8;

/// Where in video memory a new buffer should go.
#[derive(Clone, Copy, Debug, PartialEq, Eq, Structural)]
pub enum Placement {
    /// Place the allocation at the lowest VRAM address that will fit the buffer.
    PreferLowest,
    /// Place the allocation at the highest VRAM address that will fit the buffer.
    PreferHighest,
}

impl Placement {
    /// The placement used when any will do.
    pub fn any() -> (p: Placement)
        ensures
            p == Placement::PreferLowest,
    {
        Placement::PreferLowest
    }
}

impl Default for Placement {
    fn default() -> (p: Placement)
        ensures
            p == Placement::PreferLowest,
    {
        Placement::PreferLowest
    }
}

/// A run of pages in use.
#[derive(Clone, Copy, Debug, PartialEq, Eq, Structural)]
pub struct Allocation {
    pub start_page: u16,
    pub num_pages: u16,
}

/// No run of pages was large enough.
#[derive(Clone, Copy, Debug, PartialEq, Eq, Structural)]
pub struct OutOfMemoryError;

impl OutOfMemoryError {
    /// The error's message.
    pub fn message(&self) -> (s: &'static str)
        ensures
            s@ == "out of video memory"@,
    {
        "out of video memory"
    }
}

/// First page after an allocation.
pub open spec fn end_page(a: Allocation) -> int {
    a.start_page + a.num_pages
}

/// First page of the gap before allocation `k` (gap `len` lies after the last allocation).
pub open spec fn gap_start(a: Seq<Allocation>, k: int) -> int {
    if k == 0 {
        0
    } else {
        end_page(a[k - 1])
    }
}

/// First page after the gap before allocation `k`.
pub open spec fn gap_end(a: Seq<Allocation>, k: int) -> int {
    if k == a.len() {
        VRAM_NUM_PAGES as int
    } else {
        a[k].start_page as int
    }
}

pub open spec fn gap_fits(a: Seq<Allocation>, k: int, num_pages: u16) -> bool {
    gap_end(a, k) - gap_start(a, k) >= num_pages
}

/// Gap `k` is the lowest gap that fits.
pub open spec fn is_lowest_fit(a: Seq<Allocation>, k: int, num_pages: u16) -> bool {
    &&& 0 <= k <= a.len()
    &&& gap_fits(a, k, num_pages)
    &&& forall|j: int| 0 <= j < k ==> !#[trigger] gap_fits(a, j, num_pages)
}

/// Gap `k` is the highest gap that fits.
pub open spec fn is_highest_fit(a: Seq<Allocation>, k: int, num_pages: u16) -> bool {
    &&& 0 <= k <= a.len()
    &&& gap_fits(a, k, num_pages)
    &&& forall|j: int| k < j <= a.len() ==> !#[trigger] gap_fits(a, j, num_pages)
}

/// Some gap fits.
pub open spec fn any_gap_fits(a: Seq<Allocation>, num_pages: u16) -> bool {
    exists|k: int| 0 <= k <= a.len() && #[trigger] gap_fits(a, k, num_pages)
}

/// `after` is `before` with a new allocation of `num_pages` pages starting at `start_page`,
/// placed in the lowest (or highest) gap of `before` that fits: at the start of that gap
/// (or at its end).
pub open spec fn reservation_placed(
    before: Seq<Allocation>,
    after: Seq<Allocation>,
    placement: Placement,
    num_pages: u16,
    start_page: u16,
) -> bool {
    exists|k: int|
        {
            &&& #[trigger] gap_fits(before, k, num_pages)
            &&& (placement == Placement::PreferLowest ==> is_lowest_fit(before, k, num_pages)
                && start_page == gap_start(before, k))
            &&& (placement == Placement::PreferHighest ==> is_highest_fit(before, k, num_pages)
                && start_page == gap_end(before, k) - num_pages)
            &&& after == before.insert(k, Allocation { start_page, num_pages })
        }
}

/// Allocations are ordered, do not overlap, and lie within video memory.
pub open spec fn allocations_wf(a: Seq<Allocation>) -> bool {
    &&& a.len() <= MAX_ALLOCATIONS
    &&& forall|k: int| 0 <= k <= a.len() ==> #[trigger] gap_start(a, k) <= gap_end(a, k)
}

/// A buffer of video memory: a run of pages. Its pages stay reserved until `release` gives
/// them back to the allocator (as do the `release` methods of the textures, frame buffers and
/// depth buffers that hold one); dropping a buffer without releasing it keeps them reserved.
#[derive(Debug)]
pub struct Buffer {
    start_page: u16,
    num_pages: u16,
}

impl Buffer {
    pub closed spec fn spec_start_page(&self) -> u16 {
        self.start_page
    }

    pub closed spec fn spec_num_pages(&self) -> u16 {
        self.num_pages
    }

    /// Byte address of the buffer in video memory.
    pub fn start_address(&self) -> (a: u32)
        ensures
            a == self.spec_start_page() * PAGE_SIZE,
    {
        self.start_page as u32 * PAGE_SIZE
    }

    /// Size of the buffer in bytes.
    pub fn size(&self) -> (s: u32)
        ensures
            s == self.spec_num_pages() * PAGE_SIZE,
    {
        self.num_pages as u32 * PAGE_SIZE
    }

    fn from_allocation_info(allocation: &Allocation) -> (b: Buffer)
        ensures
            b.spec_start_page() == allocation.start_page,
            b.spec_num_pages() == allocation.num_pages,
    {
        Buffer { start_page: allocation.start_page, num_pages: allocation.num_pages }
    }

    fn as_allocation_info(&self) -> (a: Allocation)
        ensures
            a.start_page == self.spec_start_page(),
            a.num_pages == self.spec_num_pages(),
    {
        Allocation { start_page: self.start_page, num_pages: self.num_pages }
    }
}

/// Keeps track of which pages of video memory are in use.
pub struct VramAllocator {
    allocations: Vec<Allocation>,
}

impl VramAllocator {
    /// The allocations, ordered by address.
    pub closed spec fn allocations(&self) -> Seq<Allocation> {
        self.allocations@
    }

    pub open spec fn wf(&self) -> bool {
        allocations_wf(self.allocations())
    }

    /// An allocator with all of video memory free.
    pub fn new() -> (v: Self)
        ensures
            v.wf(),
            v.allocations() == Seq::<Allocation>::empty(),
    {
        VramAllocator { allocations: Vec::new() }
    }

    fn gap_bounds(&self, k: usize) -> (r: (u16, u16))
        requires
            self.wf(),
            k <= self.allocations().len(),
        ensures
            r.0 == gap_start(self.allocations(), k as int),
            r.1 == gap_end(self.allocations(), k as int),
    {
        let start: u16 = if k == 0 {
            0
        } else {
            proof {
                assert(gap_start(self.allocations(), k - 1) <= gap_end(self.allocations(), k - 1));
                assert(gap_start(self.allocations(), k as int) <= gap_end(self.allocations(), k as int));
            }
            self.allocations[k - 1].start_page + self.allocations[k - 1].num_pages
        };
        let end: u16 = if k == self.allocations.len() {
            VRAM_NUM_PAGES
        } else {
            self.allocations[k].start_page
        };
        (start, end)
    }

    /// Reserves `num_pages` pages, in the lowest or the highest gap between allocations that
    /// is large enough: at the start of a lowest gap, or at the end of a highest one.
    /// Fails with `OutOfMemoryError` when no gap is large enough.
    pub fn reserve(&mut self, num_pages: u16, placement_preference: Placement) -> (r: Result<
        Buffer,
        OutOfMemoryError,
    >)
        requires
            old(self).wf(),
            old(self).allocations().len() < MAX_ALLOCATIONS || !any_gap_fits(
                old(self).allocations(),
                num_pages,
            ),
        ensures
            final(self).wf(),
            r is Err == !any_gap_fits(old(self).allocations(), num_pages),
            r is Err ==> final(self).allocations() == old(self).allocations(),
            r matches Ok(b) ==> b.spec_num_pages() == num_pages && reservation_placed(
                old(self).allocations(),
                final(self).allocations(),
                placement_preference,
                num_pages,
                b.spec_start_page(),
            ),
    {
        let ghost a = self.allocations@;
        let found = match placement_preference {
            Placement::PreferLowest => self.find_lowest_gap(num_pages),
            Placement::PreferHighest => self.find_highest_gap(num_pages),
        };
        match found {
            None => Err(OutOfMemoryError),
            Some(k) => {
                let (start, end) = self.gap_bounds(k);
                let start_page = match placement_preference {
                    Placement::PreferLowest => start,
                    Placement::PreferHighest => end - num_pages,
                };
                let allocation = Allocation { start_page, num_pages };
                self.insert_allocation(allocation, k);
                proof {
                    assert(gap_fits(a, k as int, num_pages));
                }
                Ok(Buffer::from_allocation_info(&allocation))
            },
        }
    }

    /// The lowest gap of at least `num_pages` pages.
    fn find_lowest_gap(&self, num_pages: u16) -> (r: Option<usize>)
        requires
            self.wf(),
        ensures
            r is None == !any_gap_fits(self.allocations(), num_pages),
            r matches Some(k) ==> is_lowest_fit(self.allocations(), k as int, num_pages),
    {
        let ghost a = self.allocations@;
        let n = self.allocations.len();
        let mut k: usize = 0;
        while k <= n
            invariant
                self.wf(),
                a == self.allocations@,
                n == a.len(),
                k <= n + 1,
                forall|j: int| 0 <= j < k ==> !#[trigger] gap_fits(a, j, num_pages),
            decreases n + 1 - k,
        {
            let (start, end) = self.gap_bounds(k);
            if end - start >= num_pages {
                assert(gap_fits(a, k as int, num_pages));
                return Some(k);
            }
            k += 1;
        }
        None
    }

    /// The highest gap of at least `num_pages` pages.
    fn find_highest_gap(&self, num_pages: u16) -> (r: Option<usize>)
        requires
            self.wf(),
        ensures
            r is None == !any_gap_fits(self.allocations(), num_pages),
            r matches Some(k) ==> is_highest_fit(self.allocations(), k as int, num_pages),
    {
        let ghost a = self.allocations@;
        let n = self.allocations.len();
        let mut k: usize = n + 1;
        while k > 0
            invariant
                self.wf(),
                a == self.allocations@,
                n == a.len(),
                k <= n + 1,
                forall|j: int| k <= j <= n ==> !#[trigger] gap_fits(a, j, num_pages),
            decreases k,
        {
            let (start, end) = self.gap_bounds(k - 1);
            if end - start >= num_pages {
                assert(gap_fits(a, k - 1, num_pages));
                return Some(k - 1);
            }
            k -= 1;
        }
        None
    }

    /// Inserts an allocation that fits in gap `new_index`.
    fn insert_allocation(&mut self, allocation: Allocation, new_index: usize)
        requires
            old(self).wf(),
            old(self).allocations().len() < MAX_ALLOCATIONS,
            new_index <= old(self).allocations().len(),
            gap_start(old(self).allocations(), new_index as int) <= allocation.start_page,
            end_page(allocation) <= gap_end(old(self).allocations(), new_index as int),
        ensures
            final(self).wf(),
            final(self).allocations() == old(self).allocations().insert(new_index as int, allocation),
    {
        let ghost a = self.allocations@;
        self.allocations.insert(new_index, allocation);
        proof {
            let b = self.allocations@;
            assert forall|k: int| 0 <= k <= b.len() implies #[trigger] gap_start(b, k) <= gap_end(b, k) by {
                if k < new_index {
                    assert(gap_start(b, k) == gap_start(a, k));
                    assert(gap_end(b, k) == gap_end(a, k));
                } else if k == new_index {
                } else if k == new_index + 1 {
                } else {
                    assert(gap_start(b, k) == gap_start(a, k - 1));
                    assert(gap_end(b, k) == gap_end(a, k - 1));
                }
            }
        }
    }

    /// Returns the pages of a buffer: removes the first allocation starting at the buffer's
    /// first page.
    pub fn free(&mut self, buffer: Buffer)
        requires
            old(self).wf(),
            exists|k: int|
                0 <= k < old(self).allocations().len() && #[trigger] old(self).allocations()[k].start_page
                    == buffer.spec_start_page(),
        ensures
            final(self).wf(),
            exists|k: int|
                {
                    &&& 0 <= k < old(self).allocations().len()
                    &&& #[trigger] old(self).allocations()[k].start_page == buffer.spec_start_page()
                    &&& forall|j: int|
                        0 <= j < k ==> old(self).allocations()[j].start_page
                            != buffer.spec_start_page()
                    &&& final(self).allocations() == old(self).allocations().remove(k)
                },
    {
        let allocation = buffer.as_allocation_info();
        self.remove_allocation(allocation);
    }

    fn remove_allocation(&mut self, allocation: Allocation)
        requires
            old(self).wf(),
            exists|k: int|
                0 <= k < old(self).allocations().len() && #[trigger] old(self).allocations()[k].start_page
                    == allocation.start_page,
        ensures
            final(self).wf(),
            exists|k: int|
                {
                    &&& 0 <= k < old(self).allocations().len()
                    &&& #[trigger] old(self).allocations()[k].start_page == allocation.start_page
                    &&& forall|j: int|
                        0 <= j < k ==> old(self).allocations()[j].start_page
                            != allocation.start_page
                    &&& final(self).allocations() == old(self).allocations().remove(k)
                },
    {
        let ghost a = self.allocations@;
        let mut i: usize = 0;
        while i < self.allocations.len() && self.allocations[i].start_page != allocation.start_page
            invariant
                a == self.allocations@,
                i <= a.len(),
                forall|j: int| 0 <= j < i ==> a[j].start_page != allocation.start_page,
                exists|k: int| 0 <= k < a.len() && #[trigger] a[k].start_page == allocation.start_page,
            decreases a.len() - i,
        {
            i += 1;
        }
        if i == self.allocations.len() {
            let ghost k = choose|k: int| 0 <= k < a.len() && #[trigger] a[k].start_page == allocation.start_page;
            assert(a[k].start_page != allocation.start_page);
        }
        self.allocations.remove(i);
        proof {
            let b = self.allocations@;
            assert(a[i as int].start_page == allocation.start_page);
            assert forall|k: int| 0 <= k <= b.len() implies #[trigger] gap_start(b, k) <= gap_end(b, k) by {
                if k < i {
                    assert(gap_start(b, k) == gap_start(a, k));
                    assert(gap_end(b, k) == gap_end(a, k));
                } else if k == i {
                    assert(gap_start(a, k) <= gap_end(a, k));
                    assert(gap_start(a, k + 1) <= gap_end(a, k + 1));
                } else {
                    assert(gap_start(b, k) == gap_start(a, k + 1));
                    assert(gap_end(b, k) == gap_end(a, k + 1));
                }
            }
        }
    }
}


impl Buffer {
    /// Reserves a buffer of `num_pages` pages of video memory (see `VramAllocator::reserve`).
    pub fn new(vram: &mut VramAllocator, num_pages: u16, placement_preference: Placement) -> (r:
        Result<Buffer, OutOfMemoryError>)
        requires
            old(vram).wf(),
            old(vram).allocations().len() < MAX_ALLOCATIONS || !any_gap_fits(
                old(vram).allocations(),
                num_pages,
            ),
        ensures
            final(vram).wf(),
            r is Err == !any_gap_fits(old(vram).allocations(), num_pages),
            r is Err ==> final(vram).allocations() == old(vram).allocations(),
            r matches Ok(b) ==> b.spec_num_pages() == num_pages && reservation_placed(
                old(vram).allocations(),
                final(vram).allocations(),
                placement_preference,
                num_pages,
                b.spec_start_page(),
            ),
    {
        vram.reserve(num_pages, placement_preference)
    }

    /// Gives the buffer's pages back to the allocator.
    pub fn release(self, vram: &mut VramAllocator)
        requires
            old(vram).wf(),
            allocated_at(old(vram).allocations(), self.spec_start_page()),
        ensures
            final(vram).wf(),
            released_at(old(vram).allocations(), final(vram).allocations(), self.spec_start_page()),
    {
        vram.free(self);
    }
}

/// Some allocation starts at page `start_page`.
pub open spec fn allocated_at(a: Seq<Allocation>, start_page: u16) -> bool {
    exists|k: int| 0 <= k < a.len() && #[trigger] a[k].start_page == start_page
}

/// `after` is `before` without its first allocation that starts at page `start_page`.
pub open spec fn released_at(before: Seq<Allocation>, after: Seq<Allocation>, start_page: u16) -> bool {
    exists|k: int|
        {
            &&& 0 <= k < before.len()
            &&& #[trigger] before[k].start_page == start_page
            &&& forall|j: int| 0 <= j < k ==> before[j].start_page != start_page
            &&& after == before.remove(k)
        }
}

/// An allocation ends no later than any later gap starts.
pub proof fn lemma_ends_before_gap(a: Seq<Allocation>, j: int, m: int)
    requires
        allocations_wf(a),
        0 <= j < m <= a.len(),
    ensures
        end_page(a[j]) <= gap_start(a, m),
    decreases m - j,
{
    if m > j + 1 {
        lemma_ends_before_gap(a, j, m - 1);
        assert(gap_start(a, m - 1) <= gap_end(a, m - 1));
    }
}

/// Reserving a non-empty buffer and then releasing it gives back the allocations there were
/// before, when no allocation was empty.
pub proof fn lemma_reserve_release_round_trip(
    a: Seq<Allocation>,
    k: int,
    num_pages: u16,
    start_page: u16,
)
    requires
        allocations_wf(a),
        0 <= k <= a.len(),
        num_pages > 0,
        forall|j: int| 0 <= j < a.len() ==> #[trigger] a[j].num_pages > 0,
        gap_start(a, k) <= start_page,
        start_page + num_pages <= gap_end(a, k),
    ensures
        ({
            let after = a.insert(k, Allocation { start_page, num_pages });
            &&& after[k].start_page == start_page
            &&& forall|j: int| 0 <= j < k ==> after[j].start_page != start_page
            &&& after.remove(k) == a
        }),
{
    let after = a.insert(k, Allocation { start_page, num_pages });
    assert forall|j: int| 0 <= j < k implies after[j].start_page != start_page by {
        assert(after[j] == a[j]);
        lemma_ends_before_gap(a, j, k);
    }
    assert(after.remove(k) =~= a);
}

/// Pixels per storage word, as the buffer size calculation needs them.
pub open spec fn spec_is_palette_format(pf: PixelStorageMethod) -> bool {
    match pf {
        PixelStorageMethod::Psm8 | PixelStorageMethod::Psm4 | PixelStorageMethod::Psm8H
        | PixelStorageMethod::Psm4HL | PixelStorageMethod::Psm4HH => true,
        _ => false,
    }
}

/// Buffer width rounded up to a multiple of 128 (palette formats) or 64 pixels, unless the
/// buffer is a palette (16 pixels wide or less).
pub open spec fn spec_padded_width(width: u32, pf: PixelStorageMethod) -> u32 {
    if width > 16 {
        if spec_is_palette_format(pf) {
            0xFFFF_FF80u32 & ((width + 127) as u32)
        } else {
            0xFFFF_FFC0u32 & ((width + 63) as u32)
        }
    } else {
        width
    }
}

/// Storage needed for the pixels of a `width` x `height` buffer.
pub open spec fn spec_num_words(width: u32, height: u32, pf: PixelStorageMethod) -> int {
    match pf {
        PixelStorageMethod::Psm4 => (width * height) / 2,
        PixelStorageMethod::Psm8 => width * height,
        PixelStorageMethod::Psm24 | PixelStorageMethod::Psm32 | PixelStorageMethod::Psm8H
        | PixelStorageMethod::Psm4HL | PixelStorageMethod::Psm4HH | PixelStorageMethod::PsmZ24
        | PixelStorageMethod::PsmZ32 => width * height * 4,
        PixelStorageMethod::Psm16 | PixelStorageMethod::Psm16S | PixelStorageMethod::PsmZ16
        | PixelStorageMethod::PsmZ16S => width * height * 2,
    }
}

/// The size calculation stays within 32 bits.
pub open spec fn size_fits(width: u32, height: u32, pf: PixelStorageMethod, alignment: u32) -> bool {
    &&& width + 127 <= u32::MAX
    &&& spec_num_words(spec_padded_width(width, pf), height, pf) + alignment - 1 <= u32::MAX
    &&& spec_padded_width(width, pf) * height * 4 <= u32::MAX
}

/// Whether `a` is a power of two.
pub open spec fn is_power_of_two(a: u32) -> bool {
    a != 0 && a & ((a - 1) as u32) == 0
}

/// Rounding `x` up to a power of two `a` by masking off the low bits of `x + a - 1` gives the
/// least multiple of `a` that is at least `x`.
pub proof fn lemma_round_up_power_of_two(x: u32, a: u32)
    requires
        is_power_of_two(a),
        x + a - 1 <= u32::MAX,
    ensures
        (((0x1_0000_0000 - a) as u32) & ((x + a - 1) as u32)) % a == 0,
        x <= ((0x1_0000_0000 - a) as u32) & ((x + a - 1) as u32) < x + a,
{
    let r = ((0x1_0000_0000 - a) as u32) & ((x + a - 1) as u32);
    assert(r % a == 0 && x <= r && r < x + a) by (bit_vector)
        requires
            a != 0,
            a & ((a - 1) as u32) == 0,
            x + a - 1 <= u32::MAX,
            r == ((0x1_0000_0000 - a) as u32) & ((x + a - 1) as u32),
    ;
}

/// Bytes of video memory a texture takes (rounded to whole pages).
pub open spec fn spec_texture_size(width: u32, height: u32, pf: PixelStorageMethod) -> u32 {
    ((0x1_0000_0000 - PAGE_SIZE) as u32) & ((spec_num_words(spec_padded_width(width, pf), height, pf)
        + PAGE_SIZE - 1) as u32)
}

/// Pages of video memory a texture takes.
pub open spec fn spec_texture_pages(width: u32, height: u32, pf: PixelStorageMethod) -> int {
    let size = spec_texture_size(width, height, pf);
    size / PAGE_SIZE + if size % PAGE_SIZE != 0 {
        1int
    } else {
        0int
    }
}

/// A texture in video memory.
#[derive(Debug)]
pub struct Texture {
    buffer: Buffer,
    width: u32,
    height: u32,
    pixel_format: PixelStorageMethod,
}

impl Texture {
    pub closed spec fn spec_buffer(&self) -> &Buffer {
        &self.buffer
    }

    pub closed spec fn spec_width(&self) -> u32 {
        self.width
    }

    pub closed spec fn spec_height(&self) -> u32 {
        self.height
    }

    pub closed spec fn spec_pixel_format(&self) -> PixelStorageMethod {
        self.pixel_format
    }

    /// Gives the texture's video memory back to the allocator.
    pub fn release(self, vram: &mut VramAllocator)
        requires
            old(vram).wf(),
            allocated_at(old(vram).allocations(), self.spec_buffer().spec_start_page()),
        ensures
            final(vram).wf(),
            released_at(
                old(vram).allocations(),
                final(vram).allocations(),
                self.spec_buffer().spec_start_page(),
            ),
    {
        self.buffer.release(vram);
    }

    /// Bytes a `width` x `height` texture takes, rounded up to `alignment` (a power of two).
    pub fn calculate_size(width: u32, height: u32, pixel_format: PixelStorageMethod, alignment: u32) -> (size: u32)
        requires
            alignment >= 1,
            size_fits(width, height, pixel_format, alignment),
        ensures
            size == ((0x1_0000_0000 - alignment) as u32) & ((spec_num_words(
                spec_padded_width(width, pixel_format),
                height,
                pixel_format,
            ) + alignment - 1) as u32),
            is_power_of_two(alignment) ==> {
                let raw = spec_num_words(spec_padded_width(width, pixel_format), height, pixel_format);
                &&& size % alignment == 0
                &&& raw <= size < raw + alignment
            },
    {
        proof {
            if is_power_of_two(alignment) {
                lemma_round_up_power_of_two(
                    spec_num_words(spec_padded_width(width, pixel_format), height, pixel_format) as u32,
                    alignment,
                );
            }
        }
        let width = if width > 16 {
            match pixel_format {
                PixelStorageMethod::Psm8 | PixelStorageMethod::Psm4 | PixelStorageMethod::Psm8H
                | PixelStorageMethod::Psm4HL | PixelStorageMethod::Psm4HH => 0xFFFF_FF80u32 & (width + 127),
                _ => 0xFFFF_FFC0u32 & (width + 63),
            }
        } else {
            width
        };
        proof {
            assert(width * height <= width * height * 4) by (nonlinear_arith);
            assert(width * height * 2 <= width * height * 4) by (nonlinear_arith);
        }
        let num_words = match pixel_format {
            PixelStorageMethod::Psm4 => (width * height) / 2,
            PixelStorageMethod::Psm8 => width * height,
            PixelStorageMethod::Psm24 | PixelStorageMethod::Psm32 | PixelStorageMethod::Psm8H
            | PixelStorageMethod::Psm4HL | PixelStorageMethod::Psm4HH | PixelStorageMethod::PsmZ24
            | PixelStorageMethod::PsmZ32 => width * height * 4,
            PixelStorageMethod::Psm16 | PixelStorageMethod::Psm16S | PixelStorageMethod::PsmZ16
            | PixelStorageMethod::PsmZ16S => width * height * 2,
        };
        0u32.wrapping_sub(alignment) & (num_words + (alignment - 1))
    }

    /// Makes a texture, reserving video memory for it.
    pub fn new(
        vram: &mut VramAllocator,
        width: u32,
        height: u32,
        pixel_format: PixelStorageMethod,
        placement_preference: Placement,
    ) -> (r: Result<Texture, OutOfMemoryError>)
        requires
            old(vram).wf(),
            size_fits(width, height, pixel_format, PAGE_SIZE),
            spec_texture_pages(width, height, pixel_format) <= u16::MAX,
            old(vram).allocations().len() < MAX_ALLOCATIONS || !any_gap_fits(
                old(vram).allocations(),
                spec_texture_pages(width, height, pixel_format) as u16,
            ),
        ensures
            final(vram).wf(),
            r is Err == !any_gap_fits(
                old(vram).allocations(),
                spec_texture_pages(width, height, pixel_format) as u16,
            ),
            r is Err ==> final(vram).allocations() == old(vram).allocations(),
            r matches Ok(t) ==> {
                &&& t.spec_width() == width
                &&& t.spec_height() == height
                &&& t.spec_pixel_format() == pixel_format
                &&& t.spec_buffer().spec_num_pages() == spec_texture_pages(width, height, pixel_format)
                &&& reservation_placed(
                    old(vram).allocations(),
                    final(vram).allocations(),
                    placement_preference,
                    t.spec_buffer().spec_num_pages(),
                    t.spec_buffer().spec_start_page(),
                )
            },
    {
        let size = Texture::calculate_size(width, height, pixel_format, PAGE_SIZE);
        let num_pages: u16 = (size / PAGE_SIZE + if size % PAGE_SIZE != 0 { 1 } else { 0 }) as u16;
        assert(num_pages == spec_texture_pages(width, height, pixel_format));
        match Buffer::new(vram, num_pages, placement_preference) {
            Ok(buffer) => Ok(Texture { buffer, width, height, pixel_format }),
            Err(e) => Err(e),
        }
    }

    pub fn get_buffer(&self) -> (b: &Buffer)
        ensures
            b == self.spec_buffer(),
    {
        &self.buffer
    }

    pub fn start_address(&self) -> (a: u32)
        ensures
            a == self.spec_buffer().spec_start_page() * PAGE_SIZE,
    {
        self.buffer.start_address()
    }

    pub fn buffer_size(&self) -> (s: u32)
        ensures
            s == self.spec_buffer().spec_num_pages() * PAGE_SIZE,
    {
        self.buffer.size()
    }

    pub fn width(&self) -> (w: u32)
        ensures
            w == self.spec_width(),
    {
        self.width
    }

    pub fn height(&self) -> (h: u32)
        ensures
            h == self.spec_height(),
    {
        self.height
    }

    pub fn pixel_format(&self) -> (p: PixelStorageMethod)
        ensures
            p == self.spec_pixel_format(),
    {
        self.pixel_format
    }
}


/// Bits one pixel of a storage format takes: 4 or 8 for the palette-index formats, 16 for the
/// 16-bit colour and depth formats, and 32 for the rest (24-bit colour and the high-bits
/// palette formats are stored in 32-bit words).
pub open spec fn pixel_storage_bits(pf: PixelStorageMethod) -> int {
    match pf {
        PixelStorageMethod::Psm4 => 4,
        PixelStorageMethod::Psm8 => 8,
        PixelStorageMethod::Psm16 | PixelStorageMethod::Psm16S | PixelStorageMethod::PsmZ16
        | PixelStorageMethod::PsmZ16S => 16,
        _ => 32,
    }
}

/// The storage of a buffer is its pixels times the bytes each pixel takes (rounded down to whole
/// bytes for 4-bit pixels): one byte a pixel for `Psm8`, half for `Psm4`, two for the 16-bit
/// formats, four for the others.
pub proof fn lemma_storage_is_pixels_times_pixel_size(width: u32, height: u32, pf: PixelStorageMethod)
    ensures
        spec_num_words(width, height, pf) == (width * height * pixel_storage_bits(pf)) / 8,
{
    let p = width * height;
    assert(p * 4 / 8 == p / 2) by {
        vstd::arithmetic::div_mod::lemma_fundamental_div_mod(p, 2);
        vstd::arithmetic::div_mod::lemma_fundamental_div_mod_converse(p * 4, 8, p / 2, (p % 2) * 4);
    }
    assert(p * 8 / 8 == p);
    assert(p * 16 / 8 == p * 2);
    assert(p * 32 / 8 == p * 4);
    assert(width * height * pixel_storage_bits(pf) == p * pixel_storage_bits(pf)) by (nonlinear_arith)
        requires
            p == width * height,
    ;
}

/// With no rounding (alignment 1), a texture takes exactly its padded pixels times the bytes a
/// pixel takes.
pub proof fn lemma_unaligned_texture_size(width: u32, height: u32, pf: PixelStorageMethod)
    requires
        size_fits(width, height, pf, 1),
    ensures
        spec_num_words(spec_padded_width(width, pf), height, pf) == (spec_padded_width(width, pf)
            * height * pixel_storage_bits(pf)) / 8,
        is_power_of_two(1),
{
    lemma_storage_is_pixels_times_pixel_size(spec_padded_width(width, pf), height, pf);
    assert(1u32 & 0u32 == 0) by (bit_vector);
}


/// Buffer widths are padded to the GS page width: beyond 16 pixels (a palette up to 16 wide is
/// kept as it is), to the least multiple of 128 pixels for the 4- and 8-bit palette-index
/// formats and of 64 pixels for the others, at or above the width asked for.
pub proof fn lemma_padded_width(width: u32, pf: PixelStorageMethod)
    requires
        width + 127 <= u32::MAX,
    ensures
        width <= 16 ==> spec_padded_width(width, pf) == width,
        width > 16 ==> {
            let m: int = if spec_is_palette_format(pf) { 128 } else { 64 };
            &&& (spec_padded_width(width, pf) as int) % m == 0
            &&& width <= spec_padded_width(width, pf) < width + m
        },
{
    if width > 16 {
        assert(128u32 & 127u32 == 0 && 64u32 & 63u32 == 0) by (bit_vector);
        lemma_round_up_power_of_two(width, 128);
        lemma_round_up_power_of_two(width, 64);
        assert(((0x1_0000_0000 - 128u32) as u32) == 0xFFFF_FF80u32);
        assert(((0x1_0000_0000 - 64u32) as u32) == 0xFFFF_FFC0u32);
    }
}

} // verus!
