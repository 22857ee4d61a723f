//! The device memory allocator: sub-allocates pages of device memory into
//! blocks bound to buffers and images.
//!
//! Pages are bump-allocated: a block is carved from the first page of a
//! compatible memory type with room, and a page's capacity returns once its
//! last live block is released. Live blocks never overlap, each stays inside
//! its page, and block ids are never reused.

use vstd::prelude::*;

use crate::buffer::{align_up, spec_align_up};
use crate::error::RenderError;
use crate::flags;

verus! {

/// Bytes of a fresh page when the request itself is smaller.
pub const DEFAULT_PAGE_SIZE: u64 = 65536;

/// One memory type exposed by the device.
#[derive(Clone, Copy, Debug, PartialEq, Eq, Structural)]
pub struct MemoryType {
    /// The type can be mapped for host reads and writes.
    pub host_visible: bool,
    /// The type lives in device-local memory.
    pub device_local: bool,
}

/// A request for a memory block.
#[derive(Clone, Copy, Debug, PartialEq, Eq, Structural)]
pub struct MemoryRequest {
    /// Byte size of the block.
    pub size: u64,
    /// Alignment of the block's offset, as a mask (`alignment - 1`).
    pub align_mask: u64,
    /// Usage hints (`flags::MEMORY_USAGE_*`).
    pub usage: u32,
    /// Bitmask of acceptable memory type indices.
    pub memory_types: u32,
}

/// A block of device memory carved out of a page.
#[derive(Clone, Copy, Debug, PartialEq, Eq, Structural)]
pub struct MemoryBlock {
    /// Unique id of this block; never reused by the allocator.
    pub id: u64,
    /// Handle of the owning page's device memory.
    pub memory: u64,
    /// Byte offset of the block inside the page.
    pub offset: u64,
    /// Byte size of the block.
    pub size: u64,
    /// Whether the owning page's memory type is host-visible.
    pub host_visible: bool,
}

/// One page of device memory owned by the allocator.
#[derive(Clone, Copy, Debug, PartialEq, Eq, Structural)]
pub struct MemoryPage {
    /// Device memory handle of the page; never zero.
    pub handle: u64,
    /// Byte size of the page.
    pub size: u64,
    /// Bump cursor: everything below it is carved out.
    pub cursor: u64,
    /// Index of the page's memory type.
    pub memory_type: u32,
}

/// True when a memory type satisfies the usage hints of a request.
pub open spec fn spec_type_matches(t: MemoryType, usage: u32) -> bool {
    usage & flags::MEMORY_USAGE_NEEDS_HOST_VISIBLE != 0 ==> t.host_visible
}

/// Executable twin of `spec_type_matches`.
fn type_matches(t: &MemoryType, usage: u32) -> (r: bool)
    ensures
        r == spec_type_matches(*t, usage),
{
    if usage & flags::MEMORY_USAGE_NEEDS_HOST_VISIBLE != 0 {
        t.host_visible
    } else {
        true
    }
}

/// True when some memory type both is allowed by the request's type mask and
/// satisfies its usage hints; allocation succeeds exactly on such requests.
pub open spec fn spec_has_compatible_type(types: Seq<MemoryType>, request: MemoryRequest) -> bool {
    exists|i: int|
        0 <= i < types.len() && i < 32 && (request.memory_types >> (i as u32)) & 1 == 1
            && spec_type_matches(types[i], request.usage)
}

/// Two blocks occupy disjoint memory: different pages, or non-overlapping
/// byte ranges on the same page.
pub open spec fn spec_blocks_disjoint(a: MemoryBlock, b: MemoryBlock) -> bool {
    a.memory != b.memory || a.offset + a.size <= b.offset || b.offset + b.size <= a.offset
}

/// The block `b` lies inside one of `pages`, below its cursor, and records
/// the host visibility of that page's memory type.
pub open spec fn spec_block_in_pages(
    pages: Seq<MemoryPage>,
    types: Seq<MemoryType>,
    b: MemoryBlock,
) -> bool {
    exists|p: int|
        0 <= p < pages.len() && (#[trigger] pages[p]).handle == b.memory && b.offset + b.size
            <= pages[p].cursor && b.host_visible == types[pages[p].memory_type as int].host_visible
}

/// The device memory allocator. All mutation goes through `allocate` and
/// `release`; `wf` is the invariant both preserve.
pub struct MemoryAllocator {
    /// The memory types of the device, fixed at construction.
    pub types: Vec<MemoryType>,
    /// The pages allocated so far.
    pub pages: Vec<MemoryPage>,
    /// The blocks currently live.
    pub live: Vec<MemoryBlock>,
    /// Next block id to hand out.
    pub next_block_id: u64,
    /// Next page handle to hand out.
    pub next_memory_handle: u64,
}

impl MemoryAllocator {
    /// The block `b` lies inside a page of this allocator.
    pub open spec fn spec_block_in_page(self, b: MemoryBlock) -> bool {
        spec_block_in_pages(self.pages@, self.types@, b)
    }

    /// The allocator's invariant: pages have distinct non-zero handles below
    /// the handle counter and valid memory types; live blocks sit inside
    /// their pages, are pairwise disjoint, and carry distinct ids below the
    /// id counter.
    pub open spec fn wf(self) -> bool {
        &&& self.types@.len() <= 32
        &&& self.next_block_id >= 1
        &&& self.next_memory_handle >= 1
        &&& forall|i: int, j: int|
            0 <= i < self.pages@.len() && 0 <= j < self.pages@.len() && i != j ==> (
            #[trigger] self.pages@[i]).handle != (#[trigger] self.pages@[j]).handle
        &&& forall|p: int|
            0 <= p < self.pages@.len() ==> 0 < (#[trigger] self.pages@[p]).handle
                < self.next_memory_handle
        &&& forall|p: int|
            0 <= p < self.pages@.len() ==> (#[trigger] self.pages@[p]).cursor
                <= self.pages@[p].size
        &&& forall|p: int|
            0 <= p < self.pages@.len() ==> (#[trigger] self.pages@[p]).memory_type
                < self.types@.len()
        &&& forall|b: int|
            0 <= b < self.live@.len() ==> spec_block_in_pages(
                self.pages@,
                self.types@,
                #[trigger] self.live@[b],
            )
        &&& forall|i: int, j: int|
            0 <= i < self.live@.len() && 0 <= j < self.live@.len() && i != j
                ==> spec_blocks_disjoint(#[trigger] self.live@[i], #[trigger] self.live@[j])
        &&& forall|i: int, j: int|
            0 <= i < self.live@.len() && 0 <= j < self.live@.len() && i != j ==> (
            #[trigger] self.live@[i]).id != (#[trigger] self.live@[j]).id
        &&& forall|b: int|
            0 <= b < self.live@.len() ==> (#[trigger] self.live@[b]).id < self.next_block_id
    }

    /// A block with this id is currently live.
    pub open spec fn spec_is_live(self, id: u64) -> bool {
        exists|i: int| 0 <= i < self.live@.len() && (#[trigger] self.live@[i]).id == id
    }

    /// A fresh allocator over the given memory types; no pages, no blocks.
    pub fn new(types: Vec<MemoryType>) -> (r: MemoryAllocator)
        requires
            types@.len() <= 32,
        ensures
            r.wf(),
            r.types@ == types@,
            r.live@.len() == 0,
            r.pages@.len() == 0,
    {
        MemoryAllocator {
            types,
            pages: Vec::new(),
            live: Vec::new(),
            next_block_id: 1,
            next_memory_handle: 1,
        }
    }

    /// How many blocks are currently live.
    pub fn live_count(&self) -> (r: usize)
        ensures
            r == self.live@.len(),
    {
        self.live.len()
    }

    /// Index of the first memory type compatible with the request.
    fn find_type(&self, request: &MemoryRequest) -> (r: Option<usize>)
        requires
            self.types@.len() <= 32,
        ensures
            match r {
                Some(i) => i < self.types@.len() && (request.memory_types >> (i as u32)) & 1 == 1
                    && spec_type_matches(self.types@[i as int], request.usage),
                None => !spec_has_compatible_type(self.types@, *request),
            },
    {
        let mut i: usize = 0;
        while i < self.types.len()
            invariant
                self.types@.len() <= 32,
                i <= self.types@.len(),
                forall|k: int|
                    0 <= k < i ==> !((request.memory_types >> (k as u32)) & 1 == 1
                        && spec_type_matches(self.types@[k], request.usage)),
            decreases self.types@.len() - i,
        {
            if (request.memory_types >> (i as u32)) & 1 == 1 && type_matches(
                &self.types[i],
                request.usage,
            ) {
                return Some(i);
            }
            i = i + 1;
        }
        None
    }

    /// Index of the first page of memory type `ti` with room for the
    /// request, together with the aligned offset the block would get.
    fn find_page(&self, ti: usize, request: &MemoryRequest) -> (r: Option<(usize, u64)>)
        ensures
            match r {
                Some((p, off)) => p < self.pages@.len() && self.pages@[p as int].memory_type == ti
                    && self.pages@[p as int].cursor <= off && off & request.align_mask == 0 && off
                    + request.size <= self.pages@[p as int].size,
                None => true,
            },
    {
        let mut p: usize = 0;
        while p < self.pages.len()
            decreases self.pages@.len() - p,
        {
            if self.pages[p].memory_type as usize == ti {
                if let Some(off) = align_up(request.align_mask, self.pages[p].cursor) {
                    proof {
                        crate::buffer::lemma_align_up_bounds(
                            request.align_mask,
                            self.pages@[p as int].cursor,
                        );
                    }
                    if let Some(end) = off.checked_add(request.size) {
                        if end <= self.pages[p].size {
                            return Some((p, off));
                        }
                    }
                }
            }
            p = p + 1;
        }
        None
    }

    /// Finds or creates a page of type `ti` with room for the request and
    /// returns its index with the aligned offset the block will occupy. Every
    /// live block on that page ends at or below the page's cursor.
    fn ensure_page(&mut self, ti: usize, request: &MemoryRequest) -> (r: (usize, u64))
        requires
            old(self).wf(),
            ti < old(self).types@.len(),
            old(self).next_memory_handle < u64::MAX,
        ensures
            final(self).wf(),
            final(self).live@ == old(self).live@,
            final(self).types@ == old(self).types@,
            final(self).next_block_id == old(self).next_block_id,
            old(self).next_memory_handle <= final(self).next_memory_handle <= old(
                self,
            ).next_memory_handle + 1,
            (r.0 as int) < final(self).pages@.len(),
            final(self).pages@[r.0 as int].memory_type == ti,
            final(self).pages@[r.0 as int].cursor <= r.1,
            r.1 & request.align_mask == 0,
            r.1 + request.size <= final(self).pages@[r.0 as int].size,
            forall|b: int|
                0 <= b < final(self).live@.len() && (#[trigger] final(self).live@[b]).memory
                    == final(self).pages@[r.0 as int].handle ==> final(self).live@[b].offset
                    + final(self).live@[b].size <= final(self).pages@[r.0 as int].cursor,
    {
        match self.find_page(ti, request) {
            Some((p, off)) => {
                proof {
                    lemma_blocks_below_cursor(*self, p as int);
                }
                (p, off)
            },
            None => {
                proof {
                    assert forall|b: int| 0 <= b < self.live@.len() implies 0 < (
                    #[trigger] self.live@[b]).memory < self.next_memory_handle by {
                        lemma_block_memory_bounded(*self, self.live@[b]);
                    }
                }
                let page_size = if request.size > DEFAULT_PAGE_SIZE {
                    request.size
                } else {
                    DEFAULT_PAGE_SIZE
                };
                let handle = self.next_memory_handle;
                self.next_memory_handle = self.next_memory_handle + 1;
                let page = MemoryPage { handle, size: page_size, cursor: 0, memory_type: ti as u32 };
                self.pages.push(page);
                let p = self.pages.len() - 1;
                proof {
                    let m = request.align_mask;
                    assert(0u64 & m == 0) by (bit_vector);
                    lemma_blocks_in_pages_preserved(*old(self), *self);
                }
                (p, 0)
            },
        }
    }

    /// Satisfies a memory request from a page of a compatible memory type,
    /// creating a page when none has room. Succeeds exactly when a compatible
    /// memory type exists and the id and handle counters are not exhausted;
    /// the block is fresh, sized as requested, aligned as requested, and
    /// host-visible whenever the request needs host access.
    pub fn allocate(&mut self, request: MemoryRequest) -> (r: Result<MemoryBlock, RenderError>)
        requires
            old(self).wf(),
        ensures
            final(self).wf(),
            final(self).types@ == old(self).types@,
            old(self).next_memory_handle <= final(self).next_memory_handle <= old(
                self,
            ).next_memory_handle + 1,
            (r is Ok) == (spec_has_compatible_type(old(self).types@, request) && old(
                self,
            ).next_block_id < u64::MAX && old(self).next_memory_handle < u64::MAX),
            r matches Ok(b) ==> b.size == request.size && b.offset & request.align_mask == 0 && (
            request.usage & flags::MEMORY_USAGE_NEEDS_HOST_VISIBLE != 0 ==> b.host_visible)
                && final(self).live@ == old(self).live@.push(b) && !old(self).spec_is_live(b.id)
                && final(self).spec_is_live(b.id) && b.id == old(self).next_block_id
                && final(self).next_block_id == old(self).next_block_id + 1,
            r is Err ==> *final(self) == *old(self) && r == Err::<
                MemoryBlock,
                RenderError,
            >(RenderError::OutOfMemory),
    {
        if self.next_block_id == u64::MAX || self.next_memory_handle == u64::MAX {
            return Err(RenderError::OutOfMemory);
        }
        let ti = match self.find_type(&request) {
            Some(t) => t,
            None => {
                return Err(RenderError::OutOfMemory);
            },
        };
        let (page_index, offset) = self.ensure_page(ti, &request);
        let ghost mid = *self;
        let page = self.pages[page_index];
        let end = offset + request.size;
        let block = MemoryBlock {
            id: self.next_block_id,
            memory: page.handle,
            offset,
            size: request.size,
            host_visible: self.types[page.memory_type as usize].host_visible,
        };
        self.next_block_id = self.next_block_id + 1;
        let mut updated = page;
        updated.cursor = end;
        self.pages.set(page_index, updated);
        proof {
            lemma_blocks_in_pages_preserved(mid, *self);
        }
        self.live.push(block);
        proof {
            assert(self.pages@[page_index as int].handle == block.memory && block.offset
                + block.size <= self.pages@[page_index as int].cursor && block.host_visible
                == self.types@[self.pages@[page_index as int].memory_type as int].host_visible);
            assert(spec_block_in_pages(self.pages@, self.types@, block));
            assert(self.live@[self.live@.len() - 1].id == block.id);
            assert(self.spec_is_live(block.id));
            assert forall|i: int, j: int|
                0 <= i < self.live@.len() && 0 <= j < self.live@.len() && i
                    != j implies spec_blocks_disjoint(
                #[trigger] self.live@[i],
                #[trigger] self.live@[j],
            ) by {
                let last = self.live@.len() - 1;
                if i == last || j == last {
                    let o: int = if i == last {
                        j
                    } else {
                        i
                    };
                    if self.live@[o].memory == block.memory {
                        assert(self.live@[o].offset + self.live@[o].size
                            <= mid.pages@[page_index as int].cursor);
                    }
                }
            }
        }
        Ok(block)
    }

    /// Returns a block to the allocator. Succeeds exactly when a block with
    /// this id is live; afterwards that id is live no longer and every other
    /// live block is untouched. Once a page's last block is released, the
    /// page's capacity returns in full. Releasing a dead block reports
    /// `BlockNotLive` and changes nothing.
    pub fn release(&mut self, block: MemoryBlock) -> (r: Result<(), RenderError>)
        requires
            old(self).wf(),
        ensures
            final(self).wf(),
            final(self).types@ == old(self).types@,
            final(self).next_block_id == old(self).next_block_id,
            final(self).next_memory_handle == old(self).next_memory_handle,
            (r is Ok) == old(self).spec_is_live(block.id),
            r is Ok ==> final(self).live@.len() == old(self).live@.len() - 1,
            forall|id: u64|
                final(self).spec_is_live(id) == (old(self).spec_is_live(id) && id != block.id),
            r is Err ==> *final(self) == *old(self) && r == Err::<
                (),
                RenderError,
            >(RenderError::BlockNotLive),
    {
        let i = match self.find_live_index(block.id) {
            Some(i) => i,
            None => {
                return Err(RenderError::BlockNotLive);
            },
        };
        let removed = self.live.remove(i);
        proof {
            assert forall|k: int| 0 <= k < self.live@.len() implies self.live@[k] == (if k < i {
                old(self).live@[k]
            } else {
                old(self).live@[k + 1]
            }) by {}
            assert forall|id: u64|
                self.spec_is_live(id) == (old(self).spec_is_live(id) && id != block.id) by {
                if self.spec_is_live(id) {
                    let k = choose|k: int|
                        0 <= k < self.live@.len() && (#[trigger] self.live@[k]).id == id;
                    let k0: int = if k < i {
                        k
                    } else {
                        k + 1
                    };
                    assert(old(self).live@[k0].id == id);
                    assert(old(self).live@[i as int].id == block.id);
                }
                if old(self).spec_is_live(id) && id != block.id {
                    let k0 = choose|k0: int|
                        0 <= k0 < old(self).live@.len() && (#[trigger] old(self).live@[k0]).id
                            == id;
                    assert(old(self).live@[i as int].id == block.id);
                    let k: int = if k0 < i {
                        k0
                    } else {
                        k0 - 1
                    };
                    assert(self.live@[k].id == id);
                }
            }
        }
        // If the owning page has no live block left, its capacity returns.
        if !self.has_block_on_memory(removed.memory) {
            if let Some(p) = self.find_page_index(removed.memory) {
                let mut reset = self.pages[p];
                reset.cursor = 0;
                self.pages.set(p, reset);
                proof {
                    assert forall|b: int| 0 <= b < self.live@.len() implies spec_block_in_pages(
                        self.pages@,
                        self.types@,
                        #[trigger] self.live@[b],
                    ) by {
                        let blk = self.live@[b];
                        let w = choose|w: int|
                            0 <= w < old(self).pages@.len() && (#[trigger] old(
                                self,
                            ).pages@[w]).handle == blk.memory && blk.offset + blk.size <= old(
                                self,
                            ).pages@[w].cursor && blk.host_visible == old(self).types@[old(
                            self,
                        ).pages@[w].memory_type as int].host_visible;
                        assert(blk.memory != removed.memory);
                        assert(w != p as int);
                        assert(self.pages@[w].handle == blk.memory && blk.offset + blk.size
                            <= self.pages@[w].cursor && blk.host_visible
                            == self.types@[self.pages@[w].memory_type as int].host_visible);
                    }
                }
            }
        }
        Ok(())
    }

    /// Releases every live block and frees every page: bulk teardown.
    pub fn release_all(&mut self)
        requires
            old(self).wf(),
        ensures
            final(self).wf(),
            final(self).types@ == old(self).types@,
            final(self).live@.len() == 0,
            final(self).pages@.len() == 0,
    {
        self.live = Vec::new();
        self.pages = Vec::new();
    }

    /// Index of the live block with the given id, if any.
    fn find_live_index(&self, id: u64) -> (r: Option<usize>)
        ensures
            match r {
                Some(i) => i < self.live@.len() && self.live@[i as int].id == id,
                None => !self.spec_is_live(id),
            },
    {
        let mut i: usize = 0;
        let n = self.live.len();
        while i < n
            invariant
                n == self.live@.len(),
                i <= n,
                forall|k: int| 0 <= k < i ==> (#[trigger] self.live@[k]).id != id,
            decreases n - i,
        {
            if self.live[i].id == id {
                return Some(i);
            }
            i = i + 1;
        }
        None
    }

    /// Whether any live block sits on the page with the given memory handle.
    fn has_block_on_memory(&self, memory: u64) -> (r: bool)
        ensures
            r == exists|j: int|
                0 <= j < self.live@.len() && (#[trigger] self.live@[j]).memory == memory,
    {
        let mut k: usize = 0;
        let m = self.live.len();
        while k < m
            invariant
                m == self.live@.len(),
                k <= m,
                forall|j: int| 0 <= j < k ==> (#[trigger] self.live@[j]).memory != memory,
            decreases m - k,
        {
            if self.live[k].memory == memory {
                return true;
            }
            k = k + 1;
        }
        false
    }

    /// Index of the page with the given memory handle, if any.
    fn find_page_index(&self, handle: u64) -> (r: Option<usize>)
        ensures
            match r {
                Some(p) => p < self.pages@.len() && self.pages@[p as int].handle == handle,
                None => true,
            },
    {
        let mut p: usize = 0;
        let n = self.pages.len();
        while p < n
            invariant
                n == self.pages@.len(),
                p <= n,
            decreases n - p,
        {
            if self.pages[p].handle == handle {
                return Some(p);
            }
            p = p + 1;
        }
        None
    }
}

/// Whether a compatible type exists depends only on a request's usage hints
/// and type mask, never on its size or alignment.
pub proof fn lemma_compatibility_ignores_size(
    types: Seq<MemoryType>,
    a: MemoryRequest,
    b: MemoryRequest,
)
    requires
        a.usage == b.usage,
        a.memory_types == b.memory_types,
    ensures
        spec_has_compatible_type(types, a) == spec_has_compatible_type(types, b),
{
    if spec_has_compatible_type(types, a) {
        let i = choose|i: int|
            0 <= i < types.len() && i < 32 && (a.memory_types >> (i as u32)) & 1 == 1
                && spec_type_matches(types[i], a.usage);
        assert(0 <= i < types.len() && i < 32 && (b.memory_types >> (i as u32)) & 1 == 1
            && spec_type_matches(types[i], b.usage));
    }
    if spec_has_compatible_type(types, b) {
        let i = choose|i: int|
            0 <= i < types.len() && i < 32 && (b.memory_types >> (i as u32)) & 1 == 1
                && spec_type_matches(types[i], b.usage);
        assert(0 <= i < types.len() && i < 32 && (a.memory_types >> (i as u32)) & 1 == 1
            && spec_type_matches(types[i], a.usage));
    }
}

/// Liveness survives any extension of the live list that keeps its prefix.
pub proof fn lemma_is_live_prefix(a0: MemoryAllocator, a1: MemoryAllocator)
    requires
        a0.live@.len() <= a1.live@.len(),
        forall|k: int| 0 <= k < a0.live@.len() ==> a1.live@[k] == a0.live@[k],
    ensures
        forall|id: u64| a0.spec_is_live(id) ==> #[trigger] a1.spec_is_live(id),
{
    assert forall|id: u64| a0.spec_is_live(id) implies #[trigger] a1.spec_is_live(id) by {
        let k = choose|k: int| 0 <= k < a0.live@.len() && (#[trigger] a0.live@[k]).id == id;
        assert(a1.live@[k].id == id);
    }
}

/// After pushing one block, exactly that block's id is newly live.
pub proof fn lemma_is_live_after_push(a0: MemoryAllocator, a1: MemoryAllocator, b: MemoryBlock)
    requires
        a1.live@ == a0.live@.push(b),
    ensures
        forall|id: u64| #[trigger] a1.spec_is_live(id) == (a0.spec_is_live(id) || id == b.id),
{
    assert forall|id: u64| #[trigger] a1.spec_is_live(id) == (a0.spec_is_live(id) || id
        == b.id) by {
        if a1.spec_is_live(id) {
            let k = choose|k: int| 0 <= k < a1.live@.len() && (#[trigger] a1.live@[k]).id == id;
            if k < a0.live@.len() {
                assert(a0.live@[k].id == id);
            }
        }
        if a0.spec_is_live(id) {
            let k = choose|k: int| 0 <= k < a0.live@.len() && (#[trigger] a0.live@[k]).id == id;
            assert(a1.live@[k].id == id);
        }
        if id == b.id {
            assert(a1.live@[a1.live@.len() - 1].id == id);
        }
    }
}

/// Every live block whose memory is the handle of page `page_index` ends at
/// or below that page's cursor: the page owning a block is unique, and the
/// block sits below its cursor.
proof fn lemma_blocks_below_cursor(a: MemoryAllocator, page_index: int)
    requires
        a.wf(),
        0 <= page_index < a.pages@.len(),
    ensures
        forall|b: int|
            0 <= b < a.live@.len() && (#[trigger] a.live@[b]).memory
                == a.pages@[page_index].handle ==> a.live@[b].offset + a.live@[b].size
                <= a.pages@[page_index].cursor,
{
    assert forall|b: int|
        0 <= b < a.live@.len() && (#[trigger] a.live@[b]).memory
            == a.pages@[page_index].handle implies a.live@[b].offset + a.live@[b].size
        <= a.pages@[page_index].cursor by {
        let blk = a.live@[b];
        assert(spec_block_in_pages(a.pages@, a.types@, blk));
        let p = choose|p: int|
            0 <= p < a.pages@.len() && (#[trigger] a.pages@[p]).handle == blk.memory && blk.offset
                + blk.size <= a.pages@[p].cursor && blk.host_visible
                == a.types@[a.pages@[p].memory_type as int].host_visible;
        if p != page_index {
            assert(a.pages@[p].handle != a.pages@[page_index].handle);
            assert(false);
        }
    }
}

/// A live block's memory handle names one of the allocator's pages, so it is
/// non-zero and below the handle counter.
proof fn lemma_block_memory_bounded(a: MemoryAllocator, b: MemoryBlock)
    requires
        a.wf(),
        spec_block_in_pages(a.pages@, a.types@, b),
    ensures
        0 < b.memory < a.next_memory_handle,
{
    let p = choose|p: int|
        0 <= p < a.pages@.len() && (#[trigger] a.pages@[p]).handle == b.memory && b.offset + b.size
            <= a.pages@[p].cursor && b.host_visible
            == a.types@[a.pages@[p].memory_type as int].host_visible;
    assert(0 < a.pages@[p].handle < a.next_memory_handle);
}

/// Blocks stay inside their pages when the live set is unchanged, the types
/// are unchanged, and every old page survives at its index with the same
/// handle and memory type and a cursor that did not go down.
proof fn lemma_blocks_in_pages_preserved(a0: MemoryAllocator, a1: MemoryAllocator)
    requires
        forall|b: int|
            0 <= b < a0.live@.len() ==> spec_block_in_pages(
                a0.pages@,
                a0.types@,
                #[trigger] a0.live@[b],
            ),
        a1.live@ == a0.live@,
        a1.types@ == a0.types@,
        a0.pages@.len() <= a1.pages@.len(),
        forall|p: int|
            0 <= p < a0.pages@.len() ==> (#[trigger] a1.pages@[p]).handle == a0.pages@[p].handle
                && a1.pages@[p].memory_type == a0.pages@[p].memory_type && a1.pages@[p].cursor
                >= a0.pages@[p].cursor,
    ensures
        forall|b: int|
            0 <= b < a1.live@.len() ==> spec_block_in_pages(
                a1.pages@,
                a1.types@,
                #[trigger] a1.live@[b],
            ),
{
    assert forall|b: int| 0 <= b < a1.live@.len() implies spec_block_in_pages(
        a1.pages@,
        a1.types@,
        #[trigger] a1.live@[b],
    ) by {
        let blk = a1.live@[b];
        assert(spec_block_in_pages(a0.pages@, a0.types@, blk));
        let p = choose|p: int|
            0 <= p < a0.pages@.len() && (#[trigger] a0.pages@[p]).handle == blk.memory && blk.offset
                + blk.size <= a0.pages@[p].cursor && blk.host_visible
                == a0.types@[a0.pages@[p].memory_type as int].host_visible;
        assert(0 <= p < a1.pages@.len() && a1.pages@[p].handle == blk.memory && blk.offset
            + blk.size <= a1.pages@[p].cursor && blk.host_visible
            == a1.types@[a1.pages@[p].memory_type as int].host_visible);
    }
}

} // verus!
