//! Buffer resources: a native buffer handle bound to a memory block, with an
//! optional device address and host uploads for host-visible memory.

use vstd::prelude::*;

use crate::address::DeviceAddress;
use crate::buffer::BufferInfo;
use crate::error::RenderError;
use crate::memory::MemoryBlock;

verus! {

/// Copies a vector of plain values.
pub fn copy_vec<T: Copy>(src: &Vec<T>) -> (r: Vec<T>)
    ensures
        r@ == src@,
{
    let mut out: Vec<T> = Vec::new();
    let n = src.len();
    let mut i: usize = 0;
    while i < n
        invariant
            n == src@.len(),
            i <= n,
            out@ == src@.subrange(0, i as int),
        decreases n - i,
    {
        out.push(src[i]);
        proof {
            assert(out@ == src@.subrange(0, i + 1 as int));
        }
        i = i + 1;
    }
    proof {
        assert(src@.subrange(0, n as int) == src@);
    }
    out
}

/// Copies a byte slice into a fresh vector.
pub fn copy_bytes(src: &[u8]) -> (r: Vec<u8>)
    ensures
        r@ == src@,
{
    let mut out: Vec<u8> = Vec::new();
    let n = src.len();
    let mut i: usize = 0;
    while i < n
        invariant
            n == src@.len(),
            i <= n,
            out@ == src@.subrange(0, i as int),
        decreases n - i,
    {
        out.push(src[i]);
        proof {
            assert(out@ == src@.subrange(0, i + 1 as int));
        }
        i = i + 1;
    }
    proof {
        assert(src@.subrange(0, n as int) == src@);
    }
    out
}

/// A buffer resource: the native buffer handle, its memory block, an optional
/// device address, and — for host-visible memory — the bytes most recently
/// uploaded through `store`.
pub struct BufferResource {
    /// The description the buffer was created from.
    pub info: BufferInfo,
    /// Native buffer handle; always the registry index plus one.
    pub handle: u64,
    /// Slot of the buffer in the device's buffer registry.
    pub index: usize,
    /// Device address, present exactly when the allocation asked for one.
    pub device_address: Option<DeviceAddress>,
    /// The memory block backing the buffer.
    pub block: MemoryBlock,
    /// Content model of host-visible memory: the bytes of the last upload.
    pub bytes: Vec<u8>,
}

impl BufferResource {
    /// Well-formedness: the handle encodes the registry slot, the creation
    /// info was valid, the device address is present exactly when requested
    /// and never null, host access implies host-visible memory, and the block
    /// is at least as large as the buffer.
    pub open spec fn wf(self) -> bool {
        &&& self.handle == self.index + 1
        &&& self.info.spec_valid()
        &&& (match self.device_address {
            Some(a) => a.0 != 0,
            None => true,
        })
        &&& (self.device_address is Some) == self.info.spec_wants_device_address()
        &&& self.info.spec_wants_host_access() ==> self.block.host_visible
        &&& self.block.size >= self.info.size
    }

    /// The buffer's device address, if it was created with one. Idempotent:
    /// the address is fixed at creation, so repeated queries agree.
    pub fn device_address(&self) -> (r: Option<DeviceAddress>)
        ensures
            r == self.device_address,
    {
        self.device_address
    }

    /// Uploads `data` into the buffer: maps the store region, copies the
    /// bytes, unmaps. Succeeds exactly when the memory is host-visible and
    /// the data fits the buffer; afterwards the mapped content is `data`.
    pub fn store(&mut self, data: &[u8]) -> (r: Result<(), RenderError>)
        ensures
            (r is Ok) == (old(self).block.host_visible && data@.len() <= old(self).info.size),
            r is Ok ==> *final(self) == (BufferResource { bytes: final(self).bytes, ..*old(self) })
                && final(self).bytes@ == data@,
            r is Err ==> *final(self) == *old(self) && (r == Err::<(), RenderError>(
                RenderError::NotHostVisible,
            ) || r == Err::<(), RenderError>(RenderError::StoreTooLarge)),
            r == Err::<(), RenderError>(RenderError::NotHostVisible) <==> !old(
                self,
            ).block.host_visible,
            r == Err::<(), RenderError>(RenderError::StoreTooLarge) <==> (old(
                self,
            ).block.host_visible && data@.len() > old(self).info.size),
    {
        if !self.block.host_visible {
            return Err(RenderError::NotHostVisible);
        }
        if data.len() as u64 > self.info.size {
            return Err(RenderError::StoreTooLarge);
        }
        self.bytes = copy_bytes(data);
        Ok(())
    }

    /// Destroys the buffer: the native handle goes first, then the memory
    /// block returns to the allocator. Taking the resource by value makes a
    /// second destroy impossible.
    pub fn destroy(self, device: &mut crate::device::Device)
        requires
            old(device).wf(),
            old(device).allocator.spec_is_live(self.block.id),
            self.index < old(device).buffers.live@.len(),
        ensures
            final(device).wf(),
            final(device).buffers.live@ == old(device).buffers.live@.update(
                self.index as int,
                false,
            ),
            final(device).allocator.live@.len() == old(device).allocator.live@.len() - 1,
            forall|id: u64|
                final(device).allocator.spec_is_live(id) == (old(device).allocator.spec_is_live(id)
                    && id != self.block.id),
    {
        device.destroy_buffer(self);
    }

    /// Maps the buffer and reads its content back. Succeeds exactly when the
    /// memory is host-visible; the result is the content last stored.
    pub fn read_back(&self) -> (r: Result<Vec<u8>, RenderError>)
        ensures
            (r is Ok) == self.block.host_visible,
            r matches Ok(v) ==> v@ == self.bytes@,
            r is Err ==> r == Err::<Vec<u8>, RenderError>(RenderError::NotHostVisible),
    {
        if !self.block.host_visible {
            return Err(RenderError::NotHostVisible);
        }
        Ok(copy_bytes(self.bytes.as_slice()))
    }
}

/// Storing then reading back returns exactly the bytes written: `store`
/// leaves the mapped content equal to the upload, and `read_back` returns the
/// mapped content unchanged.
pub proof fn lemma_store_read_back_round_trip(
    before: BufferResource,
    after: BufferResource,
    data: Seq<u8>,
    read: Seq<u8>,
)
    requires
        before.block.host_visible,
        data.len() <= before.info.size,
        after == (BufferResource { bytes: after.bytes, ..before }),
        after.bytes@ == data,
        read == after.bytes@,
    ensures
        read == data,
{
}

/// A contiguous region of a buffer.
pub struct BufferRegion {
    /// The buffer the region lies in.
    pub buffer: BufferResource,
    /// Byte offset of the region's start.
    pub offset: u64,
    /// Byte size of the region.
    pub size: u64,
    /// Element stride for strided reads, if any.
    pub stride: Option<u64>,
}

impl BufferRegion {
    /// The region covering the whole buffer.
    pub fn whole(buffer: BufferResource) -> (r: BufferRegion)
        ensures
            r.offset == 0,
            r.size == buffer.info.size,
            r.buffer == buffer,
            r.stride is None,
    {
        BufferRegion { offset: 0, size: buffer.info.size, buffer, stride: None }
    }
}

} // verus!
