//! Command recording and one-shot submission: transient command pools whose
//! buffers record build commands and barriers, submitted in one batch with a
//! blocking wait. Used for acceleration-structure builds only, never for
//! steady-state per-frame work.

use vstd::prelude::*;

use crate::accel::{AccelerationStructureGeometry, AccelerationStructureLevel, BuildRangeInfo};
use crate::address::DeviceAddress;
use crate::device::{Device, SubmittedBatch};
use crate::flags;

verus! {

/// Whether a build command builds a structure afresh or updates one in place.
#[derive(Clone, Copy, Debug, PartialEq, Eq, Structural)]
pub enum BuildMode {
    /// Build from scratch; the source handle is null.
    Build,
    /// Refit an existing structure; source and destination are the same.
    Update,
}

/// The level of a recorded command buffer.
#[derive(Clone, Copy, Debug, PartialEq, Eq, Structural)]
pub enum CommandBufferLevel {
    /// Submitted directly to a queue.
    Primary,
    /// Executed from within a primary buffer.
    Secondary,
}

/// One acceleration-structure build as recorded into a command buffer.
#[derive(Clone, Debug)]
pub struct BuildCommand {
    /// Bottom or top level.
    pub level: AccelerationStructureLevel,
    /// Fresh build or in-place update.
    pub mode: BuildMode,
    /// Source structure handle for updates; zero means null.
    pub src: u64,
    /// Destination structure handle.
    pub dst: u64,
    /// Build flags (`flags::BUILD_*`).
    pub flags: u32,
    /// The geometries to build from.
    pub geometries: Vec<AccelerationStructureGeometry>,
    /// One range per geometry.
    pub ranges: Vec<BuildRangeInfo>,
    /// Device address of the scratch memory the build works in.
    pub scratch: DeviceAddress,
}

/// A command as the device executes it.
#[derive(Clone, Debug)]
pub enum Command {
    /// Build or update one acceleration structure.
    BuildAccelerationStructures(BuildCommand),
    /// A memory barrier between pipeline stages.
    PipelineBarrier {
        /// Stage whose writes are made available.
        src_stage: u32,
        /// Stage that waits on them.
        dst_stage: u32,
        /// Access mask of the writes made available.
        src_access: u32,
        /// Access mask of the reads made visible.
        dst_access: u32,
    },
}

/// A command buffer: a recording of commands in submission order.
#[derive(Clone, Debug)]
pub struct CommandBuffer {
    /// Native handle of the buffer.
    pub handle: u64,
    /// The commands recorded so far.
    pub commands: Vec<Command>,
    /// Whether the buffer is open for recording.
    pub recording: bool,
}

impl CommandBuffer {
    /// Opens the buffer for recording.
    pub fn begin(&mut self)
        requires
            !old(self).recording,
        ensures
            *final(self) == (CommandBuffer { recording: true, ..*old(self) }),
    {
        self.recording = true;
    }

    /// Records one acceleration-structure build.
    pub fn build_acceleration_structures(&mut self, cmd: BuildCommand)
        requires
            old(self).recording,
        ensures
            final(self).handle == old(self).handle,
            final(self).recording,
            final(self).commands@ == old(self).commands@.push(
                Command::BuildAccelerationStructures(cmd),
            ),
    {
        self.commands.push(Command::BuildAccelerationStructures(cmd));
    }

    /// Records a memory barrier between two pipeline stages.
    pub fn pipeline_barrier(&mut self, src_stage: u32, dst_stage: u32, src_access: u32, dst_access: u32)
        requires
            old(self).recording,
        ensures
            final(self).handle == old(self).handle,
            final(self).recording,
            final(self).commands@ == old(self).commands@.push(
                Command::PipelineBarrier { src_stage, dst_stage, src_access, dst_access },
            ),
    {
        self.commands.push(Command::PipelineBarrier { src_stage, dst_stage, src_access, dst_access });
    }
}

/// A transient command pool bound to one queue family. Its buffers are
/// recorded on the CPU and handed back in one batch; `destroy` returns the
/// pool's handle to the device.
pub struct CommandPool {
    /// Native pool handle; always the registry index plus one.
    pub handle: u64,
    /// Slot in the device's command-pool registry.
    pub index: usize,
    /// The queue family the pool submits to.
    pub queue_family_index: u32,
    /// Pool creation flags (`flags::COMMAND_POOL_*`).
    pub flags: u32,
    /// Next command-buffer handle to hand out.
    pub next_buffer_handle: u64,
}

impl CommandPool {
    /// Creates a pool on the device for the given queue family.
    pub fn new(device: &mut Device, queue_family_index: u32, create_flags: u32) -> (r: CommandPool)
        requires
            old(device).command_pools.live@.len() < usize::MAX,
        ensures
            *final(device) == (Device { command_pools: final(device).command_pools, ..*old(device) }),
            final(device).command_pools.live@ == old(device).command_pools.live@.push(true),
            r.index == old(device).command_pools.live@.len(),
            r.handle == r.index + 1,
            r.queue_family_index == queue_family_index,
            r.flags == create_flags,
            r.next_buffer_handle == 1,
    {
        let index = device.command_pools.insert();
        CommandPool {
            handle: index as u64 + 1,
            index,
            queue_family_index,
            flags: create_flags,
            next_buffer_handle: 1,
        }
    }

    /// Allocates `count` fresh command buffers, none of them recording and
    /// each with its own handle: buffer `i` gets the pool's counter plus `i`,
    /// so the returned buffers are pairwise distinct.
    pub fn create_command_buffers(&mut self, _level: CommandBufferLevel, count: usize) -> (r: Vec<
        CommandBuffer,
    >)
        requires
            old(self).next_buffer_handle + count <= u64::MAX,
        ensures
            final(self).handle == old(self).handle,
            final(self).index == old(self).index,
            final(self).queue_family_index == old(self).queue_family_index,
            final(self).flags == old(self).flags,
            final(self).next_buffer_handle == old(self).next_buffer_handle + count,
            r@.len() == count,
            forall|i: int|
                0 <= i < count ==> (#[trigger] r@[i]).commands@.len() == 0 && !r@[i].recording
                    && r@[i].handle == old(self).next_buffer_handle + i,
            forall|i: int, j: int|
                0 <= i < count && 0 <= j < count && i != j ==> (#[trigger] r@[i]).handle != (
                #[trigger] r@[j]).handle,
    {
        let mut buffers: Vec<CommandBuffer> = Vec::new();
        let mut i: usize = 0;
        while i < count
            invariant
                i <= count,
                old(self).next_buffer_handle + count <= u64::MAX,
                self.handle == old(self).handle,
                self.index == old(self).index,
                self.queue_family_index == old(self).queue_family_index,
                self.flags == old(self).flags,
                self.next_buffer_handle == old(self).next_buffer_handle + i,
                buffers@.len() == i,
                forall|k: int|
                    0 <= k < i ==> (#[trigger] buffers@[k]).commands@.len() == 0
                        && !buffers@[k].recording && buffers@[k].handle == old(
                        self,
                    ).next_buffer_handle + k,
            decreases count - i,
        {
            let handle = self.next_buffer_handle;
            self.next_buffer_handle = self.next_buffer_handle + 1;
            buffers.push(CommandBuffer { handle, commands: Vec::new(), recording: false });
            i = i + 1;
        }
        buffers
    }

    /// Submits the buffers to the pool's queue in one batch, without waiting.
    pub fn submit(&self, device: &mut Device, buffers: Vec<CommandBuffer>)
        ensures
            *final(device) == (Device { submissions: final(device).submissions, ..*old(device) }),
            final(device).submissions@.len() == old(device).submissions@.len() + 1,
            forall|i: int|
                0 <= i < old(device).submissions@.len() ==> final(device).submissions@[i] == old(
                    device,
                ).submissions@[i],
            final(device).submissions@.last().queue_family_index == self.queue_family_index,
            final(device).submissions@.last().buffers@ == buffers@,
    {
        device.submissions.push(
            SubmittedBatch { queue_family_index: self.queue_family_index, buffers },
        );
    }

    /// Submits the buffers in one batch, then blocks until the queue is idle:
    /// on return every submission so far has completed on the device.
    pub fn submit_and_wait(&self, device: &mut Device, buffers: Vec<CommandBuffer>)
        requires
            old(device).completed <= old(device).submissions@.len(),
        ensures
            *final(device) == (Device {
                submissions: final(device).submissions,
                completed: final(device).completed,
                ..*old(device)
            }),
            final(device).submissions@.len() == old(device).submissions@.len() + 1,
            forall|i: int|
                0 <= i < old(device).submissions@.len() ==> final(device).submissions@[i] == old(
                    device,
                ).submissions@[i],
            final(device).submissions@.last().queue_family_index == self.queue_family_index,
            final(device).submissions@.last().buffers@ == buffers@,
            final(device).completed == final(device).submissions@.len(),
    {
        self.submit(device, buffers);
        device.wait_idle();
    }

    /// Destroys the pool, returning its handle to the device.
    pub fn destroy(self, device: &mut Device)
        requires
            self.index < old(device).command_pools.live@.len(),
        ensures
            *final(device) == (Device { command_pools: final(device).command_pools, ..*old(device) }),
            final(device).command_pools.live@ == old(device).command_pools.live@.update(
                self.index as int,
                false,
            ),
    {
        device.command_pools.remove(self.index);
    }
}

} // verus!
