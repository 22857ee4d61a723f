//! Descriptor layouts and pool sizing: the twelve canonical descriptor types,
//! layout bindings, and the per-type count table derived from them.

use vstd::prelude::*;

verus! {

/// How many descriptor types there are.
pub const DESCRIPTOR_TYPES_COUNT: usize = 12;

/// Layout-creation flag: the set may be updated after binding.
pub const DESCRIPTOR_SET_LAYOUT_UPDATE_AFTER_BIND_POOL: u32 = 0x2;

/// Pool-creation flag: sets from this pool may be updated after binding.
pub const DESCRIPTOR_POOL_UPDATE_AFTER_BIND: u32 = 0x2;

/// The canonical descriptor types, in their table order.
#[derive(Clone, Copy, Debug, PartialEq, Eq, Structural)]
pub enum DescriptorType {
    /// A standalone sampler.
    Sampler,
    /// A sampled image with its sampler.
    CombinedImageSampler,
    /// A sampled image.
    SampledImage,
    /// A storage image.
    StorageImage,
    /// A uniform texel buffer.
    UniformTexelBuffer,
    /// A storage texel buffer.
    StorageTexelBuffer,
    /// A uniform buffer.
    UniformBuffer,
    /// A storage buffer.
    StorageBuffer,
    /// A uniform buffer with a dynamic offset.
    UniformBufferDynamic,
    /// A storage buffer with a dynamic offset.
    StorageBufferDynamic,
    /// An input attachment.
    InputAttachment,
    /// An acceleration structure.
    AccelerationStructure,
}

/// The table index of a descriptor type.
pub open spec fn spec_descriptor_type_index(t: DescriptorType) -> int {
    match t {
        DescriptorType::Sampler => 0,
        DescriptorType::CombinedImageSampler => 1,
        DescriptorType::SampledImage => 2,
        DescriptorType::StorageImage => 3,
        DescriptorType::UniformTexelBuffer => 4,
        DescriptorType::StorageTexelBuffer => 5,
        DescriptorType::UniformBuffer => 6,
        DescriptorType::StorageBuffer => 7,
        DescriptorType::UniformBufferDynamic => 8,
        DescriptorType::StorageBufferDynamic => 9,
        DescriptorType::InputAttachment => 10,
        DescriptorType::AccelerationStructure => 11,
    }
}

/// The descriptor type at a table index.
pub open spec fn spec_descriptor_type_of_index(i: int) -> DescriptorType {
    if i == 0 {
        DescriptorType::Sampler
    } else if i == 1 {
        DescriptorType::CombinedImageSampler
    } else if i == 2 {
        DescriptorType::SampledImage
    } else if i == 3 {
        DescriptorType::StorageImage
    } else if i == 4 {
        DescriptorType::UniformTexelBuffer
    } else if i == 5 {
        DescriptorType::StorageTexelBuffer
    } else if i == 6 {
        DescriptorType::UniformBuffer
    } else if i == 7 {
        DescriptorType::StorageBuffer
    } else if i == 8 {
        DescriptorType::UniformBufferDynamic
    } else if i == 9 {
        DescriptorType::StorageBufferDynamic
    } else if i == 10 {
        DescriptorType::InputAttachment
    } else {
        DescriptorType::AccelerationStructure
    }
}

impl DescriptorType {
    /// The table index of this type.
    pub fn index(&self) -> (r: usize)
        ensures
            r == spec_descriptor_type_index(*self),
            r < DESCRIPTOR_TYPES_COUNT,
    {
        match self {
            DescriptorType::Sampler => 0,
            DescriptorType::CombinedImageSampler => 1,
            DescriptorType::SampledImage => 2,
            DescriptorType::StorageImage => 3,
            DescriptorType::UniformTexelBuffer => 4,
            DescriptorType::StorageTexelBuffer => 5,
            DescriptorType::UniformBuffer => 6,
            DescriptorType::StorageBuffer => 7,
            DescriptorType::UniformBufferDynamic => 8,
            DescriptorType::StorageBufferDynamic => 9,
            DescriptorType::InputAttachment => 10,
            DescriptorType::AccelerationStructure => 11,
        }
    }
}

/// The descriptor type at a table index.
pub fn descriptor_type_from_index(index: usize) -> (r: DescriptorType)
    requires
        index < DESCRIPTOR_TYPES_COUNT,
    ensures
        r == spec_descriptor_type_of_index(index as int),
        spec_descriptor_type_index(r) == index,
{
    if index == 0 {
        DescriptorType::Sampler
    } else if index == 1 {
        DescriptorType::CombinedImageSampler
    } else if index == 2 {
        DescriptorType::SampledImage
    } else if index == 3 {
        DescriptorType::StorageImage
    } else if index == 4 {
        DescriptorType::UniformTexelBuffer
    } else if index == 5 {
        DescriptorType::StorageTexelBuffer
    } else if index == 6 {
        DescriptorType::UniformBuffer
    } else if index == 7 {
        DescriptorType::StorageBuffer
    } else if index == 8 {
        DescriptorType::UniformBufferDynamic
    } else if index == 9 {
        DescriptorType::StorageBufferDynamic
    } else if index == 10 {
        DescriptorType::InputAttachment
    } else {
        DescriptorType::AccelerationStructure
    }
}

/// One binding of a descriptor set layout.
#[derive(Clone, Copy, Debug, PartialEq, Eq, Structural)]
pub struct DescriptorSetLayoutBinding {
    /// Binding number in the shader interface.
    pub binding: u32,
    /// Type of the descriptors in this binding.
    pub descriptor_type: DescriptorType,
    /// Number of descriptors in this binding.
    pub count: u32,
    /// Shader stages that can access the binding.
    pub stages: u32,
    /// Per-binding flags.
    pub flags: u32,
}

/// Total count of descriptors of the type with table index `ti` over the
/// bindings.
pub open spec fn spec_type_count(bindings: Seq<DescriptorSetLayoutBinding>, ti: int) -> int
    decreases bindings.len(),
{
    if bindings.len() == 0 {
        0
    } else {
        spec_type_count(bindings.drop_last(), ti) + (if spec_descriptor_type_index(
            bindings.last().descriptor_type,
        ) == ti {
            bindings.last().count as int
        } else {
            0
        })
    }
}

/// A prefix never counts more than the whole.
pub proof fn lemma_type_count_prefix_le(
    bindings: Seq<DescriptorSetLayoutBinding>,
    i: int,
    ti: int,
)
    requires
        0 <= i <= bindings.len(),
    ensures
        spec_type_count(bindings.subrange(0, i), ti) <= spec_type_count(bindings, ti),
    decreases bindings.len() - i,
{
    if i == bindings.len() {
        assert(bindings.subrange(0, i) =~= bindings);
    } else {
        assert(bindings.subrange(0, i + 1).drop_last() =~= bindings.subrange(0, i));
        lemma_type_count_prefix_le(bindings, i + 1, ti);
    }
}

/// The per-type count table under construction: one counter per descriptor
/// type, in table order.
#[derive(Clone, Debug)]
pub struct DescriptorSizesBuilder {
    /// One count per descriptor type.
    pub sizes: Vec<u32>,
}

impl DescriptorSizesBuilder {
    /// Well-formedness: one slot per descriptor type.
    pub open spec fn wf(self) -> bool {
        self.sizes@.len() == DESCRIPTOR_TYPES_COUNT
    }

    /// A table of all zeros.
    pub fn zero() -> (r: DescriptorSizesBuilder)
        ensures
            r.wf(),
            forall|k: int| 0 <= k < DESCRIPTOR_TYPES_COUNT ==> r.sizes@[k] == 0,
    {
        let mut sizes: Vec<u32> = Vec::new();
        let mut i: usize = 0;
        while i < DESCRIPTOR_TYPES_COUNT
            invariant
                i <= DESCRIPTOR_TYPES_COUNT,
                sizes@.len() == i,
                forall|k: int| 0 <= k < i ==> sizes@[k] == 0,
            decreases DESCRIPTOR_TYPES_COUNT - i,
        {
            sizes.push(0);
            i = i + 1;
        }
        DescriptorSizesBuilder { sizes }
    }

    /// Adds a binding's descriptors to its type's counter.
    pub fn add_binding(&mut self, binding: &DescriptorSetLayoutBinding)
        requires
            old(self).wf(),
            old(self).sizes@[spec_descriptor_type_index(binding.descriptor_type)] + binding.count
                <= u32::MAX,
        ensures
            final(self).wf(),
            final(self).sizes@ == old(self).sizes@.update(
                spec_descriptor_type_index(binding.descriptor_type),
                (old(self).sizes@[spec_descriptor_type_index(binding.descriptor_type)]
                    + binding.count) as u32,
            ),
    {
        let idx = binding.descriptor_type.index();
        let updated = self.sizes[idx] + binding.count;
        self.sizes.set(idx, updated);
    }

    /// The table counting the given bindings: slot `t` holds the sum of the
    /// counts of the bindings of the type with table index `t`.
    pub fn from_bindings(bindings: &[DescriptorSetLayoutBinding]) -> (r: DescriptorSizesBuilder)
        requires
            forall|ti: int|
                0 <= ti < DESCRIPTOR_TYPES_COUNT ==> spec_type_count(bindings@, ti) <= u32::MAX,
        ensures
            r.wf(),
            forall|ti: int|
                0 <= ti < DESCRIPTOR_TYPES_COUNT ==> r.sizes@[ti] == spec_type_count(bindings@, ti),
    {
        let mut ranges = Self::zero();
        let n = bindings.len();
        let mut i: usize = 0;
        proof {
            assert(bindings@.subrange(0, 0) =~= Seq::<DescriptorSetLayoutBinding>::empty());
        }
        while i < n
            invariant
                n == bindings@.len(),
                i <= n,
                ranges.wf(),
                forall|ti: int|
                    0 <= ti < DESCRIPTOR_TYPES_COUNT ==> spec_type_count(bindings@, ti)
                        <= u32::MAX,
                forall|ti: int|
                    0 <= ti < DESCRIPTOR_TYPES_COUNT ==> ranges.sizes@[ti] == spec_type_count(
                        bindings@.subrange(0, i as int),
                        ti,
                    ),
            decreases n - i,
        {
            proof {
                assert(bindings@.subrange(0, i + 1 as int).drop_last() =~= bindings@.subrange(
                    0,
                    i as int,
                ));
                let ti = spec_descriptor_type_index(bindings@[i as int].descriptor_type);
                lemma_type_count_prefix_le(bindings@, i + 1 as int, ti);
            }
            ranges.add_binding(&bindings[i]);
            i = i + 1;
        }
        proof {
            assert(bindings@.subrange(0, n as int) =~= bindings@);
        }
        ranges
    }

    /// Converts the table into a pool request, leaving zero-count types out.
    pub fn build(self) -> (r: DescriptorSizes)
        requires
            self.wf(),
        ensures
            r.sizes@ == spec_pool_entries(self.sizes@, 0),
    {
        let mut out: Vec<DescriptorPoolSize> = Vec::new();
        let mut i: usize = 0;
        while i < DESCRIPTOR_TYPES_COUNT
            invariant
                self.wf(),
                i <= DESCRIPTOR_TYPES_COUNT,
                spec_pool_entries(self.sizes@, 0) == out@ + spec_pool_entries(
                    self.sizes@,
                    i as int,
                ),
            decreases DESCRIPTOR_TYPES_COUNT - i,
        {
            let ghost pre = out@;
            if self.sizes[i] > 0 {
                out.push(
                    DescriptorPoolSize {
                        descriptor_type: descriptor_type_from_index(i),
                        count: self.sizes[i],
                    },
                );
            }
            proof {
                assert(spec_pool_entries(self.sizes@, 0) =~= out@ + spec_pool_entries(
                    self.sizes@,
                    i + 1 as int,
                ));
            }
            i = i + 1;
        }
        proof {
            assert(spec_pool_entries(self.sizes@, DESCRIPTOR_TYPES_COUNT as int)
                =~= Seq::<DescriptorPoolSize>::empty());
            assert(out@ =~= spec_pool_entries(self.sizes@, 0));
        }
        DescriptorSizes { sizes: out }
    }
}

/// One pool-size entry: a descriptor type with a non-zero descriptor count.
#[derive(Clone, Copy, Debug, PartialEq, Eq, Structural)]
pub struct DescriptorPoolSize {
    /// The descriptor type of the entry.
    pub descriptor_type: DescriptorType,
    /// How many descriptors of that type the pool must hold.
    pub count: u32,
}

/// The pool entries for the count table `sizes` starting at table index `i`:
/// one entry per non-zero slot, in table order.
pub open spec fn spec_pool_entries(sizes: Seq<u32>, i: int) -> Seq<DescriptorPoolSize>
    decreases sizes.len() - i when 0 <= i <= sizes.len()
{
    if i >= sizes.len() {
        Seq::empty()
    } else {
        (if sizes[i] > 0 {
            seq![DescriptorPoolSize { descriptor_type: spec_descriptor_type_of_index(i), count: sizes[i] }]
        } else {
            Seq::empty()
        }) + spec_pool_entries(sizes, i + 1)
    }
}

/// Number of descriptors per type, as handed to pool creation: exactly the
/// non-zero rows of the count table, in table order.
#[derive(Clone, Debug)]
pub struct DescriptorSizes {
    /// The non-zero pool entries.
    pub sizes: Vec<DescriptorPoolSize>,
}

impl DescriptorSizes {
    /// Counts the bindings and keeps the non-zero per-type totals: entry
    /// order follows the type table, and a type appears exactly when some
    /// binding of that type has a non-zero count.
    pub fn from_bindings(bindings: &[DescriptorSetLayoutBinding]) -> (r: DescriptorSizes)
        requires
            forall|ti: int|
                0 <= ti < DESCRIPTOR_TYPES_COUNT ==> spec_type_count(bindings@, ti) <= u32::MAX,
        ensures
            r.sizes@ == spec_pool_entries(spec_descriptor_counts(bindings@), 0),
    {
        let builder = DescriptorSizesBuilder::from_bindings(bindings);
        proof {
            assert(builder.sizes@ =~= spec_descriptor_counts(bindings@));
        }
        builder.build()
    }

    /// How many types have a non-zero count.
    pub fn count(&self) -> (r: usize)
        ensures
            r == self.sizes@.len(),
    {
        self.sizes.len()
    }
}

/// The count table of the bindings: slot `t` holds the total count of the
/// type with table index `t`.
pub open spec fn spec_descriptor_counts(bindings: Seq<DescriptorSetLayoutBinding>) -> Seq<u32> {
    Seq::new(DESCRIPTOR_TYPES_COUNT as nat, |ti: int| spec_type_count(bindings, ti) as u32)
}

/// A created descriptor set layout: the description, the native handle, and
/// the pool sizes derived from the bindings.
#[derive(Clone, Debug)]
pub struct DescriptorSetLayout {
    /// The description the layout was created from.
    pub info: DescriptorSetLayoutInfo,
    /// Native layout handle; always the registry index plus one.
    pub handle: u64,
    /// Slot in the device's layout registry.
    pub index: usize,
    /// Per-type descriptor counts for pool creation.
    pub sizes: DescriptorSizes,
}

/// Description of a descriptor set to allocate: the layout it follows.
#[derive(Clone, Debug)]
pub struct DescriptorSetInfo {
    /// The layout of the set.
    pub layout: DescriptorSetLayout,
}

/// A descriptor set together with the dedicated pool it was allocated from.
#[derive(Clone, Copy, Debug, PartialEq, Eq, Structural)]
pub struct DescriptorSet {
    /// Native set handle.
    pub handle: u64,
    /// Native handle of the backing pool; always its registry index plus one.
    pub pool_handle: u64,
    /// Slot of the pool in the device's pool registry.
    pub pool_index: usize,
    /// The flags the pool was created with.
    pub pool_flags: u32,
}

/// Description of a descriptor set layout: its bindings and creation flags.
#[derive(Clone, Debug)]
pub struct DescriptorSetLayoutInfo {
    /// The bindings of the layout.
    pub bindings: Vec<DescriptorSetLayoutBinding>,
    /// Layout creation flags.
    pub flags: u32,
}

} // verus!
