//! Choice of a device memory type for an allocation.
use vstd::prelude::*;

verus! {

/// The number of entries in a device's memory type table.
pub const MAX_MEMORY_TYPES: usize = 32;

/// What a resource asks of the memory that backs it.
#[derive(Clone, Copy, Debug, PartialEq, Eq)]
pub struct MemoryRequirements {
    pub size: u64,
    pub alignment: u64,
    /// Bit `i` is set when memory type `i` may back the resource.
    pub memory_type_bits: u32,
}

/// One entry of a device's memory type table.
#[derive(Clone, Copy, Debug, PartialEq, Eq)]
pub struct MemoryType {
    /// The property flag bits of this memory type.
    pub property_flags: u32,
    pub heap_index: u32,
}

/// The memory type table of a physical device: `memory_types` holds all
/// `MAX_MEMORY_TYPES` slots, of which the first `memory_type_count` are in use.
pub struct MemoryProperties {
    pub memory_type_count: u32,
    pub memory_types: Vec<MemoryType>,
}

impl MemoryProperties {
    /// The table has its full number of slots and no more types in use than slots.
    pub open spec fn wf(&self) -> bool {
        &&& self.memory_types@.len() == MAX_MEMORY_TYPES
        &&& self.memory_type_count <= MAX_MEMORY_TYPES
    }
}

/// Memory type `index` is allowed by the requirement bits `bits`.
pub open spec fn type_allowed(bits: u32, index: u32) -> bool {
    (1u32 << index) & bits != 0
}

/// Memory type `index` can back a resource with requirements `req` and has every
/// property bit of `flags`.
pub open spec fn memory_type_suitable(
    req: MemoryRequirements,
    props: Seq<MemoryType>,
    flags: u32,
    index: u32,
) -> bool {
    &&& type_allowed(req.memory_type_bits, index)
    &&& props[index as int].property_flags & flags == flags
}

/// Returns the first memory type in use, in table order, that the requirements allow
/// and that has all of `flags`; `None` when there is none.
pub fn find_memorytype_index(
    memory_req: &MemoryRequirements,
    memory_prop: &MemoryProperties,
    flags: u32,
) -> (r: Option<u32>)
    requires
        memory_prop.wf(),
    ensures
        match r {
            Some(i) => {
                &&& i < memory_prop.memory_type_count
                &&& memory_type_suitable(*memory_req, memory_prop.memory_types@, flags, i)
                &&& forall|j: u32|
                    j < i ==> !memory_type_suitable(
                        *memory_req,
                        memory_prop.memory_types@,
                        flags,
                        j,
                    )
            },
            None => forall|j: u32|
                j < memory_prop.memory_type_count ==> !memory_type_suitable(
                    *memory_req,
                    memory_prop.memory_types@,
                    flags,
                    j,
                ),
        },
{
    let count = memory_prop.memory_type_count;
    let mut index: u32 = 0;
    while index < count
        invariant
            memory_prop.wf(),
            count == memory_prop.memory_type_count,
            index <= count,
            forall|j: u32|
                j < index ==> !memory_type_suitable(
                    *memory_req,
                    memory_prop.memory_types@,
                    flags,
                    j,
                ),
        decreases count - index,
    {
        let property_flags = memory_prop.memory_types[index as usize].property_flags;
        if (1u32 << index) & memory_req.memory_type_bits != 0 && property_flags & flags == flags {
            return Some(index);
        }
        index += 1;
    }
    None
}

/// Memory property bit: the memory is local to the device.
pub const MEMORY_PROPERTY_DEVICE_LOCAL: u32 = 0x1;

/// Memory property bit: the host can map the memory.
pub const MEMORY_PROPERTY_HOST_VISIBLE: u32 = 0x2;

/// Memory property bit: host writes need no flush to be seen by the device.
pub const MEMORY_PROPERTY_HOST_COHERENT: u32 = 0x4;

/// The resources that the backend allocates memory for.
#[derive(Clone, Copy, Debug, PartialEq, Eq)]
pub enum MemoryUse {
    DepthImage,
    IndexBuffer,
    VertexBuffer,
    UniformBuffer,
    ImageStagingBuffer,
    Texture,
}

impl MemoryUse {
    /// The property bits the memory of the resource must have: device-local for the
    /// images, host-visible and host-coherent for the buffers the host fills.
    pub open spec fn spec_required_flags(self) -> u32 {
        match self {
            MemoryUse::DepthImage | MemoryUse::Texture => MEMORY_PROPERTY_DEVICE_LOCAL,
            _ => MEMORY_PROPERTY_HOST_VISIBLE | MEMORY_PROPERTY_HOST_COHERENT,
        }
    }

    /// The property bits the memory of the resource must have.
    pub fn required_flags(&self) -> (r: u32)
        ensures
            r == self.spec_required_flags(),
    {
        match self {
            MemoryUse::DepthImage | MemoryUse::Texture => MEMORY_PROPERTY_DEVICE_LOCAL,
            _ => MEMORY_PROPERTY_HOST_VISIBLE | MEMORY_PROPERTY_HOST_COHERENT,
        }
    }

    /// The message with which setup stops when no memory type suits the resource.
    pub open spec fn spec_missing_message(self) -> Seq<char> {
        match self {
            MemoryUse::DepthImage => "Unable to find suitable memory index for depth image."@,
            MemoryUse::IndexBuffer => "Unable to find suitable memorytype for the index buffer."@,
            MemoryUse::VertexBuffer => "Unable to find suitable memorytype for the vertex buffer."@,
            MemoryUse::UniformBuffer => "Unable to find suitable memorytype for the vertex buffer."@,
            MemoryUse::ImageStagingBuffer => "Unable to find suitable memorytype for the image buffer."@,
            MemoryUse::Texture => "Unable to find suitable memory index for depth image."@,
        }
    }

    /// The message with which setup stops when no memory type suits the resource.
    pub fn missing_message(&self) -> (r: &'static str)
        ensures
            r@ == self.spec_missing_message(),
    {
        match self {
            MemoryUse::DepthImage => "Unable to find suitable memory index for depth image.",
            MemoryUse::IndexBuffer => "Unable to find suitable memorytype for the index buffer.",
            MemoryUse::VertexBuffer => "Unable to find suitable memorytype for the vertex buffer.",
            MemoryUse::UniformBuffer => "Unable to find suitable memorytype for the vertex buffer.",
            MemoryUse::ImageStagingBuffer => "Unable to find suitable memorytype for the image buffer.",
            MemoryUse::Texture => "Unable to find suitable memory index for depth image.",
        }
    }
}

/// The memory type for a resource: the first one in use that the requirements allow
/// and that has the property bits the resource's use calls for.
pub fn memory_type_for(
    memory_req: &MemoryRequirements,
    memory_prop: &MemoryProperties,
    usage: MemoryUse,
) -> (r: Option<u32>)
    requires
        memory_prop.wf(),
    ensures
        match r {
            Some(i) => {
                &&& i < memory_prop.memory_type_count
                &&& memory_type_suitable(*memory_req, memory_prop.memory_types@, usage.spec_required_flags(), i)
                &&& forall|j: u32|
                    j < i ==> !memory_type_suitable(
                        *memory_req,
                        memory_prop.memory_types@,
                        usage.spec_required_flags(),
                        j,
                    )
            },
            None => forall|j: u32|
                j < memory_prop.memory_type_count ==> !memory_type_suitable(
                    *memory_req,
                    memory_prop.memory_types@,
                    usage.spec_required_flags(),
                    j,
                ),
        },
{
    find_memorytype_index(memory_req, memory_prop, usage.required_flags())
}

/// Memory type `index` is allowed exactly when bit `index` of the requirement bits is
/// set.
pub proof fn lemma_type_allowed_is_bit(bits: u32, index: u32)
    requires
        index < 32,
    ensures
        type_allowed(bits, index) <==> (bits >> index) & 1u32 == 1u32,
{
    assert(((1u32 << index) & bits != 0) <==> ((bits >> index) & 1u32 == 1u32)) by (bit_vector)
        requires
            index < 32,
    ;
}

/// A memory type suits a resource exactly when the requirements allow it and it has
/// every property bit asked for, whatever other bits it has.
pub proof fn lemma_suitable_has_every_flag(req: MemoryRequirements, props: Seq<MemoryType>, flags: u32, index: u32, bit: u32)
    requires
        index < 32,
        bit < 32,
    ensures
        memory_type_suitable(req, props, flags, index) && (flags >> bit) & 1u32 == 1u32
            ==> (props[index as int].property_flags >> bit) & 1u32 == 1u32,
        memory_type_suitable(req, props, flags, index) ==> (req.memory_type_bits >> index) & 1u32 == 1u32,
{
    lemma_type_allowed_is_bit(req.memory_type_bits, index);
    let p = props[index as int].property_flags;
    assert((p & flags == flags && (flags >> bit) & 1u32 == 1u32) ==> (p >> bit) & 1u32 == 1u32) by (bit_vector)
        requires
            bit < 32,
    ;
}

/// The images live in device-local memory; the buffers that the host fills live in
/// memory that the host can map and that needs no flush, and are not asked to be
/// device-local.
pub proof fn lemma_images_device_local_buffers_host_coherent(usage: MemoryUse)
    ensures
        usage is DepthImage || usage is Texture ==> usage.spec_required_flags() == MEMORY_PROPERTY_DEVICE_LOCAL,
        !(usage is DepthImage || usage is Texture) ==> usage.spec_required_flags() == MEMORY_PROPERTY_HOST_VISIBLE
            + MEMORY_PROPERTY_HOST_COHERENT,
{
    assert(0x2u32 | 0x4u32 == 0x6u32) by (bit_vector);
}

} // verus!
