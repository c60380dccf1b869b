//! Choosing the device, the queue family and the memory types for a test,
//! from what the graphics API reports as plain values.

use vstd::prelude::*;
use crate::window::ConfigurationError;

verus! {

/// Queue flag bit of a family that runs compute work.
pub const QUEUE_COMPUTE: u32 = 0x2;

/// Memory property bit: the memory is local to the device.
pub const MEMORY_DEVICE_LOCAL: u32 = 0x1;

/// Memory property bit: the host can map the memory.
pub const MEMORY_HOST_VISIBLE: u32 = 0x2;

/// Memory property bit: host and device see each other's writes without
/// explicit flushes.
pub const MEMORY_HOST_COHERENT: u32 = 0x4;

/// Whether `flags` has every bit of `required` set.
pub open spec fn contains_flags(flags: u32, required: u32) -> bool {
    flags & required == required
}

/// Tests whether `flags` has every bit of `required` set.
pub fn flags_contain(flags: u32, required: u32) -> (contained: bool)
    ensures
        contained == contains_flags(flags, required),
{
    flags & required == required
}

/// Finds the first queue family whose flags hold every bit of `required`.
pub fn find_queue_family(queue_flags: &Vec<u32>, required: u32) -> (family: Option<usize>)
    ensures
        match family {
            Some(i) => i < queue_flags.len() && contains_flags(queue_flags[i as int], required)
                && forall|j: int| 0 <= j < i ==> !contains_flags(queue_flags[j], required),
            None => forall|j: int|
                0 <= j < queue_flags.len() ==> !contains_flags(queue_flags[j], required),
        },
{
    let mut i: usize = 0;
    while i < queue_flags.len()
        invariant
            i <= queue_flags.len(),
            forall|j: int| 0 <= j < i ==> !contains_flags(queue_flags[j], required),
        decreases queue_flags.len() - i,
    {
        if flags_contain(queue_flags[i], required) {
            return Some(i);
        }
        i = i + 1;
    }
    None
}

/// The kind of a physical device, as far as the choice depends on it.
#[derive(Clone, Copy, Debug, PartialEq, Eq, Structural)]
pub enum DeviceKind {
    Discrete,
    Integrated,
    Other,
}

impl DeviceKind {
    /// Preference among devices: discrete before integrated before the rest.
    pub open spec fn rank(self) -> int {
        match self {
            DeviceKind::Discrete => 2,
            DeviceKind::Integrated => 1,
            DeviceKind::Other => 0,
        }
    }

    /// Computes the preference rank of the kind.
    pub fn preference(&self) -> (rank: u8)
        ensures
            rank == self.rank(),
    {
        match self {
            DeviceKind::Discrete => 2,
            DeviceKind::Integrated => 1,
            DeviceKind::Other => 0,
        }
    }
}

/// A physical device that offers a compute queue family.
#[derive(Clone, Copy, Debug, PartialEq, Eq, Structural)]
pub struct DeviceCandidate {
    pub kind: DeviceKind,
    pub queue_family: u32,
}

/// Picks the device to test: one of the most preferred kind, and among
/// equals the one listed last. Fails where no candidate is listed.
pub fn select_device(candidates: &Vec<DeviceCandidate>) -> (choice: Result<
    usize,
    ConfigurationError,
>)
    ensures
        candidates.len() == 0 ==> choice == Err::<usize, ConfigurationError>(
            ConfigurationError::NoComputeDevice,
        ),
        candidates.len() > 0 ==> choice is Ok && {
            let best = choice->Ok_0 as int;
            &&& 0 <= best < candidates.len()
            &&& forall|i: int|
                0 <= i < candidates.len() ==> candidates[i].kind.rank()
                    <= candidates[best].kind.rank()
            &&& forall|i: int|
                best < i < candidates.len() ==> candidates[i].kind.rank()
                    < candidates[best].kind.rank()
        },
{
    if candidates.len() == 0 {
        return Err(ConfigurationError::NoComputeDevice);
    }
    let mut best: usize = 0;
    let mut i: usize = 1;
    while i < candidates.len()
        invariant
            1 <= i <= candidates.len(),
            best < i,
            forall|j: int|
                0 <= j < i ==> candidates[j].kind.rank() <= candidates[best as int].kind.rank(),
            forall|j: int|
                best < j < i ==> candidates[j].kind.rank() < candidates[best as int].kind.rank(),
        decreases candidates.len() - i,
    {
        if candidates[i].kind.preference() >= candidates[best].kind.preference() {
            best = i;
        }
        i = i + 1;
    }
    Ok(best)
}

/// A memory type of the device: its property flags and the heap it lives in.
#[derive(Clone, Copy, Debug, PartialEq, Eq, Structural)]
pub struct MemoryType {
    pub property_flags: u32,
    pub heap_index: u32,
}

/// What an allocation asks of a memory type.
#[derive(Clone, Copy, Debug, PartialEq, Eq, Structural)]
pub struct MemoryRequest {
    /// Bit `i` is set where the buffer can live in memory type `i`.
    pub memory_type_bits: u32,
    /// Property flags that the type must have, all of them.
    pub required_flags: u32,
    /// Least size in bytes of the heap that holds the type.
    pub min_heap_size: u64,
}

impl MemoryRequest {
    /// What the control structure's allocation asks for: memory that is
    /// local to the device, visible to the host and coherent.
    pub fn for_control_structure(memory_type_bits: u32) -> (request: MemoryRequest)
        ensures
            request == (MemoryRequest {
                memory_type_bits,
                required_flags: 0x7,
                min_heap_size: 0,
            }),
            contains_flags(request.required_flags, MEMORY_DEVICE_LOCAL),
            contains_flags(request.required_flags, MEMORY_HOST_VISIBLE),
            contains_flags(request.required_flags, MEMORY_HOST_COHERENT),
    {
        assert(0x7u32 & 0x1u32 == 0x1u32 && 0x7u32 & 0x2u32 == 0x2u32 && 0x7u32 & 0x4u32 == 0x4u32
            && 0x1u32 | 0x2u32 | 0x4u32 == 0x7u32) by (bit_vector);
        MemoryRequest {
            memory_type_bits,
            required_flags: MEMORY_DEVICE_LOCAL | MEMORY_HOST_VISIBLE | MEMORY_HOST_COHERENT,
            min_heap_size: 0,
        }
    }

    /// What the test region's allocation asks for: memory local to the
    /// device, in a heap that holds all `tested_size` bytes.
    pub fn for_test_region(memory_type_bits: u32, tested_size: u64) -> (request: MemoryRequest)
        ensures
            request == (MemoryRequest {
                memory_type_bits,
                required_flags: MEMORY_DEVICE_LOCAL,
                min_heap_size: tested_size,
            }),
    {
        MemoryRequest {
            memory_type_bits,
            required_flags: MEMORY_DEVICE_LOCAL,
            min_heap_size: tested_size,
        }
    }
}

/// Size of the heap that holds `memory_type`; 0 where the heap is not listed.
pub open spec fn heap_size_of(memory_type: MemoryType, heap_sizes: Seq<u64>) -> u64 {
    if memory_type.heap_index < heap_sizes.len() {
        heap_sizes[memory_type.heap_index as int]
    } else {
        0
    }
}

/// Memory type `index` serves the request: the buffer accepts it, it has the
/// required properties, and its heap is large enough.
pub open spec fn memory_type_suits(
    request: MemoryRequest,
    types: Seq<MemoryType>,
    heap_sizes: Seq<u64>,
    index: int,
) -> bool {
    &&& 0 <= index < types.len()
    &&& index < 32
    &&& request.memory_type_bits & (1u32 << (index as u32)) != 0
    &&& contains_flags(types[index].property_flags, request.required_flags)
    &&& heap_size_of(types[index], heap_sizes) >= request.min_heap_size
}

/// Finds the first memory type that serves `request`. Fails where none does.
pub fn find_memory_type(
    request: &MemoryRequest,
    types: &Vec<MemoryType>,
    heap_sizes: &Vec<u64>,
) -> (found: Result<u32, ConfigurationError>)
    ensures
        match found {
            Ok(index) => memory_type_suits(*request, types@, heap_sizes@, index as int)
                && forall|j: int|
                0 <= j < index ==> !memory_type_suits(*request, types@, heap_sizes@, j),
            Err(error) => error == ConfigurationError::NoSuitableMemoryType && forall|j: int|
                !memory_type_suits(*request, types@, heap_sizes@, j),
        },
{
    let mut i: u32 = 0;
    while i < 32 && (i as usize) < types.len()
        invariant
            i <= 32,
            i <= types.len(),
            forall|j: int| 0 <= j < i ==> !memory_type_suits(*request, types@, heap_sizes@, j),
        decreases 32 - i,
    {
        let memory_type: MemoryType = types[i as usize];
        let accepted: bool = request.memory_type_bits & (1u32 << i) != 0;
        let heap_index: usize = memory_type.heap_index as usize;
        let heap_size: u64 = if heap_index < heap_sizes.len() {
            heap_sizes[heap_index]
        } else {
            0
        };
        if accepted && flags_contain(memory_type.property_flags, request.required_flags)
            && heap_size >= request.min_heap_size {
            return Ok(i);
        }
        i = i + 1;
    }
    Err(ConfigurationError::NoSuitableMemoryType)
}

} // verus!
