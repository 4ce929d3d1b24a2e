use vstd::prelude::*;

verus! {

/// Memory property bit: local to the device, fastest for it to access.
pub const MEMORY_PROPERTY_DEVICE_LOCAL: u32 = 0x1;

/// Memory property bit: the host can map it.
pub const MEMORY_PROPERTY_HOST_VISIBLE: u32 = 0x2;

/// Memory property bit: host writes need no explicit flush.
pub const MEMORY_PROPERTY_HOST_COHERENT: u32 = 0x4;

/// The most memory types a device reports.
pub const MAX_MEMORY_TYPES: usize = 32;

/// What a resource asks of the memory that backs it.
#[derive(Clone, Copy, Debug, PartialEq, Eq, Structural)]
pub struct MemoryRequirements {
    pub size: u64,
    pub alignment: u64,
    /// Bit `i` is set when memory type `i` may back the resource.
    pub memory_type_bits: u32,
}

/// The memory types of a device: the property flags of each, in the order the
/// driver reports them.
pub struct MemoryProperties {
    pub memory_type_flags: Vec<u32>,
}

/// What to allocate for a resource.
#[derive(Clone, Copy, Debug, PartialEq, Eq, Structural)]
pub struct MemoryAllocation {
    pub allocation_size: u64,
    pub memory_type_index: u32,
}

#[derive(Clone, Copy, Debug, PartialEq, Eq, Structural)]
pub enum MemoryError {
    NoSuitableMemoryType,
}

/// Memory type `i` may back a resource with this type bitmask.
pub open spec fn type_allowed(memory_type_bits: u32, i: u32) -> bool {
    i < 32 && memory_type_bits & (1u32 << i) != 0
}

/// `flags` holds every bit of `desired`.
pub open spec fn flags_contain(flags: u32, desired: u32) -> bool {
    flags & desired == desired
}

/// Memory type `i` exists, is allowed by the bitmask and has every desired
/// property.
pub open spec fn type_matches(flags: Seq<u32>, memory_type_bits: u32, desired: u32, i: int) -> bool {
    &&& 0 <= i < flags.len()
    &&& type_allowed(memory_type_bits, i as u32)
    &&& flags_contain(flags[i], desired)
}

/// `i` is the first memory type that matches.
pub open spec fn is_first_match(flags: Seq<u32>, memory_type_bits: u32, desired: u32, i: int) -> bool {
    &&& type_matches(flags, memory_type_bits, desired, i)
    &&& forall|j: int| 0 <= j < i ==> !type_matches(flags, memory_type_bits, desired, j)
}

pub open spec fn any_match(flags: Seq<u32>, memory_type_bits: u32, desired: u32) -> bool {
    exists|i: int| type_matches(flags, memory_type_bits, desired, i)
}

/// Memory-type selection is deterministic: at most one index meets the
/// contract of `find_memory_type_index`, so identical requirements and
/// desired properties against unchanged memory types always give the same
/// index.
pub proof fn lemma_memory_type_choice_unique(
    flags: Seq<u32>,
    memory_type_bits: u32,
    desired: u32,
    i: int,
    j: int,
)
    requires
        is_first_match(flags, memory_type_bits, desired, i),
        is_first_match(flags, memory_type_bits, desired, j),
    ensures
        i == j,
{
    if i < j {
        assert(!type_matches(flags, memory_type_bits, desired, i));
    } else if j < i {
        assert(!type_matches(flags, memory_type_bits, desired, j));
    }
}

impl MemoryProperties {
    /// The first memory type whose bit is set in the requirements' bitmask
    /// and whose property flags include every desired one. There is no
    /// fallback: when none matches, the error is returned.
    pub fn find_memory_type_index(
        &self,
        requirements: MemoryRequirements,
        required_properties: u32,
    ) -> (r: Result<u32, MemoryError>)
        requires
            self.memory_type_flags@.len() <= MAX_MEMORY_TYPES,
        ensures
            match r {
                Ok(i) => is_first_match(
                    self.memory_type_flags@,
                    requirements.memory_type_bits,
                    required_properties,
                    i as int,
                ),
                Err(e) => e == MemoryError::NoSuitableMemoryType && !any_match(
                    self.memory_type_flags@,
                    requirements.memory_type_bits,
                    required_properties,
                ),
            },
    {
        let bits = requirements.memory_type_bits;
        let mut i: u32 = 0;
        while (i as usize) < self.memory_type_flags.len()
            invariant
                self.memory_type_flags@.len() <= MAX_MEMORY_TYPES,
                i <= self.memory_type_flags@.len(),
                bits == requirements.memory_type_bits,
                forall|j: int|
                    0 <= j < i ==> !type_matches(
                        self.memory_type_flags@,
                        bits,
                        required_properties,
                        j,
                    ),
            decreases self.memory_type_flags@.len() - i,
        {
            if bits & (1u32 << i) != 0 && self.memory_type_flags[i as usize] & required_properties
                == required_properties {
                return Ok(i);
            }
            i = i + 1;
        }
        Err(MemoryError::NoSuitableMemoryType)
    }

    /// What to allocate for a resource: its full required size, from the
    /// memory type that `find_memory_type_index` selects.
    pub fn memory_allocation(
        &self,
        requirements: MemoryRequirements,
        required_properties: u32,
    ) -> (r: Result<MemoryAllocation, MemoryError>)
        requires
            self.memory_type_flags@.len() <= MAX_MEMORY_TYPES,
        ensures
            match r {
                Ok(a) => {
                    &&& a.allocation_size == requirements.size
                    &&& is_first_match(
                        self.memory_type_flags@,
                        requirements.memory_type_bits,
                        required_properties,
                        a.memory_type_index as int,
                    )
                },
                Err(e) => e == MemoryError::NoSuitableMemoryType && !any_match(
                    self.memory_type_flags@,
                    requirements.memory_type_bits,
                    required_properties,
                ),
            },
    {
        let memory_type_index = self.find_memory_type_index(requirements, required_properties)?;
        Ok(MemoryAllocation { allocation_size: requirements.size, memory_type_index })
    }
}

} // verus!
